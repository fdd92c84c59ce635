//! The address-lease service's retry policy. Each run of the lease exchange is
//! done outside; this decides what follows it.
use vstd::prelude::*;

verus! {

/// Pause between the end of one run of the lease exchange and the next.
pub const LEASE_RETRY_MS: u64 = 500;

/// The retry state of the lease service.
#[derive(Clone, Copy, Debug, PartialEq, Eq, Structural)]
pub struct LeaseService {
    /// True while the service pauses between two runs.
    pub pausing: bool,
    /// Runs that ended in an error so far (saturating).
    pub errors: u64,
}

#[derive(Clone, Copy, Debug, PartialEq, Eq, Structural)]
pub enum LeaseEvent {
    /// A run of the lease exchange returned, with an error or without.
    RunEnded { failed: bool },
    /// The pause is over.
    PauseElapsed,
}

#[derive(Clone, Copy, Debug, PartialEq, Eq, Structural)]
pub enum LeaseAction {
    /// Run the lease exchange on the bound socket.
    Run,
    /// Log the error if `log_error`, then sleep `millis`.
    Pause { log_error: bool, millis: u64 },
}

impl LeaseService {
    pub fn new() -> (r: LeaseService)
        ensures
            r == (LeaseService { pausing: false, errors: 0 }),
    {
        LeaseService { pausing: false, errors: 0 }
    }

    /// What the service does after `event`. Whatever happened, it goes on:
    /// a run that ends is followed by a pause of a fixed length, and a pause by
    /// a new run.
    pub fn step(&mut self, event: LeaseEvent) -> (r: LeaseAction)
        ensures
            event is RunEnded ==> r == (LeaseAction::Pause {
                log_error: event->failed,
                millis: LEASE_RETRY_MS,
            }) && final(self).pausing,
            event is PauseElapsed ==> r == LeaseAction::Run && !final(self).pausing,
            final(self).errors == if event == (LeaseEvent::RunEnded { failed: true })
                && old(self).errors < u64::MAX {
                old(self).errors + 1
            } else {
                old(self).errors as int
            },
            *final(self) == lease_after(*old(self), seq![event]),
    {
        let ghost s0 = *self;
        proof {
            let es = seq![event];
            assert(es.drop_last() =~= Seq::<LeaseEvent>::empty());
            assert(es.last() == event);
            assert(lease_after(s0, es.drop_last()) == s0);
        }
        match event {
            LeaseEvent::RunEnded { failed } => {
                if failed && self.errors < u64::MAX {
                    self.errors = self.errors + 1;
                }
                self.pausing = true;
                LeaseAction::Pause { log_error: failed, millis: LEASE_RETRY_MS }
            },
            LeaseEvent::PauseElapsed => {
                self.pausing = false;
                LeaseAction::Run
            },
        }
    }
}

/// The service after a sequence of events, with the actions it took.
pub open spec fn lease_after(s: LeaseService, events: Seq<LeaseEvent>) -> LeaseService
    decreases events.len(),
{
    if events.len() == 0 {
        s
    } else {
        let e = events.last();
        let p = lease_after(s, events.drop_last());
        LeaseService {
            pausing: e is RunEnded,
            errors: if e == (LeaseEvent::RunEnded { failed: true }) && p.errors < u64::MAX {
                (p.errors + 1) as u64
            } else {
                p.errors
            },
        }
    }
}

/// However many runs have failed before, a failed run is logged and followed
/// by the same fixed pause, and that pause by a new run: a malformed packet
/// never ends the service nor lengthens its pauses.
pub proof fn lemma_lease_service_resilient(s: LeaseService, before: Seq<LeaseEvent>)
    ensures
        ({
            let p = lease_after(s, before);
            let q = lease_after(s, before.push(LeaseEvent::RunEnded { failed: true }));
            &&& q.pausing
            &&& q.errors >= p.errors
            &&& lease_after(
                s,
                before.push(LeaseEvent::RunEnded { failed: true }).push(LeaseEvent::PauseElapsed),
            ) == (LeaseService { pausing: false, errors: q.errors })
        }),
{
    let b1 = before.push(LeaseEvent::RunEnded { failed: true });
    assert(b1.drop_last() =~= before);
    assert(b1.push(LeaseEvent::PauseElapsed).drop_last() =~= b1);
}

} // verus!
