//! A model of the connection policy of the HTTP workers: each serves one
//! connection at a time, under the timeouts of `ServerTimeouts`, and goes back
//! to accepting when the connection ends. The running server is picoserve's
//! loop, configured with those same timeouts; this model states and proves
//! what that configuration asks of it, such as a timeout ending one
//! connection and leaving the other workers alone.
use vstd::prelude::*;
use crate::config::ServerTimeouts;

verus! {

#[derive(Clone, Copy, Debug, PartialEq, Eq, Structural)]
pub enum ConnPhase {
    /// Waiting for a client to connect.
    Accepting,
    /// Connected, waiting for a request to begin; `first` on a new connection.
    AwaitRequest { first: bool },
    /// Reading the rest of a request.
    Reading,
    /// Writing the response.
    Writing,
}

#[derive(Clone, Copy, Debug, PartialEq, Eq, Structural)]
pub enum ConnEvent {
    Accepted,
    RequestBegan,
    RequestRead,
    ResponseWritten,
    /// The deadline of the current wait passed.
    TimedOut,
    /// The peer closed the connection, or it failed.
    Closed,
}

#[derive(Clone, Copy, Debug, PartialEq, Eq, Structural)]
pub enum ConnAction {
    /// Accept the next connection.
    Accept,
    /// Wait at most this many milliseconds for a request to begin.
    WaitRequest(u64),
    /// Read the rest of the request within this many milliseconds.
    ReadRest(u64),
    /// Handle the request and write the response within this many milliseconds.
    HandleAndWrite(u64),
    /// Close the connection, then accept the next one.
    CloseAndAccept,
}

/// The transition table of a worker: the phase it moves to and what it does.
/// A timeout or a failure in any connected phase closes the connection and
/// sends the worker back to accepting.
pub open spec fn conn_next(cfg: ServerTimeouts, phase: ConnPhase, event: ConnEvent) -> (ConnPhase, ConnAction) {
    match (phase, event) {
        (ConnPhase::Accepting, ConnEvent::Accepted) => (
            ConnPhase::AwaitRequest { first: true },
            ConnAction::WaitRequest(cfg.start_read_request_ms),
        ),
        (ConnPhase::Accepting, _) => (ConnPhase::Accepting, ConnAction::Accept),
        (ConnPhase::AwaitRequest { .. }, ConnEvent::RequestBegan) => (
            ConnPhase::Reading,
            ConnAction::ReadRest(cfg.read_request_ms),
        ),
        (ConnPhase::Reading, ConnEvent::RequestRead) => (
            ConnPhase::Writing,
            ConnAction::HandleAndWrite(cfg.write_ms),
        ),
        (ConnPhase::Writing, ConnEvent::ResponseWritten) => if cfg.keep_alive {
            (
                ConnPhase::AwaitRequest { first: false },
                ConnAction::WaitRequest(cfg.persistent_start_read_request_ms),
            )
        } else {
            (ConnPhase::Accepting, ConnAction::CloseAndAccept)
        },
        _ => (ConnPhase::Accepting, ConnAction::CloseAndAccept),
    }
}

/// One decision of a worker.
pub fn conn_step(cfg: ServerTimeouts, phase: ConnPhase, event: ConnEvent) -> (r: (ConnPhase, ConnAction))
    ensures
        r == conn_next(cfg, phase, event),
{
    match (phase, event) {
        (ConnPhase::Accepting, ConnEvent::Accepted) => (
            ConnPhase::AwaitRequest { first: true },
            ConnAction::WaitRequest(cfg.start_read_request_ms),
        ),
        (ConnPhase::Accepting, _) => (ConnPhase::Accepting, ConnAction::Accept),
        (ConnPhase::AwaitRequest { .. }, ConnEvent::RequestBegan) => (
            ConnPhase::Reading,
            ConnAction::ReadRest(cfg.read_request_ms),
        ),
        (ConnPhase::Reading, ConnEvent::RequestRead) => (
            ConnPhase::Writing,
            ConnAction::HandleAndWrite(cfg.write_ms),
        ),
        (ConnPhase::Writing, ConnEvent::ResponseWritten) => if cfg.keep_alive {
            (
                ConnPhase::AwaitRequest { first: false },
                ConnAction::WaitRequest(cfg.persistent_start_read_request_ms),
            )
        } else {
            (ConnPhase::Accepting, ConnAction::CloseAndAccept)
        },
        _ => (ConnPhase::Accepting, ConnAction::CloseAndAccept),
    }
}

/// A model of the server's workers, each in its own phase.
pub struct WorkerPool {
    pub cfg: ServerTimeouts,
    pub workers: Vec<ConnPhase>,
}

impl WorkerPool {
    /// `n` workers, all accepting.
    pub fn new(cfg: ServerTimeouts, n: usize) -> (r: WorkerPool)
        ensures
            r.cfg == cfg,
            r.workers@.len() == n,
            forall|i: int| 0 <= i < n ==> r.workers@[i] == ConnPhase::Accepting,
    {
        let mut workers: Vec<ConnPhase> = Vec::new();
        let mut k: usize = 0;
        while k < n
            invariant
                k <= n,
                workers@.len() == k,
                forall|i: int| 0 <= i < k ==> workers@[i] == ConnPhase::Accepting,
            decreases n - k,
        {
            workers.push(ConnPhase::Accepting);
            k = k + 1;
        }
        WorkerPool { cfg, workers }
    }

    /// Worker `i` takes `event`. No other worker is touched: a connection that
    /// times out or fails is closed, its worker goes back to accepting, and
    /// the others go on with their own connections.
    pub fn step(&mut self, i: usize, event: ConnEvent) -> (r: ConnAction)
        requires
            i < old(self).workers@.len(),
        ensures
            final(self).cfg == old(self).cfg,
            final(self).workers@ == old(self).workers@.update(
                i as int,
                final(self).workers@[i as int],
            ),
            (final(self).workers@[i as int], r) == conn_next(
                old(self).cfg,
                old(self).workers@[i as int],
                event,
            ),
            old(self).workers@[i as int] != ConnPhase::Accepting && event == ConnEvent::TimedOut
                ==> final(self).workers@ == old(self).workers@.update(
                i as int,
                ConnPhase::Accepting,
            ) && r == ConnAction::CloseAndAccept,
    {
        let (next, action) = conn_step(self.cfg, self.workers[i], event);
        self.workers.set(i, next);
        action
    }
}

} // verus!
