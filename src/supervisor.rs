//! The access-point supervisor: keeps the radio serving as an access point,
//! starting it whenever it is found stopped.
use vstd::prelude::*;

verus! {

/// Pause after the access point stops, before it is started again.
pub const AP_SETTLE_MS: u64 = 5000;

#[derive(Clone, Copy, Debug, PartialEq, Eq, Structural)]
pub enum ApPhase {
    Stopped,
    Starting,
    Started,
    /// The radio refused a command; nothing more is done.
    Faulted,
}

/// What the radio reported.
#[derive(Clone, Copy, Debug, PartialEq, Eq, Structural)]
pub enum ApEvent {
    /// The radio was asked whether the access point runs.
    Polled { started: bool },
    /// The start command finished.
    StartDone { ok: bool },
    /// The driver reported that the access point stopped.
    ApStopped,
    /// The settle pause is over.
    SettleElapsed,
}

/// What the supervisor asks of the radio next.
#[derive(Clone, Copy, Debug, PartialEq, Eq, Structural)]
pub enum ApAction {
    /// Apply the access-point configuration and issue the start command.
    ConfigureAndStart,
    /// Wait for the driver's access-point-stop event.
    WaitForStop,
    /// Wait for the start command to finish.
    WaitForStart,
    /// Sleep this many milliseconds, then report `SettleElapsed`.
    Settle(u64),
    /// Ask the radio whether the access point runs.
    Poll,
    /// Stop for good.
    Halt,
}

/// One decision of the supervisor.
pub fn ap_step(phase: ApPhase, event: ApEvent) -> (r: (ApPhase, ApAction))
    ensures
        phase == ApPhase::Faulted ==> r == (ApPhase::Faulted, ApAction::Halt),
        phase != ApPhase::Faulted && phase != ApPhase::Starting && event == (ApEvent::Polled {
            started: false,
        }) ==> r == (ApPhase::Starting, ApAction::ConfigureAndStart),
        phase != ApPhase::Faulted && phase != ApPhase::Starting && event == (ApEvent::Polled {
            started: true,
        }) ==> r == (ApPhase::Started, ApAction::WaitForStop),
        phase == ApPhase::Starting && event == (ApEvent::StartDone { ok: true }) ==> r == (
            ApPhase::Started,
            ApAction::WaitForStop,
        ),
        phase == ApPhase::Starting && event == (ApEvent::StartDone { ok: false }) ==> r == (
            ApPhase::Faulted,
            ApAction::Halt,
        ),
        phase == ApPhase::Starting && !(event is StartDone) ==> r == (
            ApPhase::Starting,
            ApAction::WaitForStart,
        ),
        phase == ApPhase::Started && event == ApEvent::ApStopped ==> r == (
            ApPhase::Stopped,
            ApAction::Settle(AP_SETTLE_MS),
        ),
        phase == ApPhase::Started && (event is StartDone || event is SettleElapsed) ==> r == (
            ApPhase::Started,
            ApAction::WaitForStop,
        ),
        phase == ApPhase::Stopped && !(event is Polled) ==> r == (ApPhase::Stopped, ApAction::Poll),
{
    match (phase, event) {
        (ApPhase::Faulted, _) => (ApPhase::Faulted, ApAction::Halt),
        (ApPhase::Starting, ApEvent::StartDone { ok: true }) => (ApPhase::Started, ApAction::WaitForStop),
        (ApPhase::Starting, ApEvent::StartDone { ok: false }) => (ApPhase::Faulted, ApAction::Halt),
        (ApPhase::Starting, _) => (ApPhase::Starting, ApAction::WaitForStart),
        (_, ApEvent::Polled { started: false }) => (ApPhase::Starting, ApAction::ConfigureAndStart),
        (_, ApEvent::Polled { started: true }) => (ApPhase::Started, ApAction::WaitForStop),
        (ApPhase::Started, ApEvent::ApStopped) => (ApPhase::Stopped, ApAction::Settle(AP_SETTLE_MS)),
        (ApPhase::Started, _) => (ApPhase::Started, ApAction::WaitForStop),
        (ApPhase::Stopped, _) => (ApPhase::Stopped, ApAction::Poll),
    }
}

} // verus!
