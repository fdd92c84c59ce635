//! The bring-up sequence: start the radio-side services, wait for the link and
//! for the address configuration, then start the HTTP workers.
use vstd::prelude::*;
use crate::config::WEB_TASK_POOL_SIZE;

verus! {

/// Pause between two checks of the link.
pub const LINK_POLL_MS: u64 = 500;
/// Pause between two checks of the address configuration.
pub const CONFIG_POLL_MS: u64 = 100;
/// Pause of the bring-up task once everything runs.
pub const IDLE_MS: u64 = 1000;

#[derive(Clone, Copy, Debug, PartialEq, Eq, Structural)]
pub enum BringUpPhase {
    Init,
    AwaitLink,
    AwaitConfig,
    Running,
}

#[derive(Clone, Copy, Debug, PartialEq, Eq, Structural)]
pub enum BringUpEvent {
    /// The network stack and radio have been built.
    Built,
    /// Whether the link is up.
    LinkUp(bool),
    /// Whether the address configuration is up.
    ConfigUp(bool),
    /// A pause is over.
    Woke,
}

#[derive(Clone, Copy, Debug, PartialEq, Eq, Structural)]
pub enum BringUpAction {
    /// Spawn the access-point supervisor, the stack pump and the lease service.
    SpawnServices,
    /// Sleep this many milliseconds, then check again.
    Sleep(u64),
    /// Print the network name and the gateway address, then check the configuration.
    Announce,
    /// Spawn this many HTTP workers.
    SpawnWorkers(usize),
    /// Check the state that the phase waits for.
    Check,
}

/// One decision of the bring-up sequence. The waits are bounded only by the
/// hardware: a link that never comes up keeps it waiting.
pub fn bring_up_step(phase: BringUpPhase, event: BringUpEvent) -> (r: (BringUpPhase, BringUpAction))
    ensures
        phase == BringUpPhase::Init && event == BringUpEvent::Built ==> r == (
            BringUpPhase::AwaitLink,
            BringUpAction::SpawnServices,
        ),
        phase == BringUpPhase::Init && event != BringUpEvent::Built ==> r == (
            BringUpPhase::Init,
            BringUpAction::Check,
        ),
        phase == BringUpPhase::AwaitLink && event == BringUpEvent::LinkUp(true) ==> r == (
            BringUpPhase::AwaitConfig,
            BringUpAction::Announce,
        ),
        phase == BringUpPhase::AwaitLink && event == BringUpEvent::LinkUp(false) ==> r == (
            BringUpPhase::AwaitLink,
            BringUpAction::Sleep(LINK_POLL_MS),
        ),
        phase == BringUpPhase::AwaitLink && !(event is LinkUp) ==> r == (
            BringUpPhase::AwaitLink,
            BringUpAction::Check,
        ),
        phase == BringUpPhase::AwaitConfig && event == BringUpEvent::ConfigUp(true) ==> r == (
            BringUpPhase::Running,
            BringUpAction::SpawnWorkers(WEB_TASK_POOL_SIZE),
        ),
        phase == BringUpPhase::AwaitConfig && event == BringUpEvent::ConfigUp(false) ==> r == (
            BringUpPhase::AwaitConfig,
            BringUpAction::Sleep(CONFIG_POLL_MS),
        ),
        phase == BringUpPhase::AwaitConfig && !(event is ConfigUp) ==> r == (
            BringUpPhase::AwaitConfig,
            BringUpAction::Check,
        ),
        phase == BringUpPhase::Running ==> r == (BringUpPhase::Running, BringUpAction::Sleep(IDLE_MS)),
{
    match (phase, event) {
        (BringUpPhase::Init, BringUpEvent::Built) => (BringUpPhase::AwaitLink, BringUpAction::SpawnServices),
        (BringUpPhase::Init, _) => (BringUpPhase::Init, BringUpAction::Check),
        (BringUpPhase::AwaitLink, BringUpEvent::LinkUp(true)) => (BringUpPhase::AwaitConfig, BringUpAction::Announce),
        (BringUpPhase::AwaitLink, BringUpEvent::LinkUp(false)) => (
            BringUpPhase::AwaitLink,
            BringUpAction::Sleep(LINK_POLL_MS),
        ),
        (BringUpPhase::AwaitLink, _) => (BringUpPhase::AwaitLink, BringUpAction::Check),
        (BringUpPhase::AwaitConfig, BringUpEvent::ConfigUp(true)) => (
            BringUpPhase::Running,
            BringUpAction::SpawnWorkers(WEB_TASK_POOL_SIZE),
        ),
        (BringUpPhase::AwaitConfig, BringUpEvent::ConfigUp(false)) => (
            BringUpPhase::AwaitConfig,
            BringUpAction::Sleep(CONFIG_POLL_MS),
        ),
        (BringUpPhase::AwaitConfig, _) => (BringUpPhase::AwaitConfig, BringUpAction::Check),
        (BringUpPhase::Running, _) => (BringUpPhase::Running, BringUpAction::Sleep(IDLE_MS)),
    }
}

} // verus!
