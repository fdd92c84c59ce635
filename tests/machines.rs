use firmware::bringup::{bring_up_step, BringUpAction, BringUpEvent, BringUpPhase};
use firmware::config::{gateway_addr, stack_seed, stack_socket_count, ServerTimeouts, WEB_TASK_POOL_SIZE};
use firmware::lease::{LeaseAction, LeaseEvent, LeaseService};
use firmware::supervisor::{ap_step, ApAction, ApEvent, ApPhase};
use firmware::worker::{conn_step, ConnAction, ConnEvent, ConnPhase, WorkerPool};

#[test]
fn access_point_is_started_and_restarted() {
    let (p, a) = ap_step(ApPhase::Stopped, ApEvent::Polled { started: false });
    assert_eq!((p, a), (ApPhase::Starting, ApAction::ConfigureAndStart));
    let (p, a) = ap_step(p, ApEvent::StartDone { ok: true });
    assert_eq!((p, a), (ApPhase::Started, ApAction::WaitForStop));
    let (p, a) = ap_step(p, ApEvent::ApStopped);
    assert_eq!((p, a), (ApPhase::Stopped, ApAction::Settle(5000)));
    let (p, a) = ap_step(p, ApEvent::SettleElapsed);
    assert_eq!((p, a), (ApPhase::Stopped, ApAction::Poll));
    let (p, a) = ap_step(p, ApEvent::Polled { started: false });
    assert_eq!((p, a), (ApPhase::Starting, ApAction::ConfigureAndStart));
}

#[test]
fn failed_start_is_fatal() {
    let (p, a) = ap_step(ApPhase::Starting, ApEvent::StartDone { ok: false });
    assert_eq!((p, a), (ApPhase::Faulted, ApAction::Halt));
    assert_eq!(ap_step(p, ApEvent::Polled { started: false }), (ApPhase::Faulted, ApAction::Halt));
}

#[test]
fn lease_service_survives_errors() {
    let mut s = LeaseService::new();
    for k in 1..4u64 {
        let a = s.step(LeaseEvent::RunEnded { failed: true });
        assert_eq!(a, LeaseAction::Pause { log_error: true, millis: 500 });
        assert_eq!(s.errors, k);
        assert_eq!(s.step(LeaseEvent::PauseElapsed), LeaseAction::Run);
    }
    let a = s.step(LeaseEvent::RunEnded { failed: false });
    assert_eq!(a, LeaseAction::Pause { log_error: false, millis: 500 });
    assert_eq!(s.errors, 3);
}

#[test]
fn bring_up_sequence() {
    let (p, a) = bring_up_step(BringUpPhase::Init, BringUpEvent::Built);
    assert_eq!(a, BringUpAction::SpawnServices);
    let (p, a) = bring_up_step(p, BringUpEvent::LinkUp(false));
    assert_eq!(a, BringUpAction::Sleep(500));
    let (p, a) = bring_up_step(p, BringUpEvent::LinkUp(true));
    assert_eq!(a, BringUpAction::Announce);
    let (p, a) = bring_up_step(p, BringUpEvent::ConfigUp(false));
    assert_eq!(a, BringUpAction::Sleep(100));
    let (p, a) = bring_up_step(p, BringUpEvent::ConfigUp(true));
    assert_eq!((p, a), (BringUpPhase::Running, BringUpAction::SpawnWorkers(WEB_TASK_POOL_SIZE)));
    assert_eq!(bring_up_step(p, BringUpEvent::Woke), (BringUpPhase::Running, BringUpAction::Sleep(1000)));
}

#[test]
fn network_settings() {
    assert_eq!(gateway_addr(), [192, 168, 2, 1]);
    assert_eq!(stack_socket_count(), 5);
}

#[test]
fn connection_lifecycle_with_keep_alive() {
    let cfg = ServerTimeouts::standard();
    let (p, a) = conn_step(cfg, ConnPhase::Accepting, ConnEvent::Accepted);
    assert_eq!(a, ConnAction::WaitRequest(5000));
    let (p, a) = conn_step(cfg, p, ConnEvent::RequestBegan);
    assert_eq!(a, ConnAction::ReadRest(1000));
    let (p, a) = conn_step(cfg, p, ConnEvent::RequestRead);
    assert_eq!(a, ConnAction::HandleAndWrite(1000));
    let (p, a) = conn_step(cfg, p, ConnEvent::ResponseWritten);
    assert_eq!((p, a), (ConnPhase::AwaitRequest { first: false }, ConnAction::WaitRequest(1000)));
}

#[test]
fn silent_client_is_dropped_alone() {
    let mut pool = WorkerPool::new(ServerTimeouts::standard(), 2);
    assert_eq!(pool.step(0, ConnEvent::Accepted), ConnAction::WaitRequest(5000));
    pool.step(1, ConnEvent::Accepted);
    pool.step(1, ConnEvent::RequestBegan);
    assert_eq!(pool.step(0, ConnEvent::TimedOut), ConnAction::CloseAndAccept);
    assert_eq!(pool.workers[0], ConnPhase::Accepting);
    assert_eq!(pool.workers[1], ConnPhase::Reading);
    assert_eq!(pool.step(1, ConnEvent::RequestRead), ConnAction::HandleAndWrite(1000));
}

#[test]
fn seed_joins_two_draws() {
    assert_eq!(stack_seed(1, 2), 0x1_0000_0002);
    assert_eq!(stack_seed(u32::MAX, u32::MAX), u64::MAX);
    assert_eq!(stack_seed(0, 0xdead_beef), 0xdead_beef);
}
