//! End-to-end scenarios for the orchestration core, driven exactly as
//! the host program drives it: one event per outcome of outside work.

use bllvm::config::{Endpoint, HostAddr, NodeConfig};
use bllvm::coordinator::CoordinatorState;
use bllvm::identity::NetworkProfile;
use bllvm::lifecycle::{Action, Phase};
use bllvm::orchestrator::{Event, Orchestrator};
use bllvm::outcome::{ConstructionError, ExitOutcome, RunLoopError, ShutdownSignal};
use bllvm::task::TaskState;

fn test_config(profile: NetworkProfile) -> NodeConfig {
    NodeConfig::new(
        profile,
        String::from("./data"),
        Endpoint { host: HostAddr::V4(0, 0, 0, 0), port: 8333 },
        Endpoint { host: HostAddr::V4(127, 0, 0, 1), port: 18332 },
    )
}

#[test]
fn clean_shutdown_scenario() {
    // Regtest, valid data dir, free addresses: construct succeeds,
    // launch succeeds, an interrupt arrives.
    let mut orch = Orchestrator::new(test_config(NetworkProfile::Regtest));
    assert_eq!(orch.current_phase(), Phase::Constructing);
    assert_eq!(orch.task_state(), None);

    let a1 = orch.on_event(Event::Constructed);
    assert_eq!(a1, Action::LaunchAndAwait);
    assert_eq!(orch.current_phase(), Phase::Supervising);
    assert_eq!(orch.task_state(), Some(TaskState::Running));
    assert_eq!(orch.coordinator_state(), Some(CoordinatorState::AwaitingSignal));
    assert!(!orch.cancellation_requested());

    let a2 = orch.on_event(Event::Signal(ShutdownSignal::Interrupt));
    assert_eq!(a2, Action::CancelAndExit);
    assert_eq!(orch.current_phase(), Phase::Finished);
    assert_eq!(orch.task_state(), Some(TaskState::Cancelled));
    assert_eq!(orch.coordinator_state(), Some(CoordinatorState::Done));
    assert!(orch.cancellation_requested());

    let out = orch.into_outcome();
    assert!(matches!(out, ExitOutcome::CleanShutdown));
    assert_eq!(out.exit_code(), 0);
}

#[test]
fn construction_failure_scenario() {
    // Mainnet, data dir unusable: construct fails, nothing is ever
    // launched, the coordinator never waits, exit status is non-zero.
    let mut orch = Orchestrator::new(test_config(NetworkProfile::Mainnet));
    let err = ConstructionError { message: String::from("data directory is not writable") };

    let a = orch.on_event(Event::ConstructFailed(err));
    assert_ne!(a, Action::LaunchAndAwait);
    assert_eq!(a, Action::Exit);
    assert_eq!(orch.current_phase(), Phase::Finished);
    assert_eq!(orch.task_state(), None);
    assert_eq!(orch.coordinator_state(), None);
    assert!(!orch.cancellation_requested());

    let out = orch.into_outcome();
    match &out {
        ExitOutcome::ConstructionFailed(e) => {
            assert_eq!(e.message, "data directory is not writable");
        }
        other => panic!("unexpected outcome: {:?}", other),
    }
    assert_ne!(out.exit_code(), 0);
}

#[test]
fn run_loop_failure_is_fatal() {
    let mut orch = Orchestrator::new(test_config(NetworkProfile::Testnet));
    orch.on_event(Event::Constructed);

    let err = RunLoopError { message: String::from("storage engine failed") };
    let a = orch.on_event(Event::RunFailed(err));
    assert_eq!(a, Action::Exit);
    assert_eq!(orch.current_phase(), Phase::Finished);
    assert_eq!(orch.task_state(), Some(TaskState::CompletedErr));

    let out = orch.into_outcome();
    match &out {
        ExitOutcome::RunLoopFailed(e) => assert_eq!(e.message, "storage engine failed"),
        other => panic!("unexpected outcome: {:?}", other),
    }
    assert_ne!(out.exit_code(), 0);
}

#[test]
fn signal_wait_failure_forces_shutdown() {
    let mut orch = Orchestrator::new(test_config(NetworkProfile::Regtest));
    orch.on_event(Event::Constructed);

    let a = orch.on_event(Event::Signal(ShutdownSignal::SignalWaitFailure));
    assert_eq!(a, Action::CancelAndExit);
    assert!(orch.cancellation_requested());
    assert_eq!(orch.task_state(), Some(TaskState::Cancelled));
    assert_eq!(orch.coordinator_state(), Some(CoordinatorState::Done));

    let out = orch.into_outcome();
    assert!(matches!(out, ExitOutcome::SignalWaitFailed));
    assert_ne!(out.exit_code(), 0);
}

#[test]
fn run_completed_then_interrupt_stays_completed() {
    // The run loop returns cleanly on its own; the orchestrator keeps
    // awaiting the signal, and the later cancellation request leaves
    // the already-terminated task untouched.
    let mut orch = Orchestrator::new(test_config(NetworkProfile::Regtest));
    orch.on_event(Event::Constructed);

    let a1 = orch.on_event(Event::RunCompleted);
    assert_eq!(a1, Action::ContinueAwaiting);
    assert_eq!(orch.current_phase(), Phase::Supervising);
    assert_eq!(orch.task_state(), Some(TaskState::CompletedOk));

    let a2 = orch.on_event(Event::Signal(ShutdownSignal::Interrupt));
    assert_eq!(a2, Action::CancelAndExit);
    assert_eq!(orch.task_state(), Some(TaskState::CompletedOk));

    let out = orch.into_outcome();
    assert!(matches!(out, ExitOutcome::CleanShutdown));
    assert_eq!(out.exit_code(), 0);
}

#[test]
fn config_is_carried_to_construction() {
    let orch = Orchestrator::new(test_config(NetworkProfile::Regtest));
    let cfg = orch.config();
    assert_eq!(cfg.data_dir, "./data");
    assert_eq!(cfg.listen_addr, Endpoint { host: HostAddr::V4(0, 0, 0, 0), port: 8333 });
    assert_eq!(cfg.control_addr, Endpoint { host: HostAddr::V4(127, 0, 0, 1), port: 18332 });
}
