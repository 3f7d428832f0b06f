//! The abstract lifecycle of one process: a state machine over the
//! phase of the orchestrator, the state of the supervised run loop,
//! the state of the shutdown coordinator, and the recorded outcome.
//!
//! `step` is the single transition function; the orchestrator's
//! executable event handler is proved to follow it exactly.  The laws
//! at the end of this module state the guarantees of the design: a
//! failed construction launches nothing, a launched run loop stays
//! running until something ends it, an interrupt cancels it cleanly,
//! and every failure yields a non-zero exit status.

use vstd::prelude::*;
use crate::coordinator::CoordinatorState;
use crate::outcome::OutcomeKind;
use crate::task::TaskState;

verus! {

/// The phase of the orchestrating flow.
#[derive(Clone, Copy, Debug, PartialEq, Eq, Structural)]
pub enum Phase {
    /// Before the node collaborator has been constructed.
    Constructing,
    /// The run loop is launched; the coordinator awaits the signal.
    Supervising,
    /// Terminal: an outcome has been recorded.
    Finished,
}

/// What happened, stripped of diagnostic payload.
#[derive(Clone, Copy, Debug, PartialEq, Eq, Structural)]
pub enum EventKind {
    /// The node collaborator was constructed.
    Constructed,
    /// The node collaborator could not be constructed.
    ConstructFailed,
    /// The run loop returned without error.
    RunCompleted,
    /// The run loop failed with an unrecoverable error.
    RunFailed,
    /// An interactive interrupt was received.
    Interrupt,
    /// The signal-wait mechanism itself failed.
    SignalWaitFailure,
}

/// What the host program must do next.
#[derive(Clone, Copy, Debug, PartialEq, Eq, Structural)]
pub enum Action {
    /// Schedule the run loop, then begin awaiting the shutdown signal.
    LaunchAndAwait,
    /// Keep awaiting the shutdown signal.
    ContinueAwaiting,
    /// Request cancellation of the run loop, then exit.
    CancelAndExit,
    /// Exit without a cancellation request.
    Exit,
}

/// The abstract state of one process lifetime.
#[derive(Clone, Copy, Debug, PartialEq, Eq, Structural)]
pub struct Lifecycle {
    pub phase: Phase,
    pub task: Option<TaskState>,
    pub coordinator: Option<CoordinatorState>,
    pub cancel_requested: bool,
    pub outcome: Option<OutcomeKind>,
}

/// The state at process start: nothing constructed, nothing launched,
/// no coordinator waiting, no outcome.
pub open spec fn init() -> Lifecycle {
    Lifecycle {
        phase: Phase::Constructing,
        task: None,
        coordinator: None,
        cancel_requested: false,
        outcome: None,
    }
}

/// Well-formedness of a lifecycle state.
pub open spec fn wf(l: Lifecycle) -> bool {
    match l.phase {
        Phase::Constructing => {
            &&& l.task is None
            &&& l.coordinator is None
            &&& l.outcome is None
            &&& !l.cancel_requested
        },
        Phase::Supervising => {
            &&& l.task is Some
            &&& l.coordinator == Some(CoordinatorState::AwaitingSignal)
            &&& l.outcome is None
            &&& !l.cancel_requested
        },
        Phase::Finished => l.outcome is Some,
    }
}

/// Which events can occur in which state.  Construction reports come
/// only while constructing; the run loop can only terminate while it
/// is running; signals are observed only while the coordinator waits.
pub open spec fn applies(l: Lifecycle, k: EventKind) -> bool {
    match k {
        EventKind::Constructed => l.phase is Constructing,
        EventKind::ConstructFailed => l.phase is Constructing,
        EventKind::RunCompleted => l.phase is Supervising && l.task == Some(TaskState::Running),
        EventKind::RunFailed => l.phase is Supervising && l.task == Some(TaskState::Running),
        EventKind::Interrupt => l.phase is Supervising,
        EventKind::SignalWaitFailure => l.phase is Supervising,
    }
}

/// Best-effort cancellation of the run loop: a running task is
/// cancelled, a task that already terminated is left as it is.
pub open spec fn cancelled_task(t: Option<TaskState>) -> Option<TaskState> {
    if t == Some(TaskState::Running) {
        Some(TaskState::Cancelled)
    } else {
        t
    }
}

/// The transition function.  An event that does not apply leaves the
/// state unchanged.
pub open spec fn step(l: Lifecycle, k: EventKind) -> Lifecycle {
    if !applies(l, k) {
        l
    } else {
        match k {
            EventKind::Constructed => Lifecycle {
                phase: Phase::Supervising,
                task: Some(TaskState::Running),
                coordinator: Some(CoordinatorState::AwaitingSignal),
                cancel_requested: false,
                outcome: None,
            },
            EventKind::ConstructFailed => Lifecycle {
                phase: Phase::Finished,
                outcome: Some(OutcomeKind::Construction),
                ..l
            },
            EventKind::RunCompleted => Lifecycle { task: Some(TaskState::CompletedOk), ..l },
            EventKind::RunFailed => Lifecycle {
                phase: Phase::Finished,
                task: Some(TaskState::CompletedErr),
                outcome: Some(OutcomeKind::RunLoop),
                ..l
            },
            EventKind::Interrupt => Lifecycle {
                phase: Phase::Finished,
                task: cancelled_task(l.task),
                coordinator: Some(CoordinatorState::Done),
                cancel_requested: true,
                outcome: Some(OutcomeKind::Clean),
            },
            EventKind::SignalWaitFailure => Lifecycle {
                phase: Phase::Finished,
                task: cancelled_task(l.task),
                coordinator: Some(CoordinatorState::Done),
                cancel_requested: true,
                outcome: Some(OutcomeKind::SignalWait),
            },
        }
    }
}

/// What the host program must do for an event that applies.
pub open spec fn action_of(l: Lifecycle, k: EventKind) -> Action {
    match k {
        EventKind::Constructed => Action::LaunchAndAwait,
        EventKind::ConstructFailed => Action::Exit,
        EventKind::RunCompleted => Action::ContinueAwaiting,
        EventKind::RunFailed => Action::Exit,
        EventKind::Interrupt => Action::CancelAndExit,
        EventKind::SignalWaitFailure => Action::CancelAndExit,
    }
}

/// Folding `step` over a sequence of events.
pub open spec fn run_steps(l: Lifecycle, ks: Seq<EventKind>) -> Lifecycle
    decreases ks.len(),
{
    if ks.len() == 0 {
        l
    } else {
        run_steps(step(l, ks[0]), ks.subrange(1, ks.len() as int))
    }
}

/// Law: every transition preserves well-formedness.
pub proof fn lemma_step_preserves_wf(l: Lifecycle, k: EventKind)
    requires
        wf(l),
    ensures
        wf(step(l, k)),
{
}

/// Law: if construction fails, nothing is ever launched and the
/// coordinator never comes to wait for a signal — the process goes
/// straight to a failure outcome.
pub proof fn lemma_construct_failure_stops_startup(l: Lifecycle)
    requires
        wf(l),
        l.phase is Constructing,
    ensures
        action_of(l, EventKind::ConstructFailed) != Action::LaunchAndAwait,
        step(l, EventKind::ConstructFailed).task is None,
        step(l, EventKind::ConstructFailed).coordinator is None,
        step(l, EventKind::ConstructFailed).phase is Finished,
        step(l, EventKind::ConstructFailed).outcome == Some(OutcomeKind::Construction),
{
}

/// Law: after a successful launch the task stays `Running` through any
/// sequence of events that contains no interrupt, no run-loop
/// termination, and no signal-wait failure.
pub proof fn lemma_running_until_stopped(l: Lifecycle, ks: Seq<EventKind>)
    requires
        l.phase is Supervising,
        l.task == Some(TaskState::Running),
        forall|i: int|
            0 <= i < ks.len() ==> !(ks[i] is Interrupt || ks[i] is RunFailed
                || ks[i] is RunCompleted || ks[i] is SignalWaitFailure),
    ensures
        run_steps(l, ks).phase is Supervising,
        run_steps(l, ks).task == Some(TaskState::Running),
    decreases ks.len(),
{
    if ks.len() > 0 {
        let rest = ks.subrange(1, ks.len() as int);
        assert(forall|i: int|
            0 <= i < rest.len() ==> !(rest[i] is Interrupt || rest[i] is RunFailed
                || rest[i] is RunCompleted || rest[i] is SignalWaitFailure)) by {
            assert(forall|i: int| 0 <= i < rest.len() ==> rest[i] == ks[i + 1]);
        }
        lemma_running_until_stopped(step(l, ks[0]), rest);
    }
}

/// Law: an interrupt received while the run loop is running cancels
/// it, drives the coordinator to `Done`, and records the one clean
/// outcome — exit status success.
pub proof fn lemma_interrupt_cancels_cleanly(l: Lifecycle)
    requires
        wf(l),
        l.phase is Supervising,
        l.task == Some(TaskState::Running),
    ensures
        step(l, EventKind::Interrupt).task == Some(TaskState::Cancelled),
        step(l, EventKind::Interrupt).coordinator == Some(CoordinatorState::Done),
        step(l, EventKind::Interrupt).cancel_requested,
        step(l, EventKind::Interrupt).outcome == Some(OutcomeKind::Clean),
{
}

/// Law: a run-loop failure while running is fatal — the task is marked
/// `CompletedErr` and the recorded outcome is a failure, whether or
/// not any signal was ever received.
pub proof fn lemma_run_loop_failure_is_fatal(l: Lifecycle)
    requires
        wf(l),
        l.phase is Supervising,
        l.task == Some(TaskState::Running),
    ensures
        step(l, EventKind::RunFailed).task == Some(TaskState::CompletedErr),
        step(l, EventKind::RunFailed).phase is Finished,
        step(l, EventKind::RunFailed).outcome == Some(OutcomeKind::RunLoop),
        step(l, EventKind::RunFailed).outcome != Some(OutcomeKind::Clean),
{
}

/// Law: a failure of the signal-wait mechanism triggers a cancellation
/// request and a failure outcome even though no interrupt occurred.
pub proof fn lemma_signal_wait_failure_forces_shutdown(l: Lifecycle)
    requires
        wf(l),
        l.phase is Supervising,
    ensures
        step(l, EventKind::SignalWaitFailure).cancel_requested,
        step(l, EventKind::SignalWaitFailure).phase is Finished,
        step(l, EventKind::SignalWaitFailure).outcome == Some(OutcomeKind::SignalWait),
        step(l, EventKind::SignalWaitFailure).outcome != Some(OutcomeKind::Clean),
        l.task == Some(TaskState::Running) ==> step(l, EventKind::SignalWaitFailure).task
            == Some(TaskState::Cancelled),
{
}

/// Law: the state of the supervised task is monotonic — a task never
/// disappears, a terminal state is never left, and no state is ever
/// revisited.
pub proof fn lemma_task_state_monotonic(l: Lifecycle, k: EventKind)
    requires
        wf(l),
    ensures
        l.task matches Some(s) ==> (step(l, k).task matches Some(s2) && (s2 == s
            || s is Running)),
{
}

} // verus!
