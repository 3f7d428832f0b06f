//! Supervision of the node's background run loop.
//!
//! A `SupervisedTask` is the orchestrator's handle to the concurrently
//! executing run loop.  Once created it is in exactly one of four
//! states — `Running`, `CompletedOk`, `CompletedErr`, `Cancelled` — and
//! its transitions are monotonic: the three terminal states are never
//! left, and no state is revisited.

use vstd::prelude::*;

verus! {

/// The state of the supervised run loop.
#[derive(Clone, Copy, Debug, PartialEq, Eq, Structural)]
pub enum TaskState {
    /// The run loop has been scheduled and has not yet terminated.
    Running,
    /// The run loop returned without error.
    CompletedOk,
    /// The run loop failed with an unrecoverable internal error.
    CompletedErr,
    /// The run loop was torn down on a cancellation request.
    Cancelled,
}

impl TaskState {
    /// Every state but `Running` is terminal.
    pub open spec fn is_terminal(self) -> bool {
        !(self is Running)
    }
}

/// The orchestrator's handle to the run loop.  Exclusively owned; at
/// most one exists per process lifetime.
#[derive(Debug)]
pub struct SupervisedTask {
    state: TaskState,
}

impl SupervisedTask {
    /// The current state of the run loop, as the supervisor knows it.
    pub closed spec fn state(self) -> TaskState {
        self.state
    }

    /// Records a successful launch: the run loop has been scheduled as
    /// an independently executing, cancellable unit of work.
    pub fn launch() -> (t: SupervisedTask)
        ensures
            t.state() is Running,
    {
        SupervisedTask { state: TaskState::Running }
    }

    /// Reads the current state.
    pub fn current_state(&self) -> (s: TaskState)
        ensures
            s == self.state(),
    {
        self.state
    }

    /// Records that the run loop returned without error.
    pub fn record_run_success(&mut self)
        requires
            old(self).state() is Running,
        ensures
            final(self).state() is CompletedOk,
    {
        self.state = TaskState::CompletedOk;
    }

    /// Records that the run loop failed with an unrecoverable error.
    pub fn record_run_failure(&mut self)
        requires
            old(self).state() is Running,
        ensures
            final(self).state() is CompletedErr,
    {
        self.state = TaskState::CompletedErr;
    }

    /// Requests cancellation, best-effort: a running task becomes
    /// `Cancelled`; a task that already terminated is left as it is.
    pub fn cancel(&mut self)
        ensures
            old(self).state() is Running ==> final(self).state() is Cancelled,
            old(self).state().is_terminal() ==> final(self).state() == old(self).state(),
    {
        if matches!(self.state, TaskState::Running) {
            self.state = TaskState::Cancelled;
        }
    }
}

} // verus!
