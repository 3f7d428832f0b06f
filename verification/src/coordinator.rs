//! Shutdown coordination.
//!
//! The coordinator waits for an external shutdown event and, upon
//! receipt, requests cancellation of the supervised run loop and
//! reports the final outcome.  Its state machine is
//! `AwaitingSignal -> Cancelling -> Done`; `Done` is terminal, and a
//! cancellation request is made at most once per process lifetime.

use vstd::prelude::*;
use crate::outcome::{ExitOutcome, ShutdownSignal};
use crate::task::SupervisedTask;

verus! {

/// The coordinator's state.
#[derive(Clone, Copy, Debug, PartialEq, Eq, Structural)]
pub enum CoordinatorState {
    /// Blocked on the external shutdown event.  The wait is unbounded
    /// by design: the process runs until explicitly stopped.
    AwaitingSignal,
    /// A shutdown event arrived; cancellation is being requested.
    Cancelling,
    /// Terminal: shutdown handled, never re-entered.
    Done,
}

/// Waits for a shutdown event and drives cancellation of the run loop.
#[derive(Debug)]
pub struct Coordinator {
    state: CoordinatorState,
    cancel_requested: bool,
}

impl Coordinator {
    /// The coordinator's current state.
    pub closed spec fn state(self) -> CoordinatorState {
        self.state
    }

    /// Whether a cancellation request has been made.
    pub closed spec fn cancel_requested(self) -> bool {
        self.cancel_requested
    }

    /// A fresh coordinator, awaiting its one shutdown event.
    pub fn new() -> (c: Coordinator)
        ensures
            c.state() is AwaitingSignal,
            !c.cancel_requested(),
    {
        Coordinator { state: CoordinatorState::AwaitingSignal, cancel_requested: false }
    }

    /// Reads the current state.
    pub fn current_state(&self) -> (s: CoordinatorState)
        ensures
            s == self.state(),
    {
        self.state
    }

    /// Reads whether a cancellation request has been made.
    pub fn was_cancel_requested(&self) -> (b: bool)
        ensures
            b == self.cancel_requested(),
    {
        self.cancel_requested
    }

    /// Handles the one shutdown event: transitions through `Cancelling`
    /// to `Done`, requests cancellation of the run loop exactly once,
    /// and reports the outcome — clean on an interactive interrupt, a
    /// failure outcome when the signal-wait mechanism itself failed.
    pub fn on_signal(&mut self, signal: ShutdownSignal, task: &mut SupervisedTask) -> (r:
        ExitOutcome)
        requires
            old(self).state() is AwaitingSignal,
            !old(self).cancel_requested(),
        ensures
            final(self).state() is Done,
            final(self).cancel_requested(),
            old(task).state() is Running ==> final(task).state() is Cancelled,
            old(task).state().is_terminal() ==> final(task).state() == old(task).state(),
            signal is Interrupt ==> r is CleanShutdown,
            signal is SignalWaitFailure ==> r is SignalWaitFailed,
    {
        self.state = CoordinatorState::Cancelling;
        task.cancel();
        self.cancel_requested = true;
        self.state = CoordinatorState::Done;
        match signal {
            ShutdownSignal::Interrupt => ExitOutcome::CleanShutdown,
            ShutdownSignal::SignalWaitFailure => ExitOutcome::SignalWaitFailed,
        }
    }
}

} // verus!
