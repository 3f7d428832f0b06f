//! Error taxonomy and the terminal outcome of a process lifetime.
//!
//! Every failure visible to the orchestrator is fatal to the current
//! process lifetime: construction failures stop startup, run-loop
//! failures terminate the process, and a failure of the signal-wait
//! mechanism forces a shutdown.  None of them is swallowed: each is
//! carried, with its diagnostic message, to the process boundary.

use vstd::prelude::*;

verus! {

/// The node collaborator could not be instantiated (bad path, address
/// in use, invalid configuration).  Never retried.
#[derive(Clone, Debug)]
pub struct ConstructionError {
    pub message: String,
}

/// The node's background run loop failed after having started.
/// Never retried by the orchestrator.
#[derive(Clone, Debug)]
pub struct RunLoopError {
    pub message: String,
}

/// An external shutdown event: either an interactive interrupt, or a
/// failure of the signal-waiting mechanism itself.  Carries no payload
/// beyond its variant.
#[derive(Clone, Copy, Debug, PartialEq, Eq, Structural)]
pub enum ShutdownSignal {
    Interrupt,
    SignalWaitFailure,
}

/// The terminal outcome of the whole process lifetime.
#[derive(Clone, Debug)]
pub enum ExitOutcome {
    /// Clean, signal-driven shutdown.
    CleanShutdown,
    /// Startup stopped: the node could not be constructed.
    ConstructionFailed(ConstructionError),
    /// The run loop failed after launch.
    RunLoopFailed(RunLoopError),
    /// The signal-wait mechanism itself failed; shutdown was forced.
    SignalWaitFailed,
}

/// An outcome stripped of its diagnostic payload.
#[derive(Clone, Copy, Debug, PartialEq, Eq, Structural)]
pub enum OutcomeKind {
    Clean,
    Construction,
    RunLoop,
    SignalWait,
}

impl ExitOutcome {
    /// Which kind of outcome this is.
    pub open spec fn kind(self) -> OutcomeKind {
        match self {
            ExitOutcome::CleanShutdown => OutcomeKind::Clean,
            ExitOutcome::ConstructionFailed(_) => OutcomeKind::Construction,
            ExitOutcome::RunLoopFailed(_) => OutcomeKind::RunLoop,
            ExitOutcome::SignalWaitFailed => OutcomeKind::SignalWait,
        }
    }

    /// The process exit status an outcome maps to.
    pub open spec fn exit_code_of(self) -> int {
        if self is CleanShutdown {
            0
        } else {
            1
        }
    }

    /// Exit status for the process boundary: 0 exactly on a clean,
    /// signal-driven shutdown; non-zero on every failure outcome.
    pub fn exit_code(&self) -> (c: i32)
        ensures
            c == self.exit_code_of(),
            c == 0 <==> *self is CleanShutdown,
    {
        match self {
            ExitOutcome::CleanShutdown => 0,
            _ => 1,
        }
    }
}

} // verus!
