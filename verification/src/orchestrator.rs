//! The orchestrating flow of one process lifetime.
//!
//! The host program performs the outside work — constructing the node
//! collaborator, scheduling its run loop, waiting on the signal,
//! aborting the run loop, exiting — and reports each outcome here as
//! an `Event`.  The orchestrator makes every decision: it is proved to
//! follow the abstract `step` transition function exactly, and each
//! returned `Action` tells the host program what to do next.

use vstd::prelude::*;
use crate::config::NodeConfig;
use crate::coordinator::{Coordinator, CoordinatorState};
use crate::lifecycle::{action_of, applies, init, step, wf, Action, EventKind, Lifecycle, Phase};
use crate::outcome::{ConstructionError, ExitOutcome, RunLoopError, ShutdownSignal};
use crate::task::{SupervisedTask, TaskState};

verus! {

/// An outcome of outside work, reported by the host program.
#[derive(Debug)]
pub enum Event {
    /// The node collaborator was constructed.
    Constructed,
    /// The node collaborator could not be constructed.
    ConstructFailed(ConstructionError),
    /// The run loop returned without error.
    RunCompleted,
    /// The run loop failed with an unrecoverable error.
    RunFailed(RunLoopError),
    /// A shutdown event was observed (or the wait for one failed).
    Signal(ShutdownSignal),
}

impl Event {
    /// The event stripped of its diagnostic payload.
    pub open spec fn kind(self) -> EventKind {
        match self {
            Event::Constructed => EventKind::Constructed,
            Event::ConstructFailed(_) => EventKind::ConstructFailed,
            Event::RunCompleted => EventKind::RunCompleted,
            Event::RunFailed(_) => EventKind::RunFailed,
            Event::Signal(ShutdownSignal::Interrupt) => EventKind::Interrupt,
            Event::Signal(ShutdownSignal::SignalWaitFailure) => EventKind::SignalWaitFailure,
        }
    }
}

/// Drives Resolver -> Supervisor -> Coordinator for one process
/// lifetime.
#[derive(Debug)]
pub struct Orchestrator {
    config: NodeConfig,
    phase: Phase,
    task: Option<SupervisedTask>,
    coordinator: Option<Coordinator>,
    outcome: Option<ExitOutcome>,
}

impl Orchestrator {
    /// The abstract lifecycle state this orchestrator is in.
    pub closed spec fn lifecycle(self) -> Lifecycle {
        Lifecycle {
            phase: self.phase,
            task: match self.task {
                Some(t) => Some(t.state()),
                None => None,
            },
            coordinator: match self.coordinator {
                Some(c) => Some(c.state()),
                None => None,
            },
            cancel_requested: match self.coordinator {
                Some(c) => c.cancel_requested(),
                None => false,
            },
            outcome: match self.outcome {
                Some(o) => Some(o.kind()),
                None => None,
            },
        }
    }

    /// The configuration the node is to be constructed from.
    pub closed spec fn config_spec(self) -> NodeConfig {
        self.config
    }

    /// The recorded terminal outcome, with its diagnostic payload.
    pub closed spec fn outcome_spec(self) -> Option<ExitOutcome> {
        self.outcome
    }

    /// Well-formedness: the abstract state is well-formed, and the
    /// recorded outcome matches what the lifecycle says.
    pub open spec fn wf(self) -> bool {
        wf(self.lifecycle())
    }

    /// A fresh orchestrator, about to construct a node from `config`.
    pub fn new(config: NodeConfig) -> (o: Orchestrator)
        ensures
            o.wf(),
            o.lifecycle() == init(),
            o.config_spec() == config,
    {
        Orchestrator { config, phase: Phase::Constructing, task: None, coordinator: None, outcome: None }
    }

    /// Borrows the configuration for the construction call.
    pub fn config(&self) -> (c: &NodeConfig)
        ensures
            *c == self.config_spec(),
    {
        &self.config
    }

    /// Handles one reported event: updates the lifecycle exactly as
    /// the abstract `step` function says, records failure diagnostics
    /// unchanged, and returns what the host program must do next.
    pub fn on_event(&mut self, e: Event) -> (a: Action)
        requires
            old(self).wf(),
            applies(old(self).lifecycle(), e.kind()),
        ensures
            final(self).wf(),
            final(self).lifecycle() == step(old(self).lifecycle(), e.kind()),
            a == action_of(old(self).lifecycle(), e.kind()),
            final(self).config_spec() == old(self).config_spec(),
            (e matches Event::ConstructFailed(err) ==> final(self).outcome_spec()
                == Some(ExitOutcome::ConstructionFailed(err))),
            (e matches Event::RunFailed(err) ==> final(self).outcome_spec()
                == Some(ExitOutcome::RunLoopFailed(err))),
            e == Event::Signal(ShutdownSignal::Interrupt) ==> final(self).outcome_spec()
                == Some(ExitOutcome::CleanShutdown),
            e == Event::Signal(ShutdownSignal::SignalWaitFailure) ==> final(self).outcome_spec()
                == Some(ExitOutcome::SignalWaitFailed),
    {
        match e {
            Event::Constructed => {
                self.task = Some(SupervisedTask::launch());
                self.coordinator = Some(Coordinator::new());
                self.phase = Phase::Supervising;
                Action::LaunchAndAwait
            },
            Event::ConstructFailed(err) => {
                self.outcome = Some(ExitOutcome::ConstructionFailed(err));
                self.phase = Phase::Finished;
                Action::Exit
            },
            Event::RunCompleted => {
                match &mut self.task {
                    Some(t) => t.record_run_success(),
                    None => (),
                }
                Action::ContinueAwaiting
            },
            Event::RunFailed(err) => {
                match &mut self.task {
                    Some(t) => t.record_run_failure(),
                    None => (),
                }
                self.outcome = Some(ExitOutcome::RunLoopFailed(err));
                self.phase = Phase::Finished;
                Action::Exit
            },
            Event::Signal(signal) => {
                let r = match (&mut self.coordinator, &mut self.task) {
                    (Some(c), Some(t)) => c.on_signal(signal, t),
                    _ => ExitOutcome::SignalWaitFailed,
                };
                self.outcome = Some(r);
                self.phase = Phase::Finished;
                Action::CancelAndExit
            },
        }
    }

    /// Reads the current phase.
    pub fn current_phase(&self) -> (p: Phase)
        ensures
            p == self.lifecycle().phase,
    {
        self.phase
    }

    /// Reads the state of the supervised task, if one was launched.
    pub fn task_state(&self) -> (s: Option<TaskState>)
        ensures
            s == self.lifecycle().task,
    {
        match &self.task {
            Some(t) => Some(t.current_state()),
            None => None,
        }
    }

    /// Reads the coordinator's state, if the coordinator was started.
    pub fn coordinator_state(&self) -> (s: Option<CoordinatorState>)
        ensures
            s == self.lifecycle().coordinator,
    {
        match &self.coordinator {
            Some(c) => Some(c.current_state()),
            None => None,
        }
    }

    /// Whether a cancellation request has been made.
    pub fn cancellation_requested(&self) -> (b: bool)
        ensures
            b == self.lifecycle().cancel_requested,
    {
        match &self.coordinator {
            Some(c) => c.was_cancel_requested(),
            None => false,
        }
    }

    /// The terminal outcome, once the lifecycle is finished.  The host
    /// program maps it to its exit status via `ExitOutcome::exit_code`.
    pub fn into_outcome(self) -> (r: ExitOutcome)
        requires
            self.lifecycle().phase is Finished,
            self.wf(),
        ensures
            Some(r) == self.outcome_spec(),
    {
        match self.outcome {
            Some(o) => o,
            None => ExitOutcome::SignalWaitFailed,
        }
    }
}

} // verus!
