//! One proving run as a state machine, and the step that ends a run.
//!
//! A run moves `Idle → Resolved → Decoded → EnvironmentBuilt → Proving →
//! Completed`, or from any of the first five states to `Failed`. The caller
//! does the outside work of each stage and reports what happened as an
//! event; the machine says which state follows.

use vstd::prelude::*;
use crate::error::{PipelineError, Stage};
use crate::journal::{extract, spec_extract, PredictionOutput, Receipt};
use crate::registry::OutputKind;

verus! {

/// The state of one proving run.
#[derive(Clone, Copy, Debug, PartialEq, Eq, Structural)]
pub enum PipelineState {
    Idle,
    Resolved,
    Decoded,
    EnvironmentBuilt,
    Proving,
    Completed,
    Failed(Stage),
}

/// What happened in the stage that a run was in.
#[derive(Clone, Copy, Debug, PartialEq, Eq, Structural)]
pub enum Event {
    /// The registry holds the model type.
    Resolved,
    /// The model and the data set were decoded.
    Decoded,
    /// The environment was built.
    EnvironmentBuilt,
    /// The environment and the guest binary were handed to the prover.
    ProverStarted,
    /// The prover returned a receipt and its journal was decoded.
    Extracted,
    /// The stage failed.
    Failed(PipelineError),
}

impl PipelineState {
    /// A run in a terminal state has ended: with a prediction, or with an
    /// error.
    pub open spec fn is_terminal(self) -> bool {
        self is Completed || self is Failed
    }

    /// The state that follows an event, or `None` where the event cannot
    /// happen in this state.
    pub open spec fn spec_step(self, event: Event) -> Option<PipelineState> {
        match (self, event) {
            (PipelineState::Idle, Event::Resolved) => Some(PipelineState::Resolved),
            (PipelineState::Idle, Event::Failed(PipelineError::UnknownModelType)) => Some(
                PipelineState::Failed(Stage::Resolve),
            ),
            (PipelineState::Resolved, Event::Decoded) => Some(PipelineState::Decoded),
            (PipelineState::Resolved, Event::Failed(PipelineError::ModelDecodeFailure)) => Some(
                PipelineState::Failed(Stage::Decode),
            ),
            (PipelineState::Resolved, Event::Failed(PipelineError::DataDecodeFailure)) => Some(
                PipelineState::Failed(Stage::Decode),
            ),
            (PipelineState::Decoded, Event::EnvironmentBuilt) => Some(
                PipelineState::EnvironmentBuilt,
            ),
            (PipelineState::Decoded, Event::Failed(PipelineError::SerializationFailure)) => Some(
                PipelineState::Failed(Stage::Build),
            ),
            (PipelineState::EnvironmentBuilt, Event::ProverStarted) => Some(PipelineState::Proving),
            (PipelineState::Proving, Event::Extracted) => Some(PipelineState::Completed),
            (PipelineState::Proving, Event::Failed(PipelineError::ProverFailure)) => Some(
                PipelineState::Failed(Stage::Prove),
            ),
            (PipelineState::Proving, Event::Failed(PipelineError::JournalDecodeFailure)) => Some(
                PipelineState::Failed(Stage::Extract),
            ),
            _ => None,
        }
    }

    /// The state after a sequence of events, or `None` where one of them
    /// cannot happen in the state that the run is in by then.
    pub open spec fn spec_run(self, events: Seq<Event>) -> Option<PipelineState>
        decreases events.len(),
    {
        if events.len() == 0 {
            Some(self)
        } else {
            match self.spec_step(events[0]) {
                Some(next) => next.spec_run(events.drop_first()),
                None => None,
            }
        }
    }

    /// The state in which a stage runs. The prover's answer and the
    /// journal are both awaited in `Proving`.
    pub open spec fn running(stage: Stage) -> PipelineState {
        match stage {
            Stage::Resolve => PipelineState::Idle,
            Stage::Decode => PipelineState::Resolved,
            Stage::Build => PipelineState::Decoded,
            Stage::Prove => PipelineState::Proving,
            Stage::Extract => PipelineState::Proving,
        }
    }

    /// Whether the run has ended.
    pub fn terminal(self) -> (r: bool)
        ensures
            r == self.is_terminal(),
    {
        match self {
            PipelineState::Completed => true,
            PipelineState::Failed(_) => true,
            _ => false,
        }
    }

    /// The state that follows an event, or `None` where the event cannot
    /// happen in this state. The state itself is not changed.
    pub fn step(self, event: Event) -> (r: Option<PipelineState>)
        ensures
            r == self.spec_step(event),
    {
        match self {
            PipelineState::Idle => match event {
                Event::Resolved => Some(PipelineState::Resolved),
                Event::Failed(PipelineError::UnknownModelType) => Some(
                    PipelineState::Failed(Stage::Resolve),
                ),
                _ => None,
            },
            PipelineState::Resolved => match event {
                Event::Decoded => Some(PipelineState::Decoded),
                Event::Failed(PipelineError::ModelDecodeFailure) => Some(
                    PipelineState::Failed(Stage::Decode),
                ),
                Event::Failed(PipelineError::DataDecodeFailure) => Some(
                    PipelineState::Failed(Stage::Decode),
                ),
                _ => None,
            },
            PipelineState::Decoded => match event {
                Event::EnvironmentBuilt => Some(PipelineState::EnvironmentBuilt),
                Event::Failed(PipelineError::SerializationFailure) => Some(
                    PipelineState::Failed(Stage::Build),
                ),
                _ => None,
            },
            PipelineState::EnvironmentBuilt => match event {
                Event::ProverStarted => Some(PipelineState::Proving),
                _ => None,
            },
            PipelineState::Proving => match event {
                Event::Extracted => Some(PipelineState::Completed),
                Event::Failed(PipelineError::ProverFailure) => Some(
                    PipelineState::Failed(Stage::Prove),
                ),
                Event::Failed(PipelineError::JournalDecodeFailure) => Some(
                    PipelineState::Failed(Stage::Extract),
                ),
                _ => None,
            },
            PipelineState::Completed => None,
            PipelineState::Failed(_) => None,
        }
    }
}

/// The prediction of a run and the time that proving took, in nanoseconds.
#[derive(Debug)]
pub struct Prediction {
    pub output: PredictionOutput,
    pub proving_nanos: u128,
}

/// Ends a run: turns what the prover returned into the prediction.
///
/// `proved` is the receipt, or `None` where the prover failed; `elapsed` is
/// the time that the caller measured around the prover call. Without a
/// receipt the run fails with `ProverFailure`; with a journal that does not
/// decode, with `JournalDecodeFailure`. Otherwise the result holds the
/// journal's values, read as `kind` says, and `elapsed` as it was given.
pub fn conclude(proved: Option<Receipt>, elapsed: u128, kind: OutputKind) -> (r: Result<
    Prediction,
    PipelineError,
>)
    ensures
        match proved {
            None => r is Err && r->Err_0 == PipelineError::ProverFailure,
            Some(receipt) => match spec_extract(receipt.journal@, kind) {
                Ok(v) => r is Ok && r->Ok_0.output@ == v && r->Ok_0.proving_nanos == elapsed,
                Err(e) => r is Err && r->Err_0 == e,
            },
        },
{
    match proved {
        None => Err(PipelineError::ProverFailure),
        Some(receipt) => match extract(&receipt, kind) {
            Ok(output) => Ok(Prediction { output, proving_nanos: elapsed }),
            Err(e) => Err(e),
        },
    }
}

/// The event that reports how a run in `Proving` ended.
pub fn prover_event(outcome: &Result<Prediction, PipelineError>) -> (r: Event)
    ensures
        r == match outcome {
            Ok(_) => Event::Extracted,
            Err(e) => Event::Failed(*e),
        },
{
    match outcome {
        Ok(_) => Event::Extracted,
        Err(e) => Event::Failed(*e),
    }
}

/// A run that has ended takes no further event: nothing is retried.
pub proof fn lemma_terminal_is_final(state: PipelineState, event: Event)
    requires
        state.is_terminal(),
    ensures
        state.spec_step(event) is None,
{
}

/// A failure moves the run to `Failed` with the stage at which the error
/// arises; every other event moves it to a state that has not ended, but
/// for the last one, which completes it.
pub proof fn lemma_step_outcome(state: PipelineState, event: Event)
    requires
        state.spec_step(event) is Some,
    ensures
        !state.is_terminal(),
        match event {
            Event::Failed(e) => state.spec_step(event) == Some(PipelineState::Failed(e.spec_stage())),
            Event::Extracted => state.spec_step(event) == Some(PipelineState::Completed),
            _ => !state.spec_step(event)->Some_0.is_terminal(),
        },
{
}

/// An error is taken in exactly one state: the one in which the stage runs
/// at which the error arises.
pub proof fn lemma_failure_taken_at_its_stage(state: PipelineState, error: PipelineError)
    ensures
        state.spec_step(Event::Failed(error)) is Some <==> state == PipelineState::running(
            error.spec_stage(),
        ),
{
}

/// The five events of a run in which every stage succeeds.
pub open spec fn successful_run() -> Seq<Event> {
    seq![
        Event::Resolved,
        Event::Decoded,
        Event::EnvironmentBuilt,
        Event::ProverStarted,
        Event::Extracted,
    ]
}

/// A run from `Idle` is completed by exactly one sequence of events: every
/// stage succeeds, once and in order. No failure is followed by a
/// prediction.
pub proof fn lemma_completed_only_by_success(events: Seq<Event>)
    ensures
        PipelineState::Idle.spec_run(events) == Some(PipelineState::Completed) <==> events
            == successful_run(),
{
    reveal_with_fuel(PipelineState::spec_run, 8);
    if events == successful_run() {
        assert(events.drop_first().drop_first().drop_first().drop_first().drop_first().len() == 0);
    }
    if PipelineState::Idle.spec_run(events) == Some(PipelineState::Completed) {
        let e1 = events.drop_first();
        let e2 = e1.drop_first();
        let e3 = e2.drop_first();
        let e4 = e3.drop_first();
        let e5 = e4.drop_first();
        assert(e5.len() == 0);
        assert(events =~= successful_run());
    }
}

} // verus!
