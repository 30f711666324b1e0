//! The run as a whole: which request is due, and what its answer leads to.
//!
//! The library sends nothing. A caller asks the stage for the action that is
//! due, performs it, and hands the answer to `configure`, until the action is
//! to finish or `configure` reports the failure that ends the run.

use vstd::prelude::*;
use crate::configurator::{
    listing_for, reconfiguration, update_for, validation, Invalid, Phase, ServerConfigurator,
    StageView, Unvalidated, UpdateRequest, UpdateRequestView, Valid, ValidationResult,
};
use crate::failure::ReconcileError;
use crate::lookup::{ListRequest, ListRequestView, Observation, ObservationView};
use crate::record::RecordContent;

verus! {

/// A configurator in one of its three states.
#[derive(Debug)]
pub enum Stage {
    Unvalidated(ServerConfigurator<Unvalidated>),
    Invalid(ServerConfigurator<Invalid>),
    Valid(ServerConfigurator<Valid>),
}

impl View for Stage {
    type V = StageView;

    open spec fn view(&self) -> StageView {
        match *self {
            Stage::Unvalidated(configurator) => StageView {
                phase: Phase::Unvalidated,
                configurator: configurator@,
            },
            Stage::Invalid(configurator) => StageView {
                phase: Phase::Invalid,
                configurator: configurator@,
            },
            Stage::Valid(configurator) => StageView {
                phase: Phase::Valid,
                configurator: configurator@,
            },
        }
    }
}

/// What the caller has to do next.
#[derive(Debug)]
pub enum Action {
    /// Read the public address, then list the records of the zone. Where the
    /// first read gives no address, the listing may be left out.
    Observe(ListRequest),
    /// Send the write to the provider.
    Update(UpdateRequest),
    /// Nothing: the record is right.
    Finish,
}

/// An action as contracts see it.
pub enum ActionView {
    Observe(ListRequestView),
    Update(UpdateRequestView),
    Finish,
}

impl View for Action {
    type V = ActionView;

    open spec fn view(&self) -> ActionView {
        match *self {
            Action::Observe(request) => ActionView::Observe(request@),
            Action::Update(request) => ActionView::Update(request@),
            Action::Finish => ActionView::Finish,
        }
    }
}

/// What came back from the outside.
#[derive(Debug)]
pub enum Event {
    /// The answers to the two reads.
    Observed(Observation),
    /// The content of the record that the provider echoed after the write, or
    /// `None` where the request failed.
    Updated(Option<RecordContent>),
}

/// An event as contracts see it.
pub enum EventView {
    Observed(ObservationView),
    Updated(Option<RecordContent>),
}

impl View for Event {
    type V = EventView;

    open spec fn view(&self) -> EventView {
        match *self {
            Event::Observed(observation) => EventView::Observed(observation@),
            Event::Updated(echo) => EventView::Updated(echo),
        }
    }
}

/// The action that is due in a stage: the reads before a validation, the write
/// after an invalid one, nothing after a valid one.
pub open spec fn pending(stage: StageView) -> ActionView {
    match stage.phase {
        Phase::Unvalidated => ActionView::Observe(listing_for(stage.configurator)),
        Phase::Invalid => ActionView::Update(update_for(stage.configurator)),
        Phase::Valid => ActionView::Finish,
    }
}

/// What a run makes of a validation: the record is written once, so a
/// validation that is still invalid after the write is a failure to converge.
pub open spec fn capped_validation(found: Result<StageView, ReconcileError>) -> Result<
    StageView,
    ReconcileError,
> {
    match found {
        Ok(stage) => if stage.phase is Invalid && stage.configurator.reconfigured {
            Err(ReconcileError::Convergence)
        } else {
            Ok(stage)
        },
        Err(error) => Err(error),
    }
}

/// The stage that an event leads to, or the failure that ends the run. The
/// answer to the reads is validated; the answer to the write leads back to a
/// validation. An event that does not answer the action that is due changes
/// nothing.
pub open spec fn step(stage: StageView, event: EventView) -> Result<StageView, ReconcileError> {
    match (stage.phase, event) {
        (Phase::Unvalidated, EventView::Observed(observation)) => capped_validation(
            validation(stage.configurator, observation),
        ),
        (Phase::Invalid, EventView::Updated(echo)) => match reconfiguration(
            stage.configurator,
            echo,
        ) {
            Ok(configurator) => Ok(StageView { phase: Phase::Unvalidated, configurator }),
            Err(error) => Err(error),
        },
        _ => Ok(stage),
    }
}

/// The stage that a run of events leads to, taken one after the other, or the
/// first failure on the way.
pub open spec fn outcome(stage: StageView, events: Seq<EventView>) -> Result<
    StageView,
    ReconcileError,
>
    decreases events.len(),
{
    if events.len() == 0 {
        Ok(stage)
    } else {
        match step(stage, events.first()) {
            Ok(next) => outcome(next, events.drop_first()),
            Err(error) => Err(error),
        }
    }
}

impl Stage {
    /// The stage that a run starts in.
    pub fn start(server_config: ServerConfigurator<Unvalidated>) -> (stage: Stage)
        ensures
            stage@ == (StageView { phase: Phase::Unvalidated, configurator: server_config@ }),
            stage@.capped(),
    {
        Stage::Unvalidated(server_config)
    }

    /// The action that is due.
    pub fn action(&self) -> (action: Action)
        ensures
            action@ == pending(self@),
    {
        match self {
            Stage::Unvalidated(configurator) => Action::Observe(configurator.list_request()),
            Stage::Invalid(configurator) => Action::Update(configurator.update_request()),
            Stage::Valid(_) => Action::Finish,
        }
    }
}

/// Moves the run on by one event: takes in the answer to the action that was
/// due, and gives the stage that the run is in now, or the failure that ends
/// it. The record is written at most once: where the validation after the
/// write still finds the addresses different, the run ends with a failure to
/// converge. An event that answers another action than the one due leaves the
/// stage as it is.
pub fn configure(stage: Stage, event: Event) -> (result: Result<Stage, ReconcileError>)
    ensures
        match step(stage@, event@) {
            Ok(next) => result matches Ok(reached) && reached@ == next,
            Err(error) => result matches Err(e) && e == error,
        },
        result matches Ok(reached) ==> reached@.wf(),
        result matches Ok(reached) ==> (stage@.capped() ==> reached@.capped()),
{
    match stage {
        Stage::Unvalidated(configurator) => match event {
            Event::Observed(observation) => match configurator.validate(&observation) {
                Ok(ValidationResult::Valid(valid)) => Ok(Stage::Valid(valid)),
                Ok(ValidationResult::Invalid(invalid)) => {
                    if invalid.reconfigured() {
                        Err(ReconcileError::Convergence)
                    } else {
                        Ok(Stage::Invalid(invalid))
                    }
                },
                Err(error) => Err(error),
            },
            Event::Updated(_) => Ok(Stage::Unvalidated(configurator)),
        },
        Stage::Invalid(configurator) => match event {
            Event::Updated(echo) => match configurator.reconfigure(echo) {
                Ok(unvalidated) => Ok(Stage::Unvalidated(unvalidated)),
                Err(error) => Err(error),
            },
            Event::Observed(_) => {
                proof {
                    use_type_invariant(&configurator);
                }
                Ok(Stage::Invalid(configurator))
            },
        },
        Stage::Valid(configurator) => {
            proof {
                use_type_invariant(&configurator);
            }
            Ok(Stage::Valid(configurator))
        },
    }
}

} // verus!
