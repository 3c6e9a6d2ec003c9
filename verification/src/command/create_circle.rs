//! Creating a circle: validate, check the name, append, publish.

use crate::aggregate::circle::event::{Event, EventDataView, EventView};
use crate::aggregate::circle::{is_creation, Circle, CircleView, MIN_CAPACITY};
use crate::aggregate::value_object::is_minted_id;
use crate::command::{Reply, ReplyView};
use vstd::prelude::*;

verus! {

/// How the command fails.
#[derive(Clone, Copy, Debug, PartialEq, Eq, Structural)]
pub enum Error {
    /// The event store failed, or the conversation went out of step.
    Circle,
    /// Another circle has the name.
    Duplicate,
    /// The capacity is too small.
    InvalidInput,
}

#[derive(Debug)]
pub struct Input {
    pub circle_name: String,
    pub capacity: i16,
}

#[derive(Debug)]
pub struct Output {
    pub circle_id: String,
}

/// Where the command stands, and with it what the caller is to do next.
#[derive(Debug)]
pub enum Step {
    /// Ask the duplicate checker about the new circle.
    CheckDuplicate { circle: Circle, event: Event },
    /// Append the event, with no expectation of the stream's version.
    Store { circle: Circle, event: Event },
    /// Hand the event to the publisher.
    Publish { circle: Circle, event: Event },
    /// The command is over.
    Done(Result<Output, Error>),
}

/// A step as mathematical values.
pub enum StepView {
    CheckDuplicate { circle: CircleView, event: EventView },
    Store { circle: CircleView, event: EventView },
    Publish { circle: CircleView, event: EventView },
    Done(Result<Seq<char>, Error>),
}

impl View for Step {
    type V = StepView;

    open spec fn view(&self) -> StepView {
        match self {
            Step::CheckDuplicate { circle, event } => StepView::CheckDuplicate {
                circle: circle@,
                event: event@,
            },
            Step::Store { circle, event } => StepView::Store { circle: circle@, event: event@ },
            Step::Publish { circle, event } => StepView::Publish { circle: circle@, event: event@ },
            Step::Done(Ok(output)) => StepView::Done(Ok(output.circle_id@)),
            Step::Done(Err(e)) => StepView::Done(Err(*e)),
        }
    }
}

/// Whether `step` is a first step for the given input: a capacity below the
/// minimum is refused at once, with nothing written; otherwise a circle
/// with a freshly minted identity has been created at version 1, and the
/// duplicate checker is to be asked about it.
pub open spec fn begins(circle_name: Seq<char>, capacity: i16, step: StepView) -> bool {
    if capacity < MIN_CAPACITY {
        step == StepView::Done(Err(Error::InvalidInput))
    } else {
        &&& step matches StepView::CheckDuplicate { circle, event }
        &&& is_creation(circle, event)
        &&& event.data == (EventDataView::CircleCreated { name: circle_name, capacity })
        &&& is_minted_id(circle.id)
        &&& is_minted_id(event.id)
    }
}

/// The step that follows `step` once `reply` has come in.
///
/// A name that another circle has ends the command. Otherwise the event is
/// appended and published. A failed append ends the command. A publisher
/// that does not take the event changes nothing: the log is what counts.
/// A reply that does not answer the step ends the command.
pub open spec fn next_step(step: StepView, reply: ReplyView) -> StepView {
    match (step, reply) {
        (StepView::CheckDuplicate { circle, event }, ReplyView::DuplicateChecked(unique)) => {
            if unique {
                StepView::Store { circle, event }
            } else {
                StepView::Done(Err(Error::Duplicate))
            }
        },
        (StepView::Store { circle, event }, ReplyView::Stored(result)) => {
            match result {
                Ok(()) => StepView::Publish { circle, event },
                Err(_) => StepView::Done(Err(Error::Circle)),
            }
        },
        (StepView::Publish { circle, event }, ReplyView::Published(_)) => StepView::Done(
            Ok(circle.id),
        ),
        (StepView::Done(result), _) => StepView::Done(result),
        _ => StepView::Done(Err(Error::Circle)),
    }
}

/// Begins the command.
pub fn handle(input: Input) -> (step: Step)
    ensures
        begins(input.circle_name@, input.capacity, step@),
{
    let Input { circle_name, capacity } = input;
    match Circle::create(circle_name, capacity) {
        Ok((circle, event)) => Step::CheckDuplicate { circle, event },
        Err(_) => Step::Done(Err(Error::InvalidInput)),
    }
}

/// Takes the command one step further.
pub fn resume(step: Step, reply: Reply) -> (next: Step)
    ensures
        next@ == next_step(step@, reply@),
{
    match (step, reply) {
        (Step::CheckDuplicate { circle, event }, Reply::DuplicateChecked(unique)) => {
            if unique {
                Step::Store { circle, event }
            } else {
                Step::Done(Err(Error::Duplicate))
            }
        },
        (Step::Store { circle, event }, Reply::Stored(result)) => {
            match result {
                Ok(()) => Step::Publish { circle, event },
                Err(_) => Step::Done(Err(Error::Circle)),
            }
        },
        (Step::Publish { circle, event }, Reply::Published(_)) => Step::Done(
            Ok(Output { circle_id: circle.id.to_string() }),
        ),
        (Step::Done(result), _) => Step::Done(result),
        _ => Step::Done(Err(Error::Circle)),
    }
}

} // verus!
