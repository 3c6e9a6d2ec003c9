//! Updating a circle: load it, apply the change, check the name where it
//! changed, append under the version the client saw, publish.

use crate::aggregate::circle::event::{text_view, Event, EventDataView, EventView};
use crate::aggregate::circle::{is_update, Circle, CircleView, MIN_CAPACITY};
use crate::aggregate::value_object::circle_id::{is_circle_id, CircleId};
use crate::aggregate::value_object::is_minted_id;
use crate::aggregate::value_object::version::Version;
use crate::command::{Reply, ReplyView};
use crate::infrastructure::circle_repository;
use std::str::FromStr;
use vstd::prelude::*;

verus! {

/// How the command fails.
#[derive(Clone, Copy, Debug, PartialEq, Eq, Structural)]
pub enum Error {
    /// The event store failed, or the conversation went out of step.
    Circle,
    /// Another circle has the name.
    Duplicate,
    /// The identifier is malformed or the capacity too small.
    InvalidInput,
    /// The circle is not at the version the client saw.
    VersionMismatch,
}

#[derive(Debug)]
pub struct Input {
    pub circle_id: String,
    pub circle_name: Option<String>,
    pub capacity: Option<i16>,
    /// The version of the circle that the client saw.
    pub version: u32,
}

#[derive(Debug)]
pub struct Output {
    pub circle_id: String,
}

/// Where the command stands, and with it what the caller is to do next.
#[derive(Debug)]
pub enum Step {
    /// Load the circle from the event store.
    Load { circle_id: CircleId, circle_name: Option<String>, capacity: Option<i16>, version: Version },
    /// Ask the duplicate checker about the updated circle.
    CheckDuplicate { circle: Circle, event: Event, loaded: Version, version: Version },
    /// Append the event, expecting the stream at `version`.
    Store { circle: Circle, event: Event, version: Version },
    /// Hand the event to the publisher.
    Publish { circle: Circle, event: Event },
    /// The command is over.
    Done(Result<Output, Error>),
}

/// A step as mathematical values.
pub enum StepView {
    Load { circle_id: Seq<char>, circle_name: Option<Seq<char>>, capacity: Option<i16>, version: nat },
    CheckDuplicate { circle: CircleView, event: EventView, loaded: nat, version: nat },
    Store { circle: CircleView, event: EventView, version: nat },
    Publish { circle: CircleView, event: EventView },
    Done(Result<Seq<char>, Error>),
}

impl View for Step {
    type V = StepView;

    open spec fn view(&self) -> StepView {
        match self {
            Step::Load { circle_id, circle_name, capacity, version } => StepView::Load {
                circle_id: circle_id@,
                circle_name: text_view(*circle_name),
                capacity: *capacity,
                version: version@,
            },
            Step::CheckDuplicate { circle, event, loaded, version } => StepView::CheckDuplicate {
                circle: circle@,
                event: event@,
                loaded: loaded@,
                version: version@,
            },
            Step::Store { circle, event, version } => StepView::Store {
                circle: circle@,
                event: event@,
                version: version@,
            },
            Step::Publish { circle, event } => StepView::Publish { circle: circle@, event: event@ },
            Step::Done(Ok(output)) => StepView::Done(Ok(output.circle_id@)),
            Step::Done(Err(e)) => StepView::Done(Err(*e)),
        }
    }
}

/// The first step: an input with a well-formed identifier asks for the
/// circle to be loaded; any other input is refused at once.
pub open spec fn first_step(
    circle_id: Seq<char>,
    circle_name: Option<Seq<char>>,
    capacity: Option<i16>,
    version: nat,
) -> StepView {
    if is_circle_id(circle_id) {
        StepView::Load { circle_id, circle_name, capacity, version }
    } else {
        StepView::Done(Err(Error::InvalidInput))
    }
}

/// Whether an update gives the circle another name than it has.
pub open spec fn renames(circle: CircleView, circle_name: Option<Seq<char>>) -> bool {
    circle_name matches Some(name) && name != circle.name
}

/// The step after a passed or skipped duplicate check: the append, unless
/// the circle was not loaded at the version the client saw.
pub open spec fn before_store(
    circle: CircleView,
    event: EventView,
    loaded: nat,
    version: nat,
) -> StepView {
    if loaded == version {
        StepView::Store { circle, event, version }
    } else {
        StepView::Done(Err(Error::VersionMismatch))
    }
}

/// Whether `next` is the step that follows `step` once `reply` has come in.
///
/// Loading: a failed load ends the command; a capacity below the minimum is
/// refused; otherwise the circle is updated, and the duplicate checker is
/// asked if the name changes. Then the version the client saw is held
/// against the version loaded, the event is appended and published. A
/// conflict at the append is a version mismatch. A publisher that does not
/// take the event changes nothing: the log is what counts. A reply that
/// does not answer the step ends the command.
pub open spec fn follows(step: StepView, reply: ReplyView, next: StepView) -> bool {
    match (step, reply) {
        (
            StepView::Load { circle_id, circle_name, capacity, version },
            ReplyView::Loaded(Ok(loaded)),
        ) => {
            if capacity matches Some(c) && c < MIN_CAPACITY {
                next == StepView::Done(Err(Error::InvalidInput))
            } else if loaded.version >= u32::MAX {
                next == StepView::Done(Err(Error::Circle))
            } else if renames(loaded, circle_name) {
                &&& next matches StepView::CheckDuplicate { circle, event, loaded: l, version: v }
                &&& l == loaded.version
                &&& v == version
                &&& is_update(loaded, circle, event)
                &&& event.data == (EventDataView::CircleUpdated { name: circle_name, capacity })
                &&& is_minted_id(event.id)
            } else {
                exists|circle: CircleView, event: EventView|
                    {
                        &&& next == before_store(circle, event, loaded.version, version)
                        &&& is_update(loaded, circle, event)
                        &&& event.data == (EventDataView::CircleUpdated {
                            name: circle_name,
                            capacity,
                        })
                        &&& is_minted_id(event.id)
                    }
            }
        },
        (StepView::Load { .. }, ReplyView::Loaded(Err(_))) => next == StepView::Done(
            Err(Error::Circle),
        ),
        (
            StepView::CheckDuplicate { circle, event, loaded, version },
            ReplyView::DuplicateChecked(unique),
        ) => {
            if unique {
                next == before_store(circle, event, loaded, version)
            } else {
                next == StepView::Done(Err(Error::Duplicate))
            }
        },
        (StepView::Store { circle, event, version }, ReplyView::Stored(result)) => {
            match result {
                Ok(()) => next == StepView::Publish { circle, event },
                Err(circle_repository::Error::VersionConflict) => next == StepView::Done(
                    Err(Error::VersionMismatch),
                ),
                Err(_) => next == StepView::Done(Err(Error::Circle)),
            }
        },
        (StepView::Publish { circle, event }, ReplyView::Published(_)) => next == StepView::Done(
            Ok(circle.id),
        ),
        (StepView::Done(result), _) => next == StepView::Done(result),
        _ => next == StepView::Done(Err(Error::Circle)),
    }
}

/// Begins the command.
pub fn handle(input: Input) -> (step: Step)
    ensures
        step@ == first_step(
            input.circle_id@,
            text_view(input.circle_name),
            input.capacity,
            input.version as nat,
        ),
{
    let Input { circle_id, circle_name, capacity, version } = input;
    let circle_id = match CircleId::from_str(circle_id.as_str()) {
        Ok(id) => id,
        Err(_) => {
            return Step::Done(Err(Error::InvalidInput));
        },
    };
    let version = Version::from(version);
    Step::Load { circle_id, circle_name, capacity, version }
}

fn store_step(circle: Circle, event: Event, loaded: Version, version: Version) -> (step: Step)
    ensures
        step@ == before_store(circle@, event@, loaded@, version@),
{
    if loaded.same_as(&version) {
        Step::Store { circle, event, version }
    } else {
        Step::Done(Err(Error::VersionMismatch))
    }
}

/// Takes the command one step further.
pub fn resume(step: Step, reply: Reply) -> (next: Step)
    ensures
        follows(step@, reply@, next@),
{
    match (step, reply) {
        (Step::Load { circle_id, circle_name, capacity, version }, Reply::Loaded(Ok(loaded))) => {
            if let Some(c) = capacity {
                if c < MIN_CAPACITY {
                    return Step::Done(Err(Error::InvalidInput));
                }
            }
            if u32::from(loaded.version) == u32::MAX {
                return Step::Done(Err(Error::Circle));
            }
            let renamed = match &circle_name {
                Some(name) => *name != loaded.name,
                None => false,
            };
            let loaded_version = loaded.version;
            let ghost before = loaded@;
            match loaded.update(circle_name, capacity) {
                Ok((circle, event)) => {
                    if renamed {
                        Step::CheckDuplicate { circle, event, loaded: loaded_version, version }
                    } else {
                        let next = store_step(circle, event, loaded_version, version);
                        proof {
                            assert(next@ == before_store(
                                circle@,
                                event@,
                                before.version,
                                version@,
                            ));
                        }
                        next
                    }
                },
                Err(_) => Step::Done(Err(Error::InvalidInput)),
            }
        },
        (Step::Load { .. }, Reply::Loaded(Err(_))) => Step::Done(Err(Error::Circle)),
        (
            Step::CheckDuplicate { circle, event, loaded, version },
            Reply::DuplicateChecked(unique),
        ) => {
            if unique {
                store_step(circle, event, loaded, version)
            } else {
                Step::Done(Err(Error::Duplicate))
            }
        },
        (Step::Store { circle, event, version }, Reply::Stored(result)) => {
            match result {
                Ok(()) => Step::Publish { circle, event },
                Err(circle_repository::Error::VersionConflict) => Step::Done(
                    Err(Error::VersionMismatch),
                ),
                Err(_) => Step::Done(Err(Error::Circle)),
            }
        },
        (Step::Publish { circle, event }, Reply::Published(_)) => Step::Done(
            Ok(Output { circle_id: circle.id.to_string() }),
        ),
        (Step::Done(result), _) => Step::Done(result),
        _ => Step::Done(Err(Error::Circle)),
    }
}

} // verus!
