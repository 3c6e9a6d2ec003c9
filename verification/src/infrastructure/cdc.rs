//! The change-data-capture driver of the projection: what a change to the
//! snapshot table means for the read cache.

use crate::infrastructure::event_publisher::{CacheCommand, CacheCommandView};
use crate::infrastructure::redis_circle_reader::{cache_key, circle_key_spec};
use vstd::prelude::*;

verus! {

/// The image of a snapshot row as a change event carries it: the circle and
/// its encoded state.
#[derive(Debug)]
pub struct CircleSnapshot {
    pub circle_id: String,
    pub state: String,
}

/// One change event: the row before and after the change, and the kind of
/// operation. An image that is no snapshot row is absent.
#[derive(Debug)]
pub struct DebeziumPayload {
    pub before: Option<CircleSnapshot>,
    pub after: Option<CircleSnapshot>,
    pub op: String,
}

/// What a change means for the cache: where it leaves a snapshot row
/// behind, that row's state goes under the circle's key; otherwise nothing.
pub open spec fn cache_update_spec(after: Option<CircleSnapshot>) -> Option<CacheCommandView> {
    match after {
        Some(snapshot) => Some(
            CacheCommandView::Put {
                key: circle_key_spec(snapshot.circle_id@),
                value: snapshot.state@,
            },
        ),
        None => None,
    }
}

/// Decides the cache write for one change event. Only the image after the
/// change counts.
pub fn cache_update(payload: DebeziumPayload) -> (command: Option<CacheCommand>)
    ensures
        match cache_update_spec(payload.after) {
            Some(expected) => command is Some && command->Some_0@ == expected,
            None => command is None,
        },
{
    match payload.after {
        Some(snapshot) => Some(
            CacheCommand::Put { key: cache_key(snapshot.circle_id.as_str()), value: snapshot.state },
        ),
        None => None,
    }
}

} // verus!
