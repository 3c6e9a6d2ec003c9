//! The projection: what the read cache is told when an event has been
//! stored.

use crate::aggregate::circle::{Circle, CircleView};
use crate::aggregate::value_object::version::Version;
use crate::infrastructure::circle_repository::{find_by_id, find_by_id_spec, Error};
use crate::infrastructure::maria_db_schema::circle_event_data::{row_views, CircleEventData};
use crate::infrastructure::redis_circle_reader::{circle_key, circle_key_spec, circles_list_key};
use vstd::prelude::*;

verus! {

/// One write to the read cache.
#[derive(Debug, PartialEq, Eq)]
pub enum CacheCommand {
    /// Store `value` under `key`, replacing what was there.
    Put { key: String, value: String },
    /// Add `member` to the set under `key`.
    AddToSet { key: String, member: String },
}

/// One write to the read cache as mathematical values.
pub enum CacheCommandView {
    Put { key: Seq<char>, value: Seq<char> },
    AddToSet { key: Seq<char>, member: Seq<char> },
}

impl View for CacheCommand {
    type V = CacheCommandView;

    open spec fn view(&self) -> CacheCommandView {
        match self {
            CacheCommand::Put { key, value } => CacheCommandView::Put { key: key@, value: value@ },
            CacheCommand::AddToSet { key, member } => CacheCommandView::AddToSet {
                key: key@,
                member: member@,
            },
        }
    }
}

/// Rebuilds the circle that an event belongs to from all rows of its
/// stream, in ascending order of version, as the event store reads it
/// without a snapshot.
pub fn rebuild_circle_from_events(rows: Vec<CircleEventData>) -> (r: Result<Circle, Error>)
    ensures
        match find_by_id_spec(None, row_views(rows@)) {
            Ok(circle) => r is Ok && r->Ok_0@ == circle,
            Err(e) => r == Err::<Circle, Error>(e),
        },
{
    let none: Option<(Circle, Version)> = None;
    find_by_id(none, rows)
}

/// The writes that project a circle into the read cache: its encoded state
/// under its own key, then its identifier into the list of known circles.
pub open spec fn projection_of(circle: CircleView, encoded: Seq<char>) -> Seq<CacheCommandView> {
    seq![
        CacheCommandView::Put { key: circle_key_spec(circle.id), value: encoded },
        CacheCommandView::AddToSet { key: "circles:list"@, member: circle.id },
    ]
}

/// The views of a sequence of cache writes, in order.
pub open spec fn command_views(commands: Seq<CacheCommand>) -> Seq<CacheCommandView> {
    commands.map_values(|c: CacheCommand| c@)
}

/// Decides the writes that bring a circle into the read cache, given the
/// circle and its encoded state.
pub fn save_circle_to_redis(circle: &Circle, circle_json: String) -> (commands: Vec<CacheCommand>)
    ensures
        command_views(commands@) == projection_of(circle@, circle_json@),
{
    let circle_id_str = circle.id.to_string();
    let mut commands: Vec<CacheCommand> = Vec::new();
    commands.push(CacheCommand::Put { key: circle_key(&circle.id), value: circle_json });
    commands.push(CacheCommand::AddToSet { key: circles_list_key(), member: circle_id_str });
    assert(command_views(commands@) =~= projection_of(circle@, circle_json@));
    commands
}

} // verus!
