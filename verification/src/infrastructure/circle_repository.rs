//! The event store's rules: how a circle is read back from a snapshot and
//! the events after it, when a batch of events may be appended, and when a
//! snapshot is due.

use crate::aggregate::circle::event::{views, Event, EventData, EventDataView, EventView};
use crate::aggregate::circle::{fold_spec, replay_spec, Circle, CircleView};
use crate::aggregate::value_object::circle_id::{is_circle_id, CircleId};
use crate::aggregate::value_object::event_id::EventId;
use crate::aggregate::value_object::version::Version;
use crate::infrastructure::maria_db_schema::circle_event_data::{
    row_views, CircleEventData, CircleEventDataView,
};
use crate::infrastructure::maria_db_schema::circle_snapshot_data::{
    circle_of, state_of, CircleSnapshotData, State, StateView,
};
use std::str::FromStr;
use vstd::prelude::*;
use vstd::std_specs::convert::TryFromSpecImpl;

verus! {

/// A snapshot is written whenever a circle reaches a version that this
/// number divides.
pub const SNAPSHOT_INTERVAL: i32 = 5;

/// How the event store fails.
#[derive(Clone, Copy, Debug, PartialEq, Eq, Structural)]
pub enum Error {
    /// There is neither a snapshot nor an event of the circle.
    NotFound,
    /// The stream does not stand at the version the writer expected.
    VersionConflict,
    /// What is stored, or what was to be stored, breaks the stream's rules:
    /// a gap, a repeated version, a row that cannot be decoded.
    Corrupt,
    /// The database could not be reached or did not answer. No rule of this
    /// library gives it; it is what a caller reports when the database
    /// itself fails.
    Transient,
}

/// The tag that the `event_type` column holds for an event.
pub open spec fn event_type_of(data: EventDataView) -> Seq<char> {
    match data {
        EventDataView::CircleCreated { .. } => "circle_created"@,
        EventDataView::CircleUpdated { .. } => "circle_updated"@,
    }
}

/// The row that stores an event.
pub open spec fn row_of(event: EventView) -> CircleEventDataView {
    CircleEventDataView {
        id: event.id,
        circle_id: event.circle_id,
        version: event.version as i32,
        event_type: event_type_of(event.data),
        payload: event.data,
        occurred_at: event.occurred_at,
    }
}

/// Whether a row holds an event: its circle identifier is one, and its
/// version is not negative.
pub open spec fn row_is_sound(row: CircleEventDataView) -> bool {
    is_circle_id(row.circle_id) && row.version >= 0
}

/// The event that a sound row holds.
pub open spec fn event_of(row: CircleEventDataView) -> EventView {
    EventView {
        circle_id: row.circle_id,
        data: row.payload,
        id: row.id,
        occurred_at: row.occurred_at,
        version: row.version as nat,
    }
}

/// Reads an event out of a row of the event table.
pub fn from_circle_event_data(v: CircleEventData) -> (r: Result<Event, Error>)
    ensures
        row_is_sound(v@) ==> r is Ok && r->Ok_0@ == event_of(v@),
        !row_is_sound(v@) ==> r == Err::<Event, Error>(Error::Corrupt),
{
    event_of_row(&v)
}

/// Reads an event out of a row that stays with the caller.
pub fn event_of_row(v: &CircleEventData) -> (r: Result<Event, Error>)
    ensures
        row_is_sound(v@) ==> r is Ok && r->Ok_0@ == event_of(v@),
        !row_is_sound(v@) ==> r == Err::<Event, Error>(Error::Corrupt),
{
    let id = match EventId::from_str(v.id.as_str()) {
        Ok(id) => id,
        Err(_) => {
            return Err(Error::Corrupt);
        },
    };
    let circle_id = match CircleId::from_str(v.circle_id.as_str()) {
        Ok(id) => id,
        Err(_) => {
            return Err(Error::Corrupt);
        },
    };
    let version = match Version::try_from(v.version) {
        Ok(version) => version,
        Err(_) => {
            return Err(Error::Corrupt);
        },
    };
    Ok(Event { id, circle_id, version, data: v.payload.clone(), occurred_at: v.occurred_at })
}

impl TryFrom<Event> for CircleEventData {
    type Error = Error;

    /// Writes an event into a row. An event whose version does not fit the
    /// column cannot be stored.
    fn try_from(value: Event) -> (r: Result<CircleEventData, Error>)
        ensures
            value@.version <= i32::MAX ==> r is Ok && r->Ok_0@ == row_of(value@),
            value@.version > i32::MAX ==> r == Err::<CircleEventData, Error>(Error::Corrupt),
    {
        row_of_event(&value)
    }
}

/// Writes an event that stays with the caller into a row.
pub fn row_of_event(value: &Event) -> (r: Result<CircleEventData, Error>)
    ensures
        value@.version <= i32::MAX ==> r is Ok && r->Ok_0@ == row_of(value@),
        value@.version > i32::MAX ==> r == Err::<CircleEventData, Error>(Error::Corrupt),
{
    let event_type = match &value.data {
        EventData::CircleCreated(_) => "circle_created",
        EventData::CircleUpdated(_) => "circle_updated",
    };
    let version = match i32::try_from(value.version) {
        Ok(version) => version,
        Err(_) => {
            return Err(Error::Corrupt);
        },
    };
    Ok(
        CircleEventData {
            circle_id: value.circle_id.to_string(),
            event_type: event_type.to_owned(),
            id: value.id.to_string(),
            occurred_at: value.occurred_at,
            payload: value.data.clone(),
            version,
        },
    )
}

/// A `String` cannot be built in ghost code, so `try_from` states its
/// result over the view and this impl claims nothing beyond it.
impl TryFromSpecImpl<Event> for CircleEventData {
    open spec fn obeys_try_from_spec() -> bool {
        false
    }

    open spec fn try_from_spec(value: Event) -> Result<CircleEventData, Error> {
        if value@.version <= i32::MAX {
            Ok(choose|row: CircleEventData| row@ == row_of(value@))
        } else {
            Err(Error::Corrupt)
        }
    }
}

/// An event written to a row and read back is the same event, as long as
/// it belongs to a circle.
pub proof fn law_row_round_trip(event: EventView)
    requires
        is_circle_id(event.circle_id),
        event.version <= i32::MAX,
    ensures
        row_is_sound(row_of(event)),
        event_of(row_of(event)) == event,
{
}

/// The versions of `events` continue a stream that stands at `base`
/// without a gap: `base + 1`, `base + 2`, and so on.
pub open spec fn gap_free_from(base: nat, events: Seq<EventView>) -> bool {
    forall|i: int| 0 <= i < events.len() ==> (#[trigger] events[i]).version == base + i + 1
}

/// What reading a circle gives, from the latest snapshot (the state and the
/// version it was taken at) and the events stored after it.
///
/// Without a snapshot the events are the whole stream: none at all means
/// there is no such circle; otherwise they must begin with a creation at
/// version 1 and go on without a gap. With a snapshot, the snapshot must
/// stand at the version it was taken at, and the events must continue from
/// there without a gap. Anything else is corrupt.
pub open spec fn rebuild_spec(
    snapshot: Option<(CircleView, nat)>,
    events: Seq<EventView>,
) -> Result<CircleView, Error> {
    match snapshot {
        None => if events.len() == 0 {
            Err(Error::NotFound)
        } else if events[0].data is CircleCreated && gap_free_from(0, events) {
            Ok(replay_spec(events))
        } else {
            Err(Error::Corrupt)
        },
        Some((state, base)) => if state.version == base && gap_free_from(base, events) {
            Ok(fold_spec(state, events))
        } else {
            Err(Error::Corrupt)
        },
    }
}

/// The view of an optional snapshot.
pub open spec fn snapshot_view(snapshot: Option<(Circle, Version)>) -> Option<(CircleView, nat)> {
    match snapshot {
        Some((circle, version)) => Some((circle@, version@)),
        None => None,
    }
}

/// A stream without a gap from 0 rises by one.
pub proof fn lemma_gap_free_is_consecutive(base: nat, events: Seq<EventView>)
    requires
        gap_free_from(base, events),
    ensures
        crate::aggregate::circle::consecutive(events),
{
    assert forall|i: int| 0 <= i < events.len() - 1 implies (#[trigger] events[i + 1]).version
        == events[i].version + 1 by {
        assert(events[i].version == base + i + 1);
    }
}

/// Reads a circle back from the latest snapshot, if there is one, and the
/// events stored after it, in ascending order of version.
pub fn rebuild(snapshot: Option<(Circle, Version)>, events: Vec<Event>) -> (r: Result<
    Circle,
    Error,
>)
    ensures
        match rebuild_spec(snapshot_view(snapshot), views(events@)) {
            Ok(circle) => r is Ok && r->Ok_0@ == circle,
            Err(e) => r == Err::<Circle, Error>(e),
        },
{
    let ghost all = views(events@);
    match snapshot {
        None => {
            if events.len() == 0 {
                return Err(Error::NotFound);
            }
            if u32::from(events[0].version) != 1 {
                proof {
                    assert(all[0].version != 0 + 0 + 1);
                }
                return Err(Error::Corrupt);
            }
            match Circle::replay(events) {
                Ok(circle) => {
                    proof {
                        lemma_consecutive_is_gap_free(0, all);
                    }
                    Ok(circle)
                },
                Err(_) => {
                    proof {
                        if gap_free_from(0, all) {
                            lemma_gap_free_is_consecutive(0, all);
                        }
                    }
                    Err(Error::Corrupt)
                },
            }
        },
        Some((circle, base)) => {
            if !circle.version.same_as(&base) {
                return Err(Error::Corrupt);
            }
            let mut state = circle;
            let ghost start = state@;
            let mut i: usize = 0;
            proof {
                assert(all.take(0) =~= Seq::<EventView>::empty());
            }
            while i < events.len()
                invariant
                    all == views(events@),
                    snapshot_view(snapshot) == Some((start, base@)),
                    0 <= i <= events.len(),
                    start.version == base@,
                    state@ == fold_spec(start, all.take(i as int)),
                    state@.version == base@ + i,
                    gap_free_from(base@, all.take(i as int)),
                decreases events.len() - i,
            {
                let event = &events[i];
                if !event.version.follows(&state.version) {
                    proof {
                        assert(all[i as int].version != base@ + i + 1);
                    }
                    return Err(Error::Corrupt);
                }
                proof {
                    let before = all.take(i as int);
                    let after = all.take(i + 1);
                    assert(after.drop_last() =~= before);
                    assert(after.last() == all[i as int]);
                    assert forall|k: int| 0 <= k < after.len() implies (#[trigger] after[k]).version
                        == base@ + k + 1 by {
                        if k < i {
                            assert(before[k].version == base@ + k + 1);
                        }
                    }
                }
                state.apply_event(event);
                i += 1;
            }
            proof {
                assert(all.take(i as int) =~= all);
            }
            Ok(state)
        },
    }
}

/// A stream that starts at `base + 1` and rises by one has no gap.
pub proof fn lemma_consecutive_is_gap_free(base: nat, events: Seq<EventView>)
    requires
        events.len() > 0 ==> events[0].version == base + 1,
        crate::aggregate::circle::consecutive(events),
    ensures
        gap_free_from(base, events),
{
    assert forall|i: int| 0 <= i < events.len() implies (#[trigger] events[i]).version == base
        + i + 1 by {
        crate::aggregate::circle::laws::lemma_consecutive_versions(events, i);
    }
}

/// Reads the events out of the rows of a query, in the order of the rows.
/// One row that holds no event spoils the whole read.
pub fn events_of_rows(rows: &Vec<CircleEventData>) -> (r: Result<Vec<Event>, Error>)
    ensures
        rows_are_sound(row_views(rows@)) ==> r is Ok && views(r->Ok_0@) == events_in(
            row_views(rows@),
        ),
        !rows_are_sound(row_views(rows@)) ==> r == Err::<Vec<Event>, Error>(Error::Corrupt),
{
    let ghost all = row_views(rows@);
    let mut events: Vec<Event> = Vec::new();
    let mut i: usize = 0;
    while i < rows.len()
        invariant
            all == row_views(rows@),
            0 <= i <= rows.len(),
            events.len() == i,
            forall|k: int|
                0 <= k < i ==> row_is_sound(#[trigger] all[k]) && events[k]@ == event_of(all[k]),
        decreases rows.len() - i,
    {
        match event_of_row(&rows[i]) {
            Ok(event) => {
                events.push(event);
            },
            Err(_) => {
                proof {
                    assert(!row_is_sound(all[i as int]));
                }
                return Err(Error::Corrupt);
            },
        }
        i += 1;
    }
    proof {
        assert(views(events@) =~= events_in(all));
    }
    Ok(events)
}

/// The events that the rows of a query hold, in the order of the rows.
pub open spec fn events_in(rows: Seq<CircleEventDataView>) -> Seq<EventView> {
    rows.map_values(|row: CircleEventDataView| event_of(row))
}

/// Whether every row of a query holds an event.
pub open spec fn rows_are_sound(rows: Seq<CircleEventDataView>) -> bool {
    forall|k: int| 0 <= k < rows.len() ==> row_is_sound(#[trigger] rows[k])
}

/// What reading a circle gives, from the latest usable snapshot and the
/// rows stored after it.
pub open spec fn find_by_id_spec(
    snapshot: Option<(CircleView, nat)>,
    rows: Seq<CircleEventDataView>,
) -> Result<CircleView, Error> {
    if rows_are_sound(rows) {
        rebuild_spec(snapshot, events_in(rows))
    } else {
        Err(Error::Corrupt)
    }
}

/// Reads a circle back from the latest usable snapshot, if there is one,
/// and the rows of the events stored after it, in ascending order of
/// version.
pub fn find_by_id(snapshot: Option<(Circle, Version)>, rows: Vec<CircleEventData>) -> (r: Result<
    Circle,
    Error,
>)
    ensures
        match find_by_id_spec(snapshot_view(snapshot), row_views(rows@)) {
            Ok(circle) => r is Ok && r->Ok_0@ == circle,
            Err(e) => r == Err::<Circle, Error>(e),
        },
{
    match events_of_rows(&rows) {
        Ok(events) => rebuild(snapshot, events),
        Err(e) => Err(e),
    }
}

/// The snapshot that a row of the snapshot table holds: the state, and the
/// version the row says it was taken at.
pub open spec fn snapshot_of_row_spec(version: i32, state: StateView) -> Option<(CircleView, nat)> {
    match circle_of(state) {
        Ok(circle) => if version >= 0 {
            Some((circle, version as nat))
        } else {
            None
        },
        Err(_) => None,
    }
}

/// Decides what the read path starts from: the latest snapshot row if the
/// query found one and it can be decoded, otherwise nothing, in which case
/// the whole stream is replayed.
pub fn get_latest_snapshot(row: Option<CircleSnapshotData>) -> (r: Option<(Circle, Version)>)
    ensures
        snapshot_view(r) == match row {
            Some(found) => snapshot_of_row_spec(found.version, found.state@),
            None => None,
        },
{
    match row {
        None => None,
        Some(found) => {
            let circle = match found.state.to_circle() {
                Ok(circle) => circle,
                Err(_) => {
                    return None;
                },
            };
            let version = match Version::try_from(found.version) {
                Ok(version) => version,
                Err(_) => {
                    return None;
                },
            };
            Some((circle, version))
        },
    }
}

/// The version after which the events are to be fetched: that of the
/// snapshot, or 0 where there is none. A snapshot version too large for the
/// column cannot have come from the table.
pub fn tail_base(snapshot: &Option<(Circle, Version)>) -> (r: Result<i32, Error>)
    ensures
        r == match snapshot_view(*snapshot) {
            None => Ok::<i32, Error>(0),
            Some((_, base)) => if base <= i32::MAX {
                Ok::<i32, Error>(base as i32)
            } else {
                Err::<i32, Error>(Error::Corrupt)
            },
        },
{
    match snapshot {
        None => Ok(0),
        Some((_, base)) => match i32::try_from(*base) {
            Ok(n) => Ok(n),
            Err(_) => Err(Error::Corrupt),
        },
    }
}

/// The version a stream stands at, from the highest version the event
/// table holds for the circle: 0 where it holds none.
pub fn stream_version(highest: Option<i64>) -> (r: Result<u32, Error>)
    ensures
        r == match highest {
            None => Ok::<u32, Error>(0),
            Some(v) => if 0 <= v <= u32::MAX {
                Ok::<u32, Error>(v as u32)
            } else {
                Err::<u32, Error>(Error::Corrupt)
            },
        },
{
    match highest {
        None => Ok(0),
        Some(v) => {
            if v < 0 || v > u32::MAX as i64 {
                Err(Error::Corrupt)
            } else {
                Ok(v as u32)
            }
        },
    }
}

/// Whether a batch may be appended to a stream that stands at `current`
/// (0 for a stream without events).
///
/// An empty batch is accepted and changes nothing. Otherwise, where the
/// writer states the version it expects and the stream stands elsewhere,
/// the append is a conflict. And the batch must continue the stream
/// without a gap or a repeated version, with versions that fit the column.
pub open spec fn store_spec(expected: Option<nat>, current: nat, events: Seq<EventView>) -> Result<
    (),
    Error,
> {
    if events.len() == 0 {
        Ok(())
    } else if expected matches Some(v) && v != current {
        Err(Error::VersionConflict)
    } else if gap_free_from(current, events) && current + events.len() <= i32::MAX {
        Ok(())
    } else {
        Err(Error::Corrupt)
    }
}

/// The view of an optional version.
pub open spec fn version_view(version: Option<Version>) -> Option<nat> {
    match version {
        Some(v) => Some(v@),
        None => None,
    }
}

/// The rows that store a batch of events.
pub open spec fn rows_of(events: Seq<EventView>) -> Seq<CircleEventDataView> {
    events.map_values(|event: EventView| row_of(event))
}

/// Decides whether a batch may be appended, given the version the writer
/// expects, if any, and the version the stream stands at.
pub fn check_store(expected: Option<Version>, current: u32, events: &Vec<Event>) -> (r: Result<
    (),
    Error,
>)
    ensures
        r == store_spec(version_view(expected), current as nat, views(events@)),
{
    let ghost all = views(events@);
    if events.len() == 0 {
        return Ok(());
    }
    if let Some(v) = expected {
        if u32::from(v) != current {
            return Err(Error::VersionConflict);
        }
    }
    let mut i: usize = 0;
    while i < events.len()
        invariant
            all == views(events@),
            0 <= i <= events.len(),
            all.len() > 0,
            !(version_view(expected) matches Some(v) && v != current),
            i > 0 ==> current + i <= i32::MAX,
            forall|k: int| 0 <= k < i ==> (#[trigger] all[k]).version == current + k + 1,
        decreases events.len() - i,
    {
        let version = u32::from(events[i].version);
        if version > i32::MAX as u32 || version <= current || (version - 1 - current) as usize
            != i {
            proof {
                if gap_free_from(current as nat, all) && current + all.len() <= i32::MAX {
                    assert(all[i as int].version == current + i + 1);
                    assert(false);
                }
            }
            return Err(Error::Corrupt);
        }
        i += 1;
    }
    Ok(())
}

/// Decides an append: given the version the writer expects, if any, and
/// the version the stream stands at, either the rows to insert, in
/// ascending order of version, or the refusal.
pub fn store(expected: Option<Version>, current: u32, events: Vec<Event>) -> (r: Result<
    Vec<CircleEventData>,
    Error,
>)
    ensures
        match store_spec(version_view(expected), current as nat, views(events@)) {
            Ok(()) => r is Ok && row_views(r->Ok_0@) == rows_of(views(events@)),
            Err(e) => r == Err::<Vec<CircleEventData>, Error>(e),
        },
{
    let ghost all = views(events@);
    match check_store(expected, current, &events) {
        Ok(()) => {},
        Err(e) => {
            return Err(e);
        },
    }
    let mut rows: Vec<CircleEventData> = Vec::new();
    let mut i: usize = 0;
    while i < events.len()
        invariant
            all == views(events@),
            0 <= i <= events.len(),
            rows.len() == i,
            store_spec(version_view(expected), current as nat, all) is Ok,
            forall|k: int| 0 <= k < i ==> (#[trigger] rows[k])@ == row_of(all[k]),
        decreases events.len() - i,
    {
        match row_of_event(&events[i]) {
            Ok(row) => {
                rows.push(row);
            },
            Err(_) => {
                proof {
                    assert(all[i as int].version == current + i + 1);
                    assert(false);
                }
                return Err(Error::Corrupt);
            },
        }
        i += 1;
    }
    proof {
        assert(row_views(rows@) =~= rows_of(all));
    }
    Ok(rows)
}

/// Whether a circle that has reached `version` is due for a snapshot.
pub fn snapshot_due(version: Version) -> (due: bool)
    ensures
        due == (version@ % (SNAPSHOT_INTERVAL as nat) == 0),
{
    u32::from(version) % (SNAPSHOT_INTERVAL as u32) == 0
}

/// A snapshot that is about to be written: the database adds the row's
/// number and the time.
#[derive(Debug)]
pub struct NewSnapshot {
    pub circle_id: String,
    pub version: i32,
    pub state: State,
}

/// What is written when a snapshot of the circle is saved. A circle whose
/// version does not fit the column has no snapshot.
pub fn save_snapshot(circle: &Circle) -> (r: Result<NewSnapshot, Error>)
    ensures
        match state_of(circle@) {
            Ok(state) => r is Ok && r->Ok_0.circle_id@ == circle@.id && r->Ok_0.version
                == circle@.version && r->Ok_0.state@ == state,
            Err(_) => r == Err::<NewSnapshot, Error>(Error::Corrupt),
        },
{
    let circle_id = circle.id.to_string();
    let version = match i32::try_from(circle.version) {
        Ok(version) => version,
        Err(_) => {
            return Err(Error::Corrupt);
        },
    };
    let state = match State::from_circle(circle) {
        Ok(state) => state,
        Err(_) => {
            return Err(Error::Corrupt);
        },
    };
    Ok(NewSnapshot { circle_id, version, state })
}

/// Decides what follows a committed append: the snapshot to write, if the
/// circle has reached a version at which one is due. That the write then
/// fails is of no consequence to the append.
pub fn snapshot_after_store(circle: &Circle) -> (r: Option<NewSnapshot>)
    ensures
        r is Some <==> circle@.version % (SNAPSHOT_INTERVAL as nat) == 0 && circle@.version
            <= i32::MAX,
        r matches Some(snapshot) ==> snapshot.circle_id@ == circle@.id && snapshot.version
            == circle@.version && (state_of(circle@) matches Ok(state) && state
            == snapshot.state@),
{
    if snapshot_due(circle.version) {
        match save_snapshot(circle) {
            Ok(snapshot) => Some(snapshot),
            Err(_) => None,
        }
    } else {
        None
    }
}

} // verus!
