//! What holds of every stream the store accepts, and of every read from it.

use crate::aggregate::circle::event::EventView;
use crate::aggregate::circle::laws::{
    is_history, law_history_versions_count_up, law_replay_equals_last_command_state,
    law_snapshot_then_tail_equals_full_replay, lemma_fold_keeps_identity, lemma_fold_version,
};
use crate::aggregate::circle::{blank, replay_spec, CircleView};
use crate::aggregate::value_object::circle_id::is_circle_id;
use crate::infrastructure::circle_repository::{
    events_in, find_by_id_spec, gap_free_from, lemma_gap_free_is_consecutive, rebuild_spec,
    row_is_sound, rows_are_sound, rows_of, store_spec, Error,
};
use crate::infrastructure::event_log::tail_after;
use vstd::prelude::*;

verus! {

/// A stream whose versions are 1, 2, 3, ... keeps that shape under every
/// append the store accepts, and grows by exactly the batch.
pub proof fn law_store_keeps_versions_counting(
    stream: Seq<EventView>,
    expected: Option<nat>,
    batch: Seq<EventView>,
)
    requires
        gap_free_from(0, stream),
        store_spec(expected, stream.len(), batch) is Ok,
    ensures
        gap_free_from(0, stream + batch),
        forall|i: int| 0 <= i < (stream + batch).len() ==> (#[trigger] (stream + batch)[i]).version == i + 1,
{
    let joined = stream + batch;
    assert forall|i: int| 0 <= i < joined.len() implies (#[trigger] joined[i]).version == 0 + i
        + 1 by {
        if i >= stream.len() {
            assert(batch[i - stream.len()].version == stream.len() + (i - stream.len()) + 1);
        }
    }
}

/// Of two writers that loaded the same state and both expect the version
/// the stream stands at, whichever appends first succeeds, the other is
/// told of the conflict, and the stream holds exactly one more event.
pub proof fn law_one_of_two_writers_wins(
    stream: Seq<EventView>,
    expected: nat,
    first: EventView,
    second: EventView,
)
    requires
        gap_free_from(0, stream),
        expected == stream.len(),
        first.version == expected + 1,
        second.version == expected + 1,
        expected + 1 <= i32::MAX,
    ensures
        store_spec(Some(expected), stream.len(), seq![first]) == Ok::<(), Error>(()),
        store_spec(Some(expected), (stream + seq![first]).len(), seq![second]) == Err::<(), Error>(
            Error::VersionConflict,
        ),
        store_spec(Some(expected), stream.len(), seq![second]) == Ok::<(), Error>(()),
        store_spec(Some(expected), (stream + seq![second]).len(), seq![first]) == Err::<(), Error>(
            Error::VersionConflict,
        ),
        (stream + seq![first]).len() == stream.len() + 1,
        (stream + seq![second]).len() == stream.len() + 1,
{
}

/// A writer whose expectation is stale never changes the stream.
pub proof fn law_stale_writer_is_refused(
    stream: Seq<EventView>,
    expected: nat,
    batch: Seq<EventView>,
)
    requires
        batch.len() > 0,
        expected != stream.len(),
    ensures
        store_spec(Some(expected), stream.len(), batch) == Err::<(), Error>(Error::VersionConflict),
{
}

/// Reading through a snapshot gives what reading the whole stream gives:
/// for a stream that begins with a creation and counts up, and a snapshot
/// that holds the replay of its first `at` events.
pub proof fn law_snapshot_read_equals_full_read(stream: Seq<EventView>, at: int)
    requires
        stream.len() > 0,
        stream[0].data is CircleCreated,
        gap_free_from(0, stream),
        1 <= at <= stream.len(),
    ensures
        rebuild_spec(None, stream) == Ok::<CircleView, Error>(replay_spec(stream)),
        rebuild_spec(
            Some((replay_spec(stream.take(at)), at as nat)),
            tail_after(stream, at as nat),
        ) == rebuild_spec(None, stream),
{
    lemma_gap_free_is_consecutive(0, stream);
    law_snapshot_then_tail_equals_full_replay(stream, at);
    let head = stream.take(at);
    let tail = stream.skip(at);
    lemma_fold_version(blank(head[0].circle_id), head);
    assert(head.last() == stream[at - 1]);
    assert forall|i: int| 0 <= i < tail.len() implies (#[trigger] tail[i]).version == at + i
        + 1 by {
        assert(stream[at + i].version == 0 + (at + i) + 1);
    }
}

/// The stream that a circle's successful commands produce is one the store
/// accepts event by event, and reading it back gives the state that the
/// last command returned.
pub proof fn law_read_equals_last_command_state(states: Seq<CircleView>, events: Seq<EventView>)
    requires
        is_history(states, events),
    ensures
        gap_free_from(0, events),
        rebuild_spec(None, events) == Ok::<CircleView, Error>(states.last()),
{
    law_history_versions_count_up(states, events);
    law_replay_equals_last_command_state(states, events);
}

/// Once an event is in the stream, every later read of the stream gives a
/// circle at that event's version or beyond, with the identity of the
/// stream's first event: what the projection writes to the read cache
/// after the event is never older than the event.
pub proof fn law_read_is_no_older_than_any_event(stream: Seq<EventView>, at: int)
    requires
        rebuild_spec(None, stream) is Ok,
        0 <= at < stream.len(),
    ensures
        (rebuild_spec(None, stream)->Ok_0).version >= stream[at].version,
        (rebuild_spec(None, stream)->Ok_0).version == stream.len(),
        (rebuild_spec(None, stream)->Ok_0).id == stream[0].circle_id,
{
    lemma_fold_version(blank(stream[0].circle_id), stream);
    lemma_fold_keeps_identity(blank(stream[0].circle_id), stream);
    assert(stream.last().version == 0 + (stream.len() - 1) + 1);
    assert(stream[at].version == 0 + at + 1);
}

/// The rows that an accepted append writes read back as the very events
/// that were appended: what is read from the table is what was decided on
/// at the append.
pub proof fn law_stored_rows_read_back(
    expected: Option<nat>,
    current: nat,
    events: Seq<EventView>,
)
    requires
        store_spec(expected, current, events) is Ok,
        events.len() > 0,
        forall|i: int| 0 <= i < events.len() ==> is_circle_id((#[trigger] events[i]).circle_id),
    ensures
        rows_are_sound(rows_of(events)),
        events_in(rows_of(events)) == events,
        find_by_id_spec(None, rows_of(events)) == rebuild_spec(None, events),
{
    let rows = rows_of(events);
    assert forall|k: int| 0 <= k < rows.len() implies row_is_sound(#[trigger] rows[k])
        && events_in(rows)[k] == events[k] by {
        assert(events[k].version == current + k + 1);
        assert(is_circle_id(events[k].circle_id));
    }
    assert(events_in(rows) =~= events);
}

} // verus!
