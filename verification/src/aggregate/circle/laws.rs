//! What holds of every circle, whatever commands it went through.

use crate::aggregate::circle::event::EventView;
use crate::aggregate::circle::{
    apply_spec, blank, consecutive, fold_spec, is_creation, is_update, replay_spec, replayable,
    CircleView, MIN_CAPACITY,
};
use vstd::prelude::*;

verus! {

/// The record of a circle's life: the event of each successful command, in
/// order, and the state that each command returned. The first command is a
/// creation; every later one is an update of the state before it.
pub open spec fn is_history(states: Seq<CircleView>, events: Seq<EventView>) -> bool {
    &&& events.len() >= 1
    &&& states.len() == events.len()
    &&& is_creation(states[0], events[0])
    &&& forall|i: int|
        1 <= i < events.len() ==> is_update(states[i - 1], #[trigger] states[i], events[i])
}

/// Two streams that tell the same story: the same circle, and at each
/// position the same data at the same version. Event identifiers and
/// timestamps may differ.
pub open spec fn same_content(a: Seq<EventView>, b: Seq<EventView>) -> bool {
    &&& a.len() == b.len()
    &&& a.len() > 0 ==> a[0].circle_id == b[0].circle_id
    &&& forall|i: int|
        0 <= i < a.len() ==> (#[trigger] a[i]).data == b[i].data && a[i].version == b[i].version
}

/// Folding one stream and then another is folding the two joined.
pub proof fn lemma_fold_append(state: CircleView, head: Seq<EventView>, tail: Seq<EventView>)
    ensures
        fold_spec(fold_spec(state, head), tail) == fold_spec(state, head + tail),
    decreases tail.len(),
{
    if tail.len() == 0 {
        assert(head + tail =~= head);
    } else {
        lemma_fold_append(state, head, tail.drop_last());
        assert((head + tail).drop_last() =~= head + tail.drop_last());
        assert((head + tail).last() == tail.last());
    }
}

/// No event changes a circle's identity.
pub proof fn lemma_fold_keeps_identity(state: CircleView, events: Seq<EventView>)
    ensures
        fold_spec(state, events).id == state.id,
    decreases events.len(),
{
    if events.len() > 0 {
        lemma_fold_keeps_identity(state, events.drop_last());
    }
}

/// After a fold the circle stands at the version of the last event.
pub proof fn lemma_fold_version(state: CircleView, events: Seq<EventView>)
    requires
        events.len() > 0,
    ensures
        fold_spec(state, events).version == events.last().version,
{
}

/// A prefix of a stream whose versions rise by one has versions that rise
/// by one, and so has what is left after it.
pub proof fn lemma_consecutive_split(events: Seq<EventView>, at: int)
    requires
        consecutive(events),
        0 <= at <= events.len(),
    ensures
        consecutive(events.take(at)),
        consecutive(events.skip(at)),
{
    let head = events.take(at);
    let tail = events.skip(at);
    assert forall|i: int| 0 <= i < head.len() - 1 implies (#[trigger] head[i + 1]).version
        == head[i].version + 1 by {
        assert(events[i + 1].version == events[i].version + 1);
    }
    assert forall|i: int| 0 <= i < tail.len() - 1 implies (#[trigger] tail[i + 1]).version
        == tail[i].version + 1 by {
        assert(events[(at + i) + 1].version == events[at + i].version + 1);
    }
}

/// In a stream whose versions rise by one, each version is the first
/// version plus the position.
pub proof fn lemma_consecutive_versions(events: Seq<EventView>, at: int)
    requires
        consecutive(events),
        0 <= at < events.len(),
    ensures
        events[at].version == events[0].version + at,
    decreases at,
{
    if at > 0 {
        lemma_consecutive_versions(events, at - 1);
        assert(events[(at - 1) + 1].version == events[at - 1].version + 1);
    }
}

/// Replaying the events of a circle's successful commands gives the state
/// that the last command returned. Along the way: the stream is one that
/// replay accepts, and the version of the result counts the events.
pub proof fn law_replay_equals_last_command_state(
    states: Seq<CircleView>,
    events: Seq<EventView>,
)
    requires
        is_history(states, events),
    ensures
        replayable(events),
        replay_spec(events) == states.last(),
        replay_spec(events).version == events.len(),
{
    law_history_versions_count_up(states, events);
    assert(consecutive(events)) by {
        assert forall|i: int| 0 <= i < events.len() - 1 implies (#[trigger] events[i
            + 1]).version == events[i].version + 1 by {
            assert(events[i + 1].version == (i + 1) + 1);
            assert(events[i].version == i + 1);
        }
    }
    lemma_history_replay(states, events);
}

proof fn lemma_history_replay(states: Seq<CircleView>, events: Seq<EventView>)
    requires
        is_history(states, events),
    ensures
        fold_spec(blank(events[0].circle_id), events) == states.last(),
    decreases events.len(),
{
    let start = blank(events[0].circle_id);
    if events.len() == 1 {
        assert(events.drop_last() =~= Seq::<EventView>::empty());
        assert(fold_spec(start, events.drop_last()) == start);
    } else {
        let n = events.len() - 1;
        let earlier_states = states.drop_last();
        let earlier_events = events.drop_last();
        assert(is_history(earlier_states, earlier_events)) by {
            assert forall|i: int| 1 <= i < earlier_events.len() implies is_update(
                earlier_states[i - 1],
                #[trigger] earlier_states[i],
                earlier_events[i],
            ) by {
                assert(is_update(states[i - 1], states[i], events[i]));
            }
        }
        lemma_history_replay(earlier_states, earlier_events);
        assert(earlier_states.last() == states[n - 1]);
        assert(is_update(states[n - 1], states[n], events[n]));
    }
}

/// The events of a circle's successful commands carry the versions
/// 1, 2, 3, ... in order, and each command returns the state at the
/// version of its event.
pub proof fn law_history_versions_count_up(states: Seq<CircleView>, events: Seq<EventView>)
    requires
        is_history(states, events),
    ensures
        forall|i: int| 0 <= i < events.len() ==> (#[trigger] events[i]).version == i + 1,
        forall|i: int| 0 <= i < states.len() ==> (#[trigger] states[i]).version == i + 1,
{
    assert forall|i: int| 0 <= i < events.len() implies (#[trigger] events[i]).version == i + 1
        && states[i].version == i + 1 by {
        lemma_history_version_at(states, events, i);
    }
    assert forall|i: int| 0 <= i < states.len() implies (#[trigger] states[i]).version == i
        + 1 by {
        lemma_history_version_at(states, events, i);
    }
}

proof fn lemma_history_version_at(states: Seq<CircleView>, events: Seq<EventView>, at: int)
    requires
        is_history(states, events),
        0 <= at < events.len(),
    ensures
        events[at].version == at + 1,
        states[at].version == at + 1,
    decreases at,
{
    if at > 0 {
        lemma_history_version_at(states, events, at - 1);
        assert(is_update(states[at - 1], states[at], events[at]));
    }
}

/// A creation followed by any updates keeps the identity that the creation
/// assigned: every state, and every event, names the same circle.
pub proof fn law_updates_preserve_identity(states: Seq<CircleView>, events: Seq<EventView>)
    requires
        is_history(states, events),
    ensures
        forall|i: int| 0 <= i < states.len() ==> (#[trigger] states[i]).id == states[0].id,
        forall|i: int| 0 <= i < events.len() ==> (#[trigger] events[i]).circle_id == states[0].id,
{
    assert forall|i: int| 0 <= i < states.len() implies (#[trigger] states[i]).id
        == states[0].id && events[i].circle_id == states[0].id by {
        lemma_history_identity_at(states, events, i);
    }
    assert forall|i: int| 0 <= i < events.len() implies (#[trigger] events[i]).circle_id
        == states[0].id by {
        lemma_history_identity_at(states, events, i);
    }
}

proof fn lemma_history_identity_at(states: Seq<CircleView>, events: Seq<EventView>, at: int)
    requires
        is_history(states, events),
        0 <= at < events.len(),
    ensures
        states[at].id == states[0].id,
        events[at].circle_id == states[0].id,
    decreases at,
{
    if at > 0 {
        lemma_history_identity_at(states, events, at - 1);
        assert(is_update(states[at - 1], states[at], events[at]));
    }
}

/// After every successful command the capacity is at least the minimum.
pub proof fn law_capacity_never_below_minimum(states: Seq<CircleView>, events: Seq<EventView>)
    requires
        is_history(states, events),
    ensures
        forall|i: int| 0 <= i < states.len() ==> (#[trigger] states[i]).capacity >= MIN_CAPACITY,
{
    assert forall|i: int| 0 <= i < states.len() implies (#[trigger] states[i]).capacity
        >= MIN_CAPACITY by {
        lemma_history_capacity_at(states, events, i);
    }
}

proof fn lemma_history_capacity_at(states: Seq<CircleView>, events: Seq<EventView>, at: int)
    requires
        is_history(states, events),
        0 <= at < events.len(),
    ensures
        states[at].capacity >= MIN_CAPACITY,
    decreases at,
{
    if at > 0 {
        lemma_history_capacity_at(states, events, at - 1);
        assert(is_update(states[at - 1], states[at], events[at]));
    }
}

/// The record of a circle's life goes on with every successful update: the
/// new state and event, added to a history, make a history.
pub proof fn law_update_extends_history(
    states: Seq<CircleView>,
    events: Seq<EventView>,
    circle: CircleView,
    event: EventView,
)
    requires
        is_history(states, events),
        is_update(states.last(), circle, event),
    ensures
        is_history(states.push(circle), events.push(event)),
{
    let longer_states = states.push(circle);
    let longer_events = events.push(event);
    assert forall|i: int| 1 <= i < longer_events.len() implies is_update(
        longer_states[i - 1],
        #[trigger] longer_states[i],
        longer_events[i],
    ) by {
        if i < events.len() {
            assert(is_update(states[i - 1], states[i], events[i]));
        }
    }
}

/// The record of a circle's life begins with its creation.
pub proof fn law_creation_begins_history(circle: CircleView, event: EventView)
    requires
        is_creation(circle, event),
    ensures
        is_history(seq![circle], seq![event]),
{
}

/// Replay depends on nothing but the circle, the data and the versions:
/// two streams with the same content give the same state. In particular
/// two identical streams do.
pub proof fn law_replay_is_deterministic(a: Seq<EventView>, b: Seq<EventView>)
    requires
        same_content(a, b),
        a.len() > 0,
    ensures
        replay_spec(a) == replay_spec(b),
        replayable(a) == replayable(b),
{
    lemma_fold_same_content(blank(a[0].circle_id), a, b);
    if replayable(a) {
        assert forall|i: int| 0 <= i < b.len() - 1 implies (#[trigger] b[i + 1]).version
            == b[i].version + 1 by {
            assert(a[i + 1].version == a[i].version + 1);
        }
    }
    if replayable(b) {
        assert forall|i: int| 0 <= i < a.len() - 1 implies (#[trigger] a[i + 1]).version
            == a[i].version + 1 by {
            assert(b[i + 1].version == b[i].version + 1);
        }
    }
}

proof fn lemma_fold_same_content(state: CircleView, a: Seq<EventView>, b: Seq<EventView>)
    requires
        a.len() == b.len(),
        forall|i: int|
            0 <= i < a.len() ==> (#[trigger] a[i]).data == b[i].data && a[i].version
                == b[i].version,
    ensures
        fold_spec(state, a) == fold_spec(state, b),
    decreases a.len(),
{
    if a.len() > 0 {
        let n = a.len() - 1;
        assert forall|i: int| 0 <= i < a.drop_last().len() implies (#[trigger] a.drop_last()[i]).data
            == b.drop_last()[i].data && a.drop_last()[i].version == b.drop_last()[i].version by {
            assert(a[i].data == b[i].data);
        }
        lemma_fold_same_content(state, a.drop_last(), b.drop_last());
        assert(a[n].data == b[n].data);
    }
}

/// A snapshot taken after the first `at` events, combined with the events
/// that follow, gives the same state as replaying the whole stream.
pub proof fn law_snapshot_then_tail_equals_full_replay(events: Seq<EventView>, at: int)
    requires
        replayable(events),
        1 <= at <= events.len(),
    ensures
        replayable(events.take(at)),
        fold_spec(replay_spec(events.take(at)), events.skip(at)) == replay_spec(events),
{
    lemma_consecutive_split(events, at);
    lemma_fold_append(blank(events[0].circle_id), events.take(at), events.skip(at));
    assert(events.take(at) + events.skip(at) =~= events);
    assert(events.take(at)[0] == events[0]);
}

} // verus!
