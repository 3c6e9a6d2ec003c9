//! The circle aggregate: a named group with a bounded capacity whose state
//! is the fold of its events.

use crate::aggregate::circle::event::{
    text_view, views, Event, EventData, EventDataView, EventView,
};
use crate::aggregate::value_object::circle_id::CircleId;
use crate::aggregate::value_object::is_minted_id;
use crate::aggregate::value_object::version::Version;
use vstd::prelude::*;

pub mod event;
pub mod laws;

verus! {

/// The smallest capacity a circle may have.
pub const MIN_CAPACITY: i16 = 3;

/// How the aggregate refuses.
#[derive(Clone, Copy, Debug, PartialEq, Eq, Structural)]
pub enum Error {
    /// A command asked for something the rules forbid.
    InvalidInput,
    /// A stream of events is not one that commands could have produced.
    Corrupt,
}

/// The state of one circle.
#[derive(Debug, PartialEq, Eq)]
pub struct Circle {
    pub id: CircleId,
    pub name: String,
    pub capacity: i16,
    pub version: Version,
}

/// The state of one circle as mathematical values.
pub struct CircleView {
    pub id: Seq<char>,
    pub name: Seq<char>,
    pub capacity: i16,
    pub version: nat,
}

impl View for Circle {
    type V = CircleView;

    open spec fn view(&self) -> CircleView {
        CircleView {
            id: self.id@,
            name: self.name@,
            capacity: self.capacity,
            version: self.version@,
        }
    }
}

impl Clone for Circle {
    fn clone(&self) -> (r: Self)
        ensures
            r@ == self@,
    {
        Circle {
            id: self.id.clone(),
            name: self.name.clone(),
            capacity: self.capacity,
            version: self.version,
        }
    }
}

/// The state after one event: a creation sets name and capacity, an update
/// overwrites each field it carries, and either one sets the version to the
/// event's. The identity never changes.
pub open spec fn apply_spec(state: CircleView, event: EventView) -> CircleView {
    match event.data {
        EventDataView::CircleCreated { name, capacity } => CircleView {
            id: state.id,
            name,
            capacity,
            version: event.version,
        },
        EventDataView::CircleUpdated { name, capacity } => CircleView {
            id: state.id,
            name: match name {
                Some(n) => n,
                None => state.name,
            },
            capacity: match capacity {
                Some(c) => c,
                None => state.capacity,
            },
            version: event.version,
        },
    }
}

/// The state after a sequence of events, applied in order.
pub open spec fn fold_spec(state: CircleView, events: Seq<EventView>) -> CircleView
    decreases events.len(),
{
    if events.len() == 0 {
        state
    } else {
        apply_spec(fold_spec(state, events.drop_last()), events.last())
    }
}

/// A circle that has an identity and nothing else yet.
pub open spec fn blank(id: Seq<char>) -> CircleView {
    CircleView { id, name: Seq::empty(), capacity: 0, version: 0 }
}

/// Each event's version is one more than that of the event before it.
pub open spec fn consecutive(events: Seq<EventView>) -> bool {
    forall|i: int|
        0 <= i < events.len() - 1 ==> (#[trigger] events[i + 1]).version == events[i].version + 1
}

/// What a stream must be for a circle to be rebuilt from it: not empty,
/// beginning with a creation, versions rising by one.
pub open spec fn replayable(events: Seq<EventView>) -> bool {
    &&& events.len() > 0
    &&& events[0].data is CircleCreated
    &&& consecutive(events)
}

/// The circle that a stream of events describes: the identity of the first
/// event, and the fold of all of them.
pub open spec fn replay_spec(events: Seq<EventView>) -> CircleView {
    fold_spec(blank(events[0].circle_id), events)
}

/// A creation command's outcome: the event is a creation at version 1 of a
/// capacity the rules allow, and the circle is what that event alone
/// describes.
pub open spec fn is_creation(circle: CircleView, event: EventView) -> bool {
    &&& event.data matches EventDataView::CircleCreated { name, capacity }
    &&& capacity >= MIN_CAPACITY
    &&& event.version == 1
    &&& event.circle_id == circle.id
    &&& circle == apply_spec(blank(event.circle_id), event)
}

/// An update command's outcome: the event is an update of the same circle
/// at the next version, carrying no capacity the rules forbid, and the
/// circle is the previous state with the event applied.
pub open spec fn is_update(prev: CircleView, circle: CircleView, event: EventView) -> bool {
    &&& event.data matches EventDataView::CircleUpdated { name, capacity }
    &&& (capacity matches Some(c) ==> c >= MIN_CAPACITY)
    &&& event.version == prev.version + 1
    &&& event.circle_id == prev.id
    &&& circle == apply_spec(prev, event)
}

impl Circle {
    /// Rebuilds a circle from its events. The stream must be `replayable`;
    /// any other stream is reported as corrupt.
    pub fn replay(events: Vec<Event>) -> (r: Result<Circle, Error>)
        ensures
            replayable(views(events@)) ==> r is Ok && r->Ok_0@ == replay_spec(views(events@)),
            !replayable(views(events@)) ==> r == Err::<Circle, Error>(Error::Corrupt),
    {
        let ghost all = views(events@);
        if events.len() == 0 {
            return Err(Error::Corrupt);
        }
        let mut state = match &events[0].data {
            EventData::CircleCreated(_) => Self::from_created_event(&events[0]),
            EventData::CircleUpdated(_) => {
                return Err(Error::Corrupt);
            },
        };
        proof {
            assert(all.take(1).drop_last() =~= Seq::<EventView>::empty());
            assert(all.take(1).last() == all[0]);
            assert(fold_spec(blank(all[0].circle_id), all.take(1).drop_last()) == blank(
                all[0].circle_id,
            ));
        }
        let mut i: usize = 1;
        while i < events.len()
            invariant
                all == views(events@),
                1 <= i <= events.len(),
                state@ == fold_spec(blank(all[0].circle_id), all.take(i as int)),
                state@.version == all[i - 1].version,
                consecutive(all.take(i as int)),
                all[0].data is CircleCreated,
            decreases events.len() - i,
        {
            let event = &events[i];
            if !event.version.follows(&state.version) {
                proof {
                    assert(all[(i - 1) + 1].version != all[i - 1].version + 1);
                }
                return Err(Error::Corrupt);
            }
            proof {
                let before = all.take(i as int);
                let after = all.take(i + 1);
                assert(after.drop_last() =~= before);
                assert(after.last() == all[i as int]);
                assert forall|k: int| 0 <= k < after.len() - 1 implies (#[trigger] after[k
                    + 1]).version == after[k].version + 1 by {
                    if k < i - 1 {
                        assert(before[k + 1].version == before[k].version + 1);
                    }
                }
            }
            state.apply_event(event);
            i += 1;
        }
        proof {
            assert(all.take(i as int) =~= all);
        }
        Ok(state)
    }

    /// Creates a circle: checks the capacity, mints the circle's identity
    /// and returns the new state together with the event that records it.
    pub fn create(name: String, capacity: i16) -> (r: Result<(Circle, Event), Error>)
        ensures
            capacity < MIN_CAPACITY ==> r == Err::<(Circle, Event), Error>(Error::InvalidInput),
            capacity >= MIN_CAPACITY ==> r is Ok && ({
                let (circle, event) = r->Ok_0;
                &&& is_creation(circle@, event@)
                &&& event@.data == EventDataView::CircleCreated { name: name@, capacity }
                &&& is_minted_id(circle@.id)
                &&& is_minted_id(event@.id)
            }),
    {
        match Self::validate_capacity(capacity) {
            Err(e) => {
                return Err(e);
            },
            Ok(()) => {},
        }
        let event = Event::build(CircleId::gen(), Version::new()).circle_created(name, capacity);
        let state = Self::from_created_event(&event);
        Ok((state, event))
    }

    /// Updates a circle: checks the capacity if one is given, and returns
    /// the state at the next version together with the event that records
    /// the change. With both fields absent the version still advances.
    pub fn update(self, name: Option<String>, capacity: Option<i16>) -> (r: Result<
        (Circle, Event),
        Error,
    >)
        requires
            self@.version < u32::MAX,
        ensures
            (capacity matches Some(c) && c < MIN_CAPACITY) ==> r == Err::<(Circle, Event), Error>(
                Error::InvalidInput,
            ),
            !(capacity matches Some(c) && c < MIN_CAPACITY) ==> r is Ok && ({
                let (circle, event) = r->Ok_0;
                &&& is_update(self@, circle@, event@)
                &&& event@.data == EventDataView::CircleUpdated { name: text_view(name), capacity }
                &&& is_minted_id(event@.id)
            }),
    {
        if let Some(new_capacity) = capacity {
            match Self::validate_capacity(new_capacity) {
                Err(e) => {
                    return Err(e);
                },
                Ok(()) => {},
            }
        }
        let event = Event::build(self.id.clone(), self.version.next()).circle_updated(
            name,
            capacity,
        );
        let mut state = self;
        state.apply_event(&event);
        Ok((state, event))
    }

    /// The circle that a creation event alone describes.
    pub fn from_created_event(event: &Event) -> (circle: Circle)
        requires
            event@.data is CircleCreated,
        ensures
            circle@ == apply_spec(blank(event@.circle_id), event@),
    {
        match &event.data {
            EventData::CircleCreated(created) => Circle {
                id: event.circle_id.clone(),
                name: created.name.clone(),
                capacity: created.capacity,
                version: event.version,
            },
            EventData::CircleUpdated(_) => unreached(),
        }
    }

    /// Applies the next event to the circle. The event must produce the
    /// version that follows the circle's.
    pub fn apply_event(&mut self, event: &Event)
        requires
            event@.version == old(self)@.version + 1,
        ensures
            final(self)@ == apply_spec(old(self)@, event@),
    {
        match &event.data {
            EventData::CircleCreated(created) => {
                self.name = created.name.clone();
                self.capacity = created.capacity;
                self.version = event.version;
            },
            EventData::CircleUpdated(updated) => {
                if let Some(new_name) = &updated.name {
                    self.name = new_name.clone();
                }
                if let Some(new_capacity) = updated.capacity {
                    self.capacity = new_capacity;
                }
                self.version = event.version;
            },
        }
    }

    /// The circle's name.
    pub fn name(&self) -> (name: &str)
        ensures
            name@ == self@.name,
    {
        self.name.as_str()
    }

    /// Accepts a capacity of at least `MIN_CAPACITY`.
    pub fn validate_capacity(capacity: i16) -> (r: Result<(), Error>)
        ensures
            r == if capacity < MIN_CAPACITY {
                Err::<(), Error>(Error::InvalidInput)
            } else {
                Ok::<(), Error>(())
            },
    {
        if capacity < MIN_CAPACITY {
            Err(Error::InvalidInput)
        } else {
            Ok(())
        }
    }
}

} // verus!
