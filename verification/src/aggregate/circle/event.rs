//! The events of a circle: immutable records of one state transition each,
//! identified by the circle and the version they produce.

use crate::aggregate::value_object::circle_id::CircleId;
use crate::aggregate::value_object::event_id::EventId;
use crate::aggregate::value_object::is_minted_id;
use crate::aggregate::value_object::version::Version;
use crate::clock::now_utc;
use chrono::NaiveDateTime;
use vstd::prelude::*;
use vstd::std_specs::convert::FromSpecImpl;

verus! {

/// The view of an optional text.
pub open spec fn text_view(text: Option<String>) -> Option<Seq<char>> {
    match text {
        Some(s) => Some(s@),
        None => None,
    }
}

/// Copies an optional text.
pub fn clone_text(text: &Option<String>) -> (r: Option<String>)
    ensures
        text_view(r) == text_view(*text),
{
    match text {
        Some(s) => Some(s.clone()),
        None => None,
    }
}

/// A circle came into being with this name and capacity.
#[derive(Debug, PartialEq, Eq)]
pub struct CircleCreated {
    pub name: String,
    pub capacity: i16,
}

/// A circle changed. An absent field leaves the circle's value as it was.
#[derive(Debug, PartialEq, Eq)]
pub struct CircleUpdated {
    pub name: Option<String>,
    pub capacity: Option<i16>,
}

/// What happened to the circle.
#[derive(Debug, PartialEq, Eq)]
pub enum EventData {
    CircleCreated(CircleCreated),
    CircleUpdated(CircleUpdated),
}

/// What happened to the circle, as mathematical values.
#[allow(inconsistent_fields)]
pub enum EventDataView {
    CircleCreated { name: Seq<char>, capacity: i16 },
    CircleUpdated { name: Option<Seq<char>>, capacity: Option<i16> },
}

impl View for EventData {
    type V = EventDataView;

    open spec fn view(&self) -> EventDataView {
        match self {
            EventData::CircleCreated(created) => EventDataView::CircleCreated {
                name: created.name@,
                capacity: created.capacity,
            },
            EventData::CircleUpdated(updated) => EventDataView::CircleUpdated {
                name: text_view(updated.name),
                capacity: updated.capacity,
            },
        }
    }
}

impl Clone for CircleCreated {
    fn clone(&self) -> (r: Self)
        ensures
            r.name@ == self.name@,
            r.capacity == self.capacity,
    {
        CircleCreated { name: self.name.clone(), capacity: self.capacity }
    }
}

impl Clone for CircleUpdated {
    fn clone(&self) -> (r: Self)
        ensures
            text_view(r.name) == text_view(self.name),
            r.capacity == self.capacity,
    {
        CircleUpdated { name: clone_text(&self.name), capacity: self.capacity }
    }
}

impl Clone for EventData {
    fn clone(&self) -> (r: Self)
        ensures
            r@ == self@,
    {
        match self {
            EventData::CircleCreated(created) => EventData::CircleCreated(created.clone()),
            EventData::CircleUpdated(updated) => EventData::CircleUpdated(updated.clone()),
        }
    }
}

impl From<CircleCreated> for EventData {
    fn from(created: CircleCreated) -> (r: EventData)
        ensures
            r == EventData::CircleCreated(created),
    {
        Self::CircleCreated(created)
    }
}

impl FromSpecImpl<CircleCreated> for EventData {
    open spec fn obeys_from_spec() -> bool {
        true
    }

    open spec fn from_spec(created: CircleCreated) -> EventData {
        EventData::CircleCreated(created)
    }
}

impl From<CircleUpdated> for EventData {
    fn from(updated: CircleUpdated) -> (r: EventData)
        ensures
            r == EventData::CircleUpdated(updated),
    {
        Self::CircleUpdated(updated)
    }
}

impl FromSpecImpl<CircleUpdated> for EventData {
    open spec fn obeys_from_spec() -> bool {
        true
    }

    open spec fn from_spec(updated: CircleUpdated) -> EventData {
        EventData::CircleUpdated(updated)
    }
}

/// One event of one circle.
#[derive(Debug)]
pub struct Event {
    pub circle_id: CircleId,
    pub data: EventData,
    pub id: EventId,
    /// When the event was recorded. Informational only.
    pub occurred_at: NaiveDateTime,
    /// The version of the circle that this event produces.
    pub version: Version,
}

/// An event as mathematical values.
pub struct EventView {
    pub circle_id: Seq<char>,
    pub data: EventDataView,
    pub id: Seq<char>,
    pub occurred_at: NaiveDateTime,
    pub version: nat,
}

impl View for Event {
    type V = EventView;

    open spec fn view(&self) -> EventView {
        EventView {
            circle_id: self.circle_id@,
            data: self.data@,
            id: self.id@,
            occurred_at: self.occurred_at,
            version: self.version@,
        }
    }
}

impl Clone for Event {
    fn clone(&self) -> (r: Self)
        ensures
            r@ == self@,
    {
        Event {
            circle_id: self.circle_id.clone(),
            data: self.data.clone(),
            id: self.id.clone(),
            occurred_at: self.occurred_at,
            version: self.version,
        }
    }
}

/// The views of a sequence of events, in order.
pub open spec fn views(events: Seq<Event>) -> Seq<EventView> {
    events.map_values(|e: Event| e@)
}

impl Event {
    /// Starts an event of the given circle at the given version: mints its
    /// identifier and stamps it with the current time.
    pub fn build(circle_id: CircleId, version: Version) -> (builder: EventBuilder)
        ensures
            builder.circle_id() == circle_id@,
            builder.version() == version@,
            is_minted_id(builder.id()),
    {
        EventBuilder { circle_id, id: EventId::gen(), occurred_at: now_utc(), version }
    }
}

/// An event that still lacks what happened.
pub struct EventBuilder {
    circle_id: CircleId,
    id: EventId,
    occurred_at: NaiveDateTime,
    version: Version,
}

impl EventBuilder {
    /// The circle the event will belong to.
    pub closed spec fn circle_id(&self) -> Seq<char> {
        self.circle_id@
    }

    /// The identifier the event will carry.
    pub closed spec fn id(&self) -> Seq<char> {
        self.id@
    }

    /// The time the event will carry.
    pub closed spec fn occurred_at(&self) -> NaiveDateTime {
        self.occurred_at
    }

    /// The version the event will produce.
    pub closed spec fn version(&self) -> nat {
        self.version@
    }

    /// The event with the given data and everything else from the builder.
    pub open spec fn with_data(&self, data: EventDataView) -> EventView {
        EventView {
            circle_id: self.circle_id(),
            data,
            id: self.id(),
            occurred_at: self.occurred_at(),
            version: self.version(),
        }
    }

    /// Completes the event as the creation of a circle.
    pub fn circle_created(self, name: String, capacity: i16) -> (event: Event)
        ensures
            event@ == self.with_data(EventDataView::CircleCreated { name: name@, capacity }),
    {
        Event {
            circle_id: self.circle_id,
            data: EventData::CircleCreated(CircleCreated { name, capacity }),
            id: self.id,
            occurred_at: self.occurred_at,
            version: self.version,
        }
    }

    /// Completes the event as an update of a circle.
    pub fn circle_updated(self, name: Option<String>, capacity: Option<i16>) -> (event: Event)
        ensures
            event@ == self.with_data(
                EventDataView::CircleUpdated { name: text_view(name), capacity },
            ),
    {
        Event {
            circle_id: self.circle_id,
            data: EventData::CircleUpdated(CircleUpdated { name, capacity }),
            id: self.id,
            occurred_at: self.occurred_at,
            version: self.version,
        }
    }
}

} // verus!
