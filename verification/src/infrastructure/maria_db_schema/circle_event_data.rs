//! A row of `circle_events`: one stored event.

use crate::aggregate::circle::event::{EventData, EventDataView};
use chrono::NaiveDateTime;
use vstd::prelude::*;

verus! {

/// One row of the event table. `payload` is the event's data, decoded from
/// the JSON column; `event_type` repeats its tag for queries.
#[derive(Debug)]
pub struct CircleEventData {
    pub id: String,
    pub circle_id: String,
    pub version: i32,
    pub event_type: String,
    pub payload: EventData,
    pub occurred_at: NaiveDateTime,
}

/// A row of the event table as mathematical values.
pub struct CircleEventDataView {
    pub id: Seq<char>,
    pub circle_id: Seq<char>,
    pub version: i32,
    pub event_type: Seq<char>,
    pub payload: EventDataView,
    pub occurred_at: NaiveDateTime,
}

impl View for CircleEventData {
    type V = CircleEventDataView;

    open spec fn view(&self) -> CircleEventDataView {
        CircleEventDataView {
            id: self.id@,
            circle_id: self.circle_id@,
            version: self.version,
            event_type: self.event_type@,
            payload: self.payload@,
            occurred_at: self.occurred_at,
        }
    }
}

impl Clone for CircleEventData {
    fn clone(&self) -> (r: Self)
        ensures
            r@ == self@,
    {
        CircleEventData {
            id: self.id.clone(),
            circle_id: self.circle_id.clone(),
            version: self.version,
            event_type: self.event_type.clone(),
            payload: self.payload.clone(),
            occurred_at: self.occurred_at,
        }
    }
}

/// The views of a sequence of rows, in order.
pub open spec fn row_views(rows: Seq<CircleEventData>) -> Seq<CircleEventDataView> {
    rows.map_values(|row: CircleEventData| row@)
}

} // verus!
