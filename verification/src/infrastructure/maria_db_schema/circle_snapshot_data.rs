//! A row of `circle_snapshots`: the state of a circle at a known version.

use super::Error;
use crate::aggregate::circle::{Circle, CircleView};
use crate::aggregate::value_object::circle_id::{is_circle_id, CircleId};
use crate::aggregate::value_object::version::Version;
use chrono::NaiveDateTime;
use std::str::FromStr;
use vstd::prelude::*;

verus! {

/// One row of the snapshot table.
#[derive(Debug)]
pub struct CircleSnapshotData {
    /// The row's own number, assigned by the database.
    pub id: i64,
    pub circle_id: String,
    /// The version of the circle when the snapshot was taken.
    pub version: i32,
    /// The whole state of the circle, decoded from the JSON column.
    pub state: State,
    pub created_at: NaiveDateTime,
}

/// The state of a circle in the shape it is stored in.
#[derive(Debug)]
pub struct State {
    pub id: String,
    pub name: String,
    pub capacity: i16,
    pub version: i32,
}

/// A stored state as mathematical values.
pub struct StateView {
    pub id: Seq<char>,
    pub name: Seq<char>,
    pub capacity: i16,
    pub version: i32,
}

impl View for State {
    type V = StateView;

    open spec fn view(&self) -> StateView {
        StateView {
            id: self.id@,
            name: self.name@,
            capacity: self.capacity,
            version: self.version,
        }
    }
}

impl Clone for State {
    fn clone(&self) -> (r: Self)
        ensures
            r@ == self@,
    {
        State {
            id: self.id.clone(),
            name: self.name.clone(),
            capacity: self.capacity,
            version: self.version,
        }
    }
}

/// The stored shape of a circle, if its version fits the column.
pub open spec fn state_of(circle: CircleView) -> Result<StateView, Error> {
    if circle.version <= i32::MAX {
        Ok(
            StateView {
                id: circle.id,
                name: circle.name,
                capacity: circle.capacity,
                version: circle.version as i32,
            },
        )
    } else {
        Err(Error::VersionOutOfRange)
    }
}

/// The circle that a stored state describes, if the state is sound.
pub open spec fn circle_of(state: StateView) -> Result<CircleView, Error> {
    if !is_circle_id(state.id) {
        Err(Error::MalformedId)
    } else if state.version < 0 {
        Err(Error::VersionOutOfRange)
    } else {
        Ok(
            CircleView {
                id: state.id,
                name: state.name,
                capacity: state.capacity,
                version: state.version as nat,
            },
        )
    }
}

impl State {
    /// The state of a circle in its stored shape.
    pub fn from_circle(circle: &Circle) -> (r: Result<Self, Error>)
        ensures
            match state_of(circle@) {
                Ok(state) => r is Ok && r->Ok_0@ == state,
                Err(e) => r == Err::<State, Error>(e),
            },
    {
        let circle_id = circle.id.to_string();
        let name = circle.name.clone();
        let capacity = circle.capacity;
        let version = match i32::try_from(circle.version) {
            Ok(v) => v,
            Err(_) => {
                return Err(Error::VersionOutOfRange);
            },
        };
        Ok(Self { id: circle_id, name, capacity, version })
    }

    /// The circle that this stored state describes.
    pub fn to_circle(&self) -> (r: Result<Circle, Error>)
        ensures
            match circle_of(self@) {
                Ok(circle) => r is Ok && r->Ok_0@ == circle,
                Err(e) => r == Err::<Circle, Error>(e),
            },
    {
        let circle_id = match CircleId::from_str(self.id.as_str()) {
            Ok(id) => id,
            Err(_) => {
                return Err(Error::MalformedId);
            },
        };
        let version = match Version::try_from(self.version) {
            Ok(v) => v,
            Err(_) => {
                return Err(Error::VersionOutOfRange);
            },
        };
        Ok(restore_from_snapshot(circle_id, self.name.clone(), self.capacity, version))
    }
}

/// A circle put together again from the values of a snapshot.
pub fn restore_from_snapshot(
    circle_id: CircleId,
    name: String,
    capacity: i16,
    version: Version,
) -> (circle: Circle)
    ensures
        circle@ == (CircleView {
            id: circle_id@,
            name: name@,
            capacity,
            version: version@,
        }),
{
    Circle { id: circle_id, name, capacity, version }
}

/// Storing a circle and reading it back gives the same circle, and storing
/// succeeds exactly when the version fits the column.
pub proof fn law_state_round_trip(circle: CircleView)
    requires
        is_circle_id(circle.id),
    ensures
        state_of(circle) is Ok <==> circle.version <= i32::MAX,
        state_of(circle) matches Ok(state) ==> circle_of(state) == Ok::<CircleView, Error>(circle),
{
}

} // verus!
