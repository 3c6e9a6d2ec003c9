//! A row of `circle_projections`: the read-side copy of a circle.

use super::circle_snapshot_data::{circle_of, state_of, StateView};
use super::Error;
use crate::aggregate::circle::Circle;
use crate::aggregate::value_object::circle_id::CircleId;
use crate::aggregate::value_object::version::Version;
use std::str::FromStr;
use vstd::prelude::*;
use vstd::std_specs::convert::TryFromSpecImpl;

verus! {

#[derive(Debug)]
pub struct CircleProtectionData {
    pub circle_id: String,
    pub name: String,
    pub capacity: i16,
    pub version: i32,
}

impl CircleProtectionData {
    /// The row as the stored state it holds.
    pub open spec fn state(&self) -> StateView {
        StateView {
            id: self.circle_id@,
            name: self.name@,
            capacity: self.capacity,
            version: self.version,
        }
    }
}

impl TryFrom<CircleProtectionData> for Circle {
    type Error = Error;

    fn try_from(data: CircleProtectionData) -> (r: Result<Circle, Error>)
        ensures
            match circle_of(data.state()) {
                Ok(circle) => r is Ok && r->Ok_0@ == circle,
                Err(e) => r == Err::<Circle, Error>(e),
            },
    {
        let circle_id = match CircleId::from_str(data.circle_id.as_str()) {
            Ok(id) => id,
            Err(_) => {
                return Err(Error::MalformedId);
            },
        };
        let version = match Version::try_from(data.version) {
            Ok(v) => v,
            Err(_) => {
                return Err(Error::VersionOutOfRange);
            },
        };
        Ok(Circle { id: circle_id, name: data.name, capacity: data.capacity, version })
    }
}

/// A `String` cannot be built in ghost code, so `try_from` states its
/// result over the view and this impl claims nothing beyond it.
impl TryFromSpecImpl<CircleProtectionData> for Circle {
    open spec fn obeys_try_from_spec() -> bool {
        false
    }

    open spec fn try_from_spec(data: CircleProtectionData) -> Result<Circle, Error> {
        match circle_of(data.state()) {
            Ok(circle) => Ok(choose|c: Circle| c@ == circle),
            Err(e) => Err(e),
        }
    }
}

impl TryFrom<Circle> for CircleProtectionData {
    type Error = Error;

    fn try_from(circle: Circle) -> (r: Result<CircleProtectionData, Error>)
        ensures
            match state_of(circle@) {
                Ok(state) => r is Ok && r->Ok_0.state() == state,
                Err(e) => r == Err::<CircleProtectionData, Error>(e),
            },
    {
        let circle_id = circle.id.to_string();
        let name = circle.name;
        let capacity = circle.capacity;
        let version = match i32::try_from(circle.version) {
            Ok(v) => v,
            Err(_) => {
                return Err(Error::VersionOutOfRange);
            },
        };
        Ok(Self { circle_id, name, capacity, version })
    }
}

/// As above: the contract of `try_from` is the one stated over the view.
impl TryFromSpecImpl<Circle> for CircleProtectionData {
    open spec fn obeys_try_from_spec() -> bool {
        false
    }

    open spec fn try_from_spec(circle: Circle) -> Result<CircleProtectionData, Error> {
        match state_of(circle@) {
            Ok(state) => Ok(choose|d: CircleProtectionData| d.state() == state),
            Err(e) => Err(e),
        }
    }
}

} // verus!
