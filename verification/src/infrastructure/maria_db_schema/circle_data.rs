//! A row of `circles`: the current state of a circle, kept flat.

use super::Error;
use crate::aggregate::circle::{Circle, CircleView};
use crate::aggregate::value_object::circle_id::{is_circle_id, CircleId};
use crate::aggregate::value_object::version::Version;
use std::str::FromStr;
use vstd::prelude::*;
use vstd::std_specs::convert::FromSpecImpl;
use vstd::std_specs::convert::TryFromSpecImpl;

verus! {

#[derive(Debug)]
pub struct CircleData {
    pub id: String,
    pub name: String,
    pub capacity: i16,
    pub version: u32,
}

/// A row of `circles` as mathematical values.
pub struct CircleDataView {
    pub id: Seq<char>,
    pub name: Seq<char>,
    pub capacity: i16,
    pub version: u32,
}

impl View for CircleData {
    type V = CircleDataView;

    open spec fn view(&self) -> CircleDataView {
        CircleDataView {
            id: self.id@,
            name: self.name@,
            capacity: self.capacity,
            version: self.version,
        }
    }
}

impl TryFrom<CircleData> for Circle {
    type Error = Error;

    fn try_from(data: CircleData) -> (r: Result<Circle, Error>)
        ensures
            is_circle_id(data@.id) ==> r is Ok && r->Ok_0@ == (CircleView {
                id: data@.id,
                name: data@.name,
                capacity: data@.capacity,
                version: data@.version as nat,
            }),
            !is_circle_id(data@.id) ==> r == Err::<Circle, Error>(Error::MalformedId),
    {
        let circle_id = match CircleId::from_str(data.id.as_str()) {
            Ok(id) => id,
            Err(_) => {
                return Err(Error::MalformedId);
            },
        };
        let version = Version::from(data.version);
        Ok(Circle { id: circle_id, name: data.name, capacity: data.capacity, version })
    }
}

/// A `String` cannot be built in ghost code, so `try_from` states its
/// result over the view and this impl claims nothing beyond it.
impl TryFromSpecImpl<CircleData> for Circle {
    open spec fn obeys_try_from_spec() -> bool {
        false
    }

    open spec fn try_from_spec(data: CircleData) -> Result<Circle, Error> {
        if is_circle_id(data@.id) {
            Ok(
                choose|c: Circle|
                    c@ == (CircleView {
                        id: data@.id,
                        name: data@.name,
                        capacity: data@.capacity,
                        version: data@.version as nat,
                    }),
            )
        } else {
            Err(Error::MalformedId)
        }
    }
}

impl From<Circle> for CircleData {
    fn from(circle: Circle) -> (data: CircleData)
        ensures
            data@ == (CircleDataView {
                id: circle@.id,
                name: circle@.name,
                capacity: circle@.capacity,
                version: circle@.version as u32,
            }),
    {
        Self {
            id: circle.id.into(),
            name: circle.name,
            capacity: circle.capacity,
            version: circle.version.into(),
        }
    }
}

/// As above: the contract of `from` is the one stated over the view.
impl FromSpecImpl<Circle> for CircleData {
    open spec fn obeys_from_spec() -> bool {
        false
    }

    open spec fn from_spec(circle: Circle) -> CircleData {
        choose|d: CircleData|
            d@ == (CircleDataView {
                id: circle@.id,
                name: circle@.name,
                capacity: circle@.capacity,
                version: circle@.version as u32,
            })
    }
}

} // verus!
