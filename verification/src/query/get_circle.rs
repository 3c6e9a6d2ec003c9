//! Reading one circle.

use crate::aggregate::circle::Circle;
use crate::aggregate::value_object::circle_id::{is_circle_id, CircleId};
use std::str::FromStr;
use vstd::prelude::*;

verus! {

/// How the query fails before anything is read.
#[derive(Clone, Copy, Debug, PartialEq, Eq, Structural)]
pub enum Error {
    /// The text is no circle identifier.
    InvalidCircleId,
}

#[derive(Debug)]
pub struct Input {
    pub circle_id: String,
}

/// The circle, if the cache holds it.
#[derive(Debug)]
pub struct Output(pub Option<Circle>);

/// Decides which circle is to be read from the cache.
pub fn handle(input: Input) -> (r: Result<CircleId, Error>)
    ensures
        is_circle_id(input.circle_id@) ==> r is Ok && r->Ok_0@ == input.circle_id@,
        !is_circle_id(input.circle_id@) ==> r == Err::<CircleId, Error>(Error::InvalidCircleId),
{
    match CircleId::from_str(input.circle_id.as_str()) {
        Ok(id) => Ok(id),
        Err(_) => Err(Error::InvalidCircleId),
    }
}

} // verus!
