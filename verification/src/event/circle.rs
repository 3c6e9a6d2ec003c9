//! Announcements about circles.

use vstd::prelude::*;

verus! {

#[derive(Debug, PartialEq, Eq)]
pub enum CircleEvent {
    CircleCreated(CircleCreated),
    CircleDeleted(CircleDeleted),
}

#[derive(Debug, PartialEq, Eq)]
pub struct CircleCreated {
    pub circle_id: String,
    pub name: String,
    pub capacity: i16,
    pub version: i64,
}

#[derive(Debug, PartialEq, Eq)]
pub struct CircleDeleted {
    pub circle_id: String,
    pub version: i64,
}

} // verus!
