//! The events of a member.

use crate::aggregate::value_object::circle_id::CircleId;
use crate::aggregate::value_object::event_id::EventId;
use crate::aggregate::value_object::version::Version;
use vstd::prelude::*;
use vstd::std_specs::convert::FromSpecImpl;

verus! {

/// One event of one member.
#[derive(Debug)]
pub(crate) struct Event {
    pub data: EventData,
    pub member_id: CircleId,
    pub id: EventId,
    pub version: Version,
}

/// What happened to the member.
#[derive(Debug, PartialEq, Eq)]
pub enum EventData {
    MemberCreated(MemberCreated),
    MemberDeleted(MemberDeleted),
}

#[derive(Debug, PartialEq, Eq)]
pub struct MemberCreated {
    pub member_id: String,
    pub name: String,
    pub age: i16,
    pub grade: String,
    pub major: String,
    pub version: i64,
}

#[derive(Debug, PartialEq, Eq)]
pub struct MemberDeleted {
    pub member_id: String,
    pub version: i64,
}

impl From<MemberCreated> for EventData {
    fn from(created: MemberCreated) -> (r: EventData)
        ensures
            r == EventData::MemberCreated(created),
    {
        Self::MemberCreated(created)
    }
}

impl FromSpecImpl<MemberCreated> for EventData {
    open spec fn obeys_from_spec() -> bool {
        true
    }

    open spec fn from_spec(created: MemberCreated) -> EventData {
        EventData::MemberCreated(created)
    }
}

impl From<MemberDeleted> for EventData {
    fn from(deleted: MemberDeleted) -> (r: EventData)
        ensures
            r == EventData::MemberDeleted(deleted),
    {
        Self::MemberDeleted(deleted)
    }
}

impl FromSpecImpl<MemberDeleted> for EventData {
    open spec fn obeys_from_spec() -> bool {
        true
    }

    open spec fn from_spec(deleted: MemberDeleted) -> EventData {
        EventData::MemberDeleted(deleted)
    }
}

} // verus!
