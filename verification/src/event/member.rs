//! Announcements about members.

use vstd::prelude::*;

verus! {

#[derive(Debug, PartialEq, Eq)]
pub enum MemberEvent {
    MemberCreated(MemberCreated),
    MemberDeleted(MemberDeleted),
}

#[derive(Debug, PartialEq, Eq)]
pub struct MemberCreated {
    pub member_id: String,
    pub name: String,
    pub age: i16,
    pub grade: i16,
    pub major: String,
    pub version: i64,
}

#[derive(Debug, PartialEq, Eq)]
pub struct MemberDeleted {
    pub member_id: String,
    pub version: i64,
}

} // verus!
