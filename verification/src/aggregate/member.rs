//! A member: a person who can belong to a circle.

use crate::aggregate::value_object::grade::Grade;
use crate::aggregate::value_object::is_minted_id;
use crate::aggregate::value_object::major::Major;
use crate::aggregate::value_object::member_id::MemberId;
use crate::aggregate::value_object::version::Version;
use vstd::prelude::*;

pub mod event;

verus! {

/// The age from which a member counts as an adult.
pub const ADULT_AGE: i16 = 20;

#[derive(Debug, PartialEq, Eq)]
pub struct Member {
    pub id: MemberId,
    pub name: String,
    pub age: i16,
    pub grade: Grade,
    pub major: Major,
    pub version: Version,
}

/// A member as mathematical values.
pub struct MemberView {
    pub id: Seq<char>,
    pub name: Seq<char>,
    pub age: i16,
    pub grade: Grade,
    pub major: Seq<char>,
    pub version: nat,
}

impl View for Member {
    type V = MemberView;

    open spec fn view(&self) -> MemberView {
        MemberView {
            id: self.id@,
            name: self.name@,
            age: self.age,
            grade: self.grade,
            major: self.major@,
            version: self.version@,
        }
    }
}

impl Clone for Member {
    fn clone(&self) -> (r: Self)
        ensures
            r@ == self@,
    {
        Member {
            id: self.id.clone(),
            name: self.name.clone(),
            age: self.age,
            grade: self.grade,
            major: self.major.clone(),
            version: self.version,
        }
    }
}

impl Member {
    /// A new member with a freshly minted identity, at version 1.
    pub fn create(name: String, age: i16, grade: Grade, major: Major) -> (member: Self)
        ensures
            is_minted_id(member@.id),
            member@ == (MemberView {
                id: member@.id,
                name: name@,
                age,
                grade,
                major: major@,
                version: 1,
            }),
    {
        Self { id: MemberId::gen(), name, age, grade, major, version: Version::new() }
    }

    /// A member put together again from stored values.
    pub fn reconstruct(
        id: MemberId,
        name: String,
        age: i16,
        grade: Grade,
        major: Major,
        version: Version,
    ) -> (member: Self)
        ensures
            member@ == (MemberView {
                id: id@,
                name: name@,
                age,
                grade,
                major: major@,
                version: version@,
            }),
    {
        Self { id, name, age, grade, major, version }
    }

    /// Whether the member has reached `ADULT_AGE`.
    pub fn is_adult(&self) -> (b: bool)
        ensures
            b == (self@.age >= ADULT_AGE),
    {
        self.age >= ADULT_AGE
    }
}

} // verus!
