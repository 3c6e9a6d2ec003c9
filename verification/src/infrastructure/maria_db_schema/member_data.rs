//! A row of `members`.

use super::Error;
use crate::aggregate::member::{Member, MemberView};
use crate::aggregate::value_object::grade::Grade;
use crate::aggregate::value_object::major::Major;
use crate::aggregate::value_object::member_id::MemberId;
use crate::aggregate::value_object::version::Version;
use std::str::FromStr;
use vstd::prelude::*;
use vstd::std_specs::convert::FromSpecImpl;
use vstd::std_specs::convert::TryFromSpecImpl;

verus! {

#[derive(Debug)]
pub struct MemberData {
    pub id: String,
    pub name: String,
    pub age: i16,
    pub grade: i16,
    pub major: String,
    pub version: u32,
}

/// A row of `members` as mathematical values.
pub struct MemberDataView {
    pub id: Seq<char>,
    pub name: Seq<char>,
    pub age: i16,
    pub grade: i16,
    pub major: Seq<char>,
    pub version: u32,
}

impl View for MemberData {
    type V = MemberDataView;

    open spec fn view(&self) -> MemberDataView {
        MemberDataView {
            id: self.id@,
            name: self.name@,
            age: self.age,
            grade: self.grade,
            major: self.major@,
            version: self.version,
        }
    }
}

impl Clone for MemberData {
    fn clone(&self) -> (r: Self)
        ensures
            r@ == self@,
    {
        MemberData {
            id: self.id.clone(),
            name: self.name.clone(),
            age: self.age,
            grade: self.grade,
            major: self.major.clone(),
            version: self.version,
        }
    }
}

/// The row that holds a member.
pub open spec fn row_of_member(member: MemberView) -> MemberDataView {
    MemberDataView {
        id: member.id,
        name: member.name,
        age: member.age,
        grade: member.grade.number() as i16,
        major: member.major,
        version: member.version as u32,
    }
}

/// The member that a row holds, if the row's grade is one.
pub open spec fn member_of_row(row: MemberDataView) -> Result<MemberView, Error> {
    match Grade::of_number(row.grade as int) {
        Some(grade) => Ok(
            MemberView {
                id: row.id,
                name: row.name,
                age: row.age,
                grade,
                major: row.major,
                version: row.version as nat,
            },
        ),
        None => Err(Error::GradeOutOfRange),
    }
}

impl From<Member> for MemberData {
    fn from(value: Member) -> (data: MemberData)
        ensures
            data@ == row_of_member(value@),
    {
        Self {
            id: value.id.into(),
            name: value.name,
            age: value.age,
            grade: value.grade.into(),
            major: value.major.into(),
            version: value.version.into(),
        }
    }
}

/// A `String` cannot be built in ghost code, so `from` states its result
/// over the view and this impl claims nothing beyond it.
impl FromSpecImpl<Member> for MemberData {
    open spec fn obeys_from_spec() -> bool {
        false
    }

    open spec fn from_spec(value: Member) -> MemberData {
        choose|d: MemberData| d@ == row_of_member(value@)
    }
}

impl TryFrom<MemberData> for Member {
    type Error = Error;

    fn try_from(value: MemberData) -> (r: Result<Member, Error>)
        ensures
            match member_of_row(value@) {
                Ok(member) => r is Ok && r->Ok_0@ == member,
                Err(e) => r == Err::<Member, Error>(e),
            },
    {
        let id = match MemberId::from_str(value.id.as_str()) {
            Ok(id) => id,
            Err(_) => {
                return Err(Error::MalformedId);
            },
        };
        let grade = match Grade::try_from(value.grade) {
            Ok(grade) => grade,
            Err(_) => {
                return Err(Error::GradeOutOfRange);
            },
        };
        Ok(
            Member::reconstruct(
                id,
                value.name,
                value.age,
                grade,
                Major::from(value.major.as_str()),
                Version::from(value.version),
            ),
        )
    }
}

/// As above: the contract of `try_from` is the one stated over the view.
impl TryFromSpecImpl<MemberData> for Member {
    open spec fn obeys_try_from_spec() -> bool {
        false
    }

    open spec fn try_from_spec(value: MemberData) -> Result<Member, Error> {
        match member_of_row(value@) {
            Ok(member) => Ok(choose|m: Member| m@ == member),
            Err(e) => Err(e),
        }
    }
}

/// A member written to a row and read back is the same member.
pub proof fn law_member_round_trip(member: MemberView)
    requires
        member.version <= u32::MAX,
    ensures
        member_of_row(row_of_member(member)) == Ok::<MemberView, Error>(member),
{
}

} // verus!
