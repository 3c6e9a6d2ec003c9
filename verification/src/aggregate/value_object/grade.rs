//! The school year of a member, first to fourth.

use vstd::prelude::*;
use vstd::std_specs::convert::FromSpecImpl;
use vstd::std_specs::convert::TryFromSpecImpl;

verus! {

/// Why a number is not a grade.
#[derive(Debug, PartialEq, Eq, Structural)]
pub enum Error {
    OutOfGrade,
}

#[derive(Copy, Debug, PartialEq, Eq, Hash, Clone, Structural)]
pub enum Grade {
    First,
    Second,
    Third,
    Fourth,
}

impl Grade {
    /// The number of the school year, 1 to 4.
    pub open spec fn number(self) -> int {
        match self {
            Grade::First => 1,
            Grade::Second => 2,
            Grade::Third => 3,
            Grade::Fourth => 4,
        }
    }

    /// The grade with the given number, if there is one.
    pub open spec fn of_number(value: int) -> Option<Grade> {
        if value == 1 {
            Some(Grade::First)
        } else if value == 2 {
            Some(Grade::Second)
        } else if value == 3 {
            Some(Grade::Third)
        } else if value == 4 {
            Some(Grade::Fourth)
        } else {
            None
        }
    }

    /// Turning a grade into its number and back gives the same grade, and a
    /// number that names a grade is the number of that grade.
    pub proof fn law_number_round_trip(grade: Grade, value: int)
        ensures
            Grade::of_number(grade.number()) == Some(grade),
            Grade::of_number(value) matches Some(g) ==> g.number() == value,
            Grade::of_number(value) is Some <==> 1 <= value <= 4,
    {
    }
}

impl From<Grade> for i16 {
    fn from(value: Grade) -> (n: i16)
        ensures
            n == value.number(),
    {
        match value {
            Grade::First => 1,
            Grade::Second => 2,
            Grade::Third => 3,
            Grade::Fourth => 4,
        }
    }
}

impl FromSpecImpl<Grade> for i16 {
    open spec fn obeys_from_spec() -> bool {
        true
    }

    open spec fn from_spec(value: Grade) -> i16 {
        value.number() as i16
    }
}

impl TryFrom<i16> for Grade {
    type Error = Error;

    fn try_from(value: i16) -> (r: Result<Self, Error>)
        ensures
            r == match Grade::of_number(value as int) {
                Some(g) => Ok::<Grade, Error>(g),
                None => Err::<Grade, Error>(Error::OutOfGrade),
            },
    {
        if value == 1 {
            Ok(Grade::First)
        } else if value == 2 {
            Ok(Grade::Second)
        } else if value == 3 {
            Ok(Grade::Third)
        } else if value == 4 {
            Ok(Grade::Fourth)
        } else {
            Err(Error::OutOfGrade)
        }
    }
}

impl TryFromSpecImpl<i16> for Grade {
    open spec fn obeys_try_from_spec() -> bool {
        true
    }

    open spec fn try_from_spec(value: i16) -> Result<Self, Error> {
        match Grade::of_number(value as int) {
            Some(g) => Ok(g),
            None => Err(Error::OutOfGrade),
        }
    }
}

} // verus!
