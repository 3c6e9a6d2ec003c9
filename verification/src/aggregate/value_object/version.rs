//! The per-aggregate version counter, the optimistic-concurrency token.

use crate::text::{decimal, unsigned_decimal};
use vstd::prelude::*;
use vstd::std_specs::convert::FromSpecImpl;
use vstd::std_specs::convert::TryFromSpecImpl;

verus! {

/// Why a number could not be turned into a version, or a version into a number.
#[derive(Debug, PartialEq, Eq, Structural)]
pub enum Error {
    OutOfRange,
}

/// A version counter. The first event of an aggregate produces version 1.
#[derive(Clone, Copy, Debug, Eq, Ord, PartialEq, PartialOrd, Structural)]
pub struct Version(u32);

impl View for Version {
    type V = nat;

    closed spec fn view(&self) -> nat {
        self.0 as nat
    }
}

impl Version {
    /// The version as a `u32`, for contracts that need the machine value.
    pub closed spec fn value(self) -> u32 {
        self.0
    }

    /// The version that the first event of an aggregate produces.
    pub fn new() -> (v: Self)
        ensures
            v@ == 1,
    {
        Self(1)
    }

    /// Whether this version comes directly after `before`.
    pub fn follows(&self, before: &Version) -> (b: bool)
        ensures
            b == (self@ == before@ + 1),
    {
        self.0 > 0 && self.0 - 1 == before.0
    }

    /// Whether two versions are the same.
    pub fn same_as(&self, other: &Version) -> (b: bool)
        ensures
            b == (self@ == other@),
    {
        self.0 == other.0
    }

    /// The version that follows this one.
    pub fn next(&self) -> (v: Self)
        requires
            self@ < u32::MAX,
        ensures
            v@ == self@ + 1,
    {
        Self(self.0 + 1)
    }
}

impl From<Version> for u32 {
    fn from(version: Version) -> (n: u32)
        ensures
            n == version@,
    {
        version.0
    }
}

impl FromSpecImpl<Version> for u32 {
    open spec fn obeys_from_spec() -> bool {
        true
    }

    open spec fn from_spec(version: Version) -> u32 {
        version.value()
    }
}

impl From<u32> for Version {
    fn from(n: u32) -> (v: Version)
        ensures
            v@ == n,
    {
        Self(n)
    }
}

impl FromSpecImpl<u32> for Version {
    open spec fn obeys_from_spec() -> bool {
        true
    }

    closed spec fn from_spec(n: u32) -> Version {
        Version(n)
    }
}

impl From<Version> for i64 {
    fn from(version: Version) -> (n: i64)
        ensures
            n == version@,
    {
        version.0 as i64
    }
}

impl FromSpecImpl<Version> for i64 {
    open spec fn obeys_from_spec() -> bool {
        true
    }

    open spec fn from_spec(version: Version) -> i64 {
        version.value() as i64
    }
}

impl TryFrom<i64> for Version {
    type Error = Error;

    fn try_from(value: i64) -> (r: Result<Self, Error>)
        ensures
            0 <= value <= u32::MAX ==> r.is_ok() && r.unwrap()@ == value,
            !(0 <= value <= u32::MAX) ==> r == Err::<Version, Error>(Error::OutOfRange),
    {
        if value < 0 || value > u32::MAX as i64 {
            Err(Error::OutOfRange)
        } else {
            Ok(Self(value as u32))
        }
    }
}

impl TryFromSpecImpl<i64> for Version {
    open spec fn obeys_try_from_spec() -> bool {
        true
    }

    closed spec fn try_from_spec(value: i64) -> Result<Self, Error> {
        if 0 <= value <= u32::MAX {
            Ok(Version(value as u32))
        } else {
            Err(Error::OutOfRange)
        }
    }
}

impl TryFrom<i32> for Version {
    type Error = Error;

    fn try_from(value: i32) -> (r: Result<Self, Error>)
        ensures
            0 <= value ==> r.is_ok() && r.unwrap()@ == value,
            value < 0 ==> r == Err::<Version, Error>(Error::OutOfRange),
    {
        if value < 0 {
            Err(Error::OutOfRange)
        } else {
            Ok(Self(value as u32))
        }
    }
}

impl TryFromSpecImpl<i32> for Version {
    open spec fn obeys_try_from_spec() -> bool {
        true
    }

    closed spec fn try_from_spec(value: i32) -> Result<Self, Error> {
        if 0 <= value {
            Ok(Version(value as u32))
        } else {
            Err(Error::OutOfRange)
        }
    }
}

impl TryFrom<Version> for i32 {
    type Error = Error;

    fn try_from(version: Version) -> (r: Result<i32, Error>)
        ensures
            version@ <= i32::MAX ==> r == Ok::<i32, Error>(version@ as i32),
            version@ > i32::MAX ==> r == Err::<i32, Error>(Error::OutOfRange),
    {
        if version.0 > i32::MAX as u32 {
            Err(Error::OutOfRange)
        } else {
            Ok(version.0 as i32)
        }
    }
}

impl TryFromSpecImpl<Version> for i32 {
    open spec fn obeys_try_from_spec() -> bool {
        true
    }

    open spec fn try_from_spec(version: Version) -> Result<i32, Error> {
        if version.value() <= i32::MAX {
            Ok(version.value() as i32)
        } else {
            Err(Error::OutOfRange)
        }
    }
}

impl Version {
    /// The version in decimal, as it is shown to clients.
    pub fn to_string(&self) -> (s: String)
        ensures
            s@ == decimal(self@ as int),
    {
        unsigned_decimal(self.0 as u64)
    }
}

} // verus!
