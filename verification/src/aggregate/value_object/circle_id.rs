//! The identifier of a circle, the aggregate's identity.

use super::{is_minted_id, sample_alphanumeric, ID_LENGTH};
use std::str::FromStr;
use vstd::prelude::*;
use vstd::std_specs::convert::FromSpecImpl;
use vstd::string::StrSliceExecFns;

verus! {

/// Why a text is not a circle identifier.
#[derive(Clone, Copy, Debug, PartialEq, Eq, Structural)]
pub enum Error {
    /// The text does not have 36 characters.
    Malformed,
}

/// An opaque circle identifier of exactly 36 characters, assigned when the
/// circle is created and never changed afterwards.
#[derive(Debug, PartialEq, Eq)]
pub struct CircleId(String);

impl View for CircleId {
    type V = Seq<char>;

    closed spec fn view(&self) -> Seq<char> {
        self.0@
    }
}

impl Clone for CircleId {
    fn clone(&self) -> (r: Self)
        ensures
            r@ == self@,
    {
        Self(self.0.clone())
    }
}

/// Whether a text can be a circle identifier.
pub open spec fn is_circle_id(s: Seq<char>) -> bool {
    s.len() == ID_LENGTH
}

impl CircleId {
    /// Mints a fresh random identifier.
    pub fn gen() -> (id: Self)
        ensures
            is_minted_id(id@),
            is_circle_id(id@),
    {
        Self(sample_alphanumeric(ID_LENGTH))
    }

    /// The identifier as text.
    pub fn to_string(&self) -> (s: String)
        ensures
            s@ == self@,
    {
        self.0.clone()
    }

    /// Whether two identifiers are the same text.
    pub fn same_as(&self, other: &CircleId) -> (b: bool)
        ensures
            b == (self@ == other@),
    {
        self.0 == other.0
    }
}

impl FromStr for CircleId {
    type Err = Error;

    fn from_str(s: &str) -> (r: Result<Self, Error>)
        ensures
            is_circle_id(s@) ==> r is Ok && r->Ok_0@ == s@,
            !is_circle_id(s@) ==> r == Err::<CircleId, Error>(Error::Malformed),
    {
        if s.unicode_len() == ID_LENGTH {
            Ok(Self(s.to_owned()))
        } else {
            Err(Error::Malformed)
        }
    }
}

impl From<CircleId> for String {
    fn from(id: CircleId) -> (s: String)
        ensures
            s@ == id@,
    {
        id.0
    }
}

/// A `String` cannot be built in ghost code, so `from` states its result
/// over the view and this impl claims nothing beyond it.
impl FromSpecImpl<CircleId> for String {
    open spec fn obeys_from_spec() -> bool {
        false
    }

    open spec fn from_spec(id: CircleId) -> String {
        choose|s: String| s@ == id@
    }
}

} // verus!
