//! The identifier of a member.

use super::{is_minted_id, sample_alphanumeric, ID_LENGTH};
use std::str::FromStr;
use vstd::prelude::*;
use vstd::std_specs::convert::FromSpecImpl;

verus! {

/// An opaque member identifier. A minted one has 36 letters and digits; one
/// read back from storage is whatever text was stored.
#[derive(Debug, PartialEq, Eq)]
pub struct MemberId(String);

impl View for MemberId {
    type V = Seq<char>;

    closed spec fn view(&self) -> Seq<char> {
        self.0@
    }
}

impl Clone for MemberId {
    fn clone(&self) -> (r: Self)
        ensures
            r@ == self@,
    {
        Self(self.0.clone())
    }
}

impl MemberId {
    /// Mints a fresh random identifier.
    pub fn gen() -> (id: Self)
        ensures
            is_minted_id(id@),
    {
        Self(sample_alphanumeric(ID_LENGTH))
    }

    /// The identifier as text.
    pub fn to_string(&self) -> (s: String)
        ensures
            s@ == self@,
    {
        self.0.clone()
    }
}

impl FromStr for MemberId {
    type Err = core::convert::Infallible;

    fn from_str(s: &str) -> (r: Result<Self, Self::Err>)
        ensures
            r is Ok,
            r->Ok_0@ == s@,
    {
        Ok(Self(s.to_owned()))
    }
}

impl From<MemberId> for String {
    fn from(id: MemberId) -> (s: String)
        ensures
            s@ == id@,
    {
        id.0
    }
}

/// A `String` cannot be built in ghost code, so `from` states its result
/// over the view and this impl claims nothing beyond it.
impl FromSpecImpl<MemberId> for String {
    open spec fn obeys_from_spec() -> bool {
        false
    }

    open spec fn from_spec(id: MemberId) -> String {
        choose|s: String| s@ == id@
    }
}

} // verus!
