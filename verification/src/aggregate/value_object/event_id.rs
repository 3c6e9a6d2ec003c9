//! The identifier of a single event.

use super::{is_minted_id, sample_alphanumeric, ID_LENGTH};
use crate::text::{decimal, signed_decimal};
use std::str::FromStr;
use vstd::prelude::*;
use vstd::std_specs::convert::FromSpecImpl;

verus! {

/// An opaque event identifier. A minted one has 36 letters and digits; one
/// read back from storage is whatever text was stored.
#[derive(Debug, PartialEq, Eq)]
pub struct EventId(String);

impl View for EventId {
    type V = Seq<char>;

    closed spec fn view(&self) -> Seq<char> {
        self.0@
    }
}

impl Clone for EventId {
    fn clone(&self) -> (r: Self)
        ensures
            r@ == self@,
    {
        Self(self.0.clone())
    }
}

impl EventId {
    /// Mints a fresh random identifier.
    pub fn gen() -> (id: Self)
        ensures
            is_minted_id(id@),
    {
        Self(sample_alphanumeric(ID_LENGTH))
    }

    /// The identifier as text.
    pub fn to_string(&self) -> (s: String)
        ensures
            s@ == self@,
    {
        self.0.clone()
    }
}

impl FromStr for EventId {
    type Err = core::convert::Infallible;

    fn from_str(s: &str) -> (r: Result<Self, Self::Err>)
        ensures
            r is Ok,
            r->Ok_0@ == s@,
    {
        Ok(Self(s.to_owned()))
    }
}

impl From<i16> for EventId {
    fn from(id: i16) -> (r: Self)
        ensures
            r@ == decimal(id as int),
    {
        Self(signed_decimal(id as i64))
    }
}

/// A `String` cannot be built in ghost code, so `from` states its result
/// over the view and this impl claims nothing beyond it.
impl FromSpecImpl<i16> for EventId {
    open spec fn obeys_from_spec() -> bool {
        false
    }

    open spec fn from_spec(id: i16) -> EventId {
        choose|r: EventId| r@ == decimal(id as int)
    }
}

impl From<EventId> for String {
    fn from(id: EventId) -> (s: String)
        ensures
            s@ == id@,
    {
        id.0
    }
}

/// As above: the contract of `from` is the one stated over the view.
impl FromSpecImpl<EventId> for String {
    open spec fn obeys_from_spec() -> bool {
        false
    }

    open spec fn from_spec(id: EventId) -> String {
        choose|s: String| s@ == id@
    }
}

} // verus!
