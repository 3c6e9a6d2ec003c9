//! The field of study of a member.

use vstd::prelude::*;
use vstd::std_specs::convert::FromSpecImpl;

verus! {

/// A field of study, kept as the name it was given under.
#[derive(Debug, PartialEq, Eq)]
pub struct Major(String);

impl View for Major {
    type V = Seq<char>;

    closed spec fn view(&self) -> Seq<char> {
        self.0@
    }
}

impl Clone for Major {
    fn clone(&self) -> (r: Self)
        ensures
            r@ == self@,
    {
        Self(self.0.clone())
    }
}

impl<'a> From<&'a str> for Major {
    fn from(name: &'a str) -> (r: Self)
        ensures
            r@ == name@,
    {
        Self(name.to_owned())
    }
}

/// A `String` cannot be built in ghost code, so `from` states its result
/// over the view and this impl claims nothing beyond it.
impl<'a> FromSpecImpl<&'a str> for Major {
    open spec fn obeys_from_spec() -> bool {
        false
    }

    open spec fn from_spec(name: &'a str) -> Major {
        choose|r: Major| r@ == name@
    }
}

impl From<Major> for String {
    fn from(major: Major) -> (s: String)
        ensures
            s@ == major@,
    {
        major.0
    }
}

/// As above: the contract of `from` is the one stated over the view.
impl FromSpecImpl<Major> for String {
    open spec fn obeys_from_spec() -> bool {
        false
    }

    open spec fn from_spec(major: Major) -> String {
        choose|s: String| s@ == major@
    }
}

} // verus!
