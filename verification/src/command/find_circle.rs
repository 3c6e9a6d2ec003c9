//! Looking a circle up by its identifier.

use vstd::prelude::*;
use vstd::std_specs::convert::FromSpecImpl;

verus! {

/// How the lookup fails.
#[derive(Clone, Copy, Debug, PartialEq, Eq, Structural)]
pub enum Error {
    CircleNotFound,
}

impl From<Error> for String {
    fn from(e: Error) -> (message: String)
        ensures
            message@ == "circle not found"@,
    {
        match e {
            Error::CircleNotFound => "circle not found".to_owned(),
        }
    }
}

/// A `String` cannot be built in ghost code, so `from` states its result
/// over the view and this impl claims nothing beyond it.
impl FromSpecImpl<Error> for String {
    open spec fn obeys_from_spec() -> bool {
        false
    }

    open spec fn from_spec(e: Error) -> String {
        choose|s: String| (#[trigger] s@) == "circle not found"@
    }
}

#[derive(Debug)]
pub struct Input {
    pub circle_id: String,
}

#[derive(Debug)]
pub struct Output {
    pub circle_name: String,
    pub owner_name: String,
    pub owner_age: i16,
    pub owner_grade: i16,
    pub owner_major: String,
}

} // verus!
