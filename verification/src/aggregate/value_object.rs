//! Identifiers, counters and bounded enums.

use rand::distr::{Alphanumeric, SampleString};
use vstd::prelude::*;

pub mod circle_id;
pub mod event_id;
pub mod grade;
pub mod major;
pub mod member_id;
pub mod version;

verus! {

/// Number of characters in a freshly minted identifier.
pub const ID_LENGTH: usize = 36;

/// Whether a character is an ASCII letter or digit.
pub open spec fn is_alphanumeric(c: char) -> bool {
    let n = c as u32;
    (48 <= n <= 57) || (65 <= n <= 90) || (97 <= n <= 122)
}

/// Whether a text consists of ASCII letters and digits only.
pub open spec fn all_alphanumeric(s: Seq<char>) -> bool {
    forall|i: int| 0 <= i < s.len() ==> is_alphanumeric(#[trigger] s[i])
}

/// Whether a text has the shape of a freshly minted identifier.
pub open spec fn is_minted_id(s: Seq<char>) -> bool {
    s.len() == ID_LENGTH && all_alphanumeric(s)
}

/// Calls `rand::rng()` and `Alphanumeric.sample_string` from the `rand`
/// crate. Trusted, not proved: the result has exactly `len` characters,
/// each one drawn from the ASCII letters and digits. Which characters come
/// out depends on the thread's random generator, so nothing more is
/// claimed. `rand::rng` panics where the generator cannot be seeded from
/// the operating system.
#[verifier::external_body]
pub(crate) fn sample_alphanumeric(len: usize) -> (s: String)
    ensures
        s@.len() == len,
        all_alphanumeric(s@),
{
    let mut rng = rand::rng();
    Alphanumeric.sample_string(&mut rng, len)
}

} // verus!
