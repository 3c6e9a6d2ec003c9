//! Wall-clock time. Timestamps are carried through the library without
//! being read: ordering is by version, never by time.

use chrono::NaiveDateTime;
use chrono::Utc;
use vstd::prelude::*;

verus! {

/// `chrono::NaiveDateTime`, a date and time without a time zone. Opaque to
/// the verifier: a value of it is only stored, copied and handed on.
#[verifier::external_type_specification]
#[verifier::external_body]
pub struct ExNaiveDateTime(chrono::NaiveDateTime);

/// Calls `chrono::Utc::now()` and `DateTime::naive_utc`. Trusted, with
/// nothing claimed of the result: it is the machine's clock at the moment
/// of the call. `Utc::now` panics when the system clock stands before the
/// Unix epoch.
#[verifier::external_body]
pub(crate) fn now_utc() -> NaiveDateTime {
    Utc::now().naive_utc()
}

} // verus!
