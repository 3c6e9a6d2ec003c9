//! The rows of the database as plain values, and their conversion to and
//! from the domain's types.

use vstd::prelude::*;

pub mod circle_data;
pub mod circle_event_data;
pub mod circle_protection_data;
pub mod circle_snapshot_data;
pub mod member_data;

pub use circle_event_data::CircleEventData;
pub use circle_snapshot_data::CircleSnapshotData;

verus! {

/// Why a row and a domain value could not be converted into one another.
#[derive(Clone, Copy, Debug, PartialEq, Eq, Structural)]
pub enum Error {
    /// The stored text is not a circle identifier.
    MalformedId,
    /// The version does not fit the column, or the column holds no version.
    VersionOutOfRange,
    /// The stored number is not a grade.
    GradeOutOfRange,
}

} // verus!
