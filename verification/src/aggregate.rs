//! The circle aggregate and the value objects it is built from.

pub mod circle;
pub mod member;
pub mod value_object;
