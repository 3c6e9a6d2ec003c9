//! Events as they are announced to other services: flat records that carry
//! their own identifiers and versions.

pub mod circle;
pub mod member;
