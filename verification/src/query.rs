//! The queries: reads served from the read cache.

pub mod get_circle;
pub mod list_circles;
