//! The shapes that cross the HTTP surface, and what a result means there.

pub mod handler;
