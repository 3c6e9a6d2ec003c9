//! The rules of storage: what a stored row means, when an append is
//! accepted, how a circle is read back, and what the read cache is told.
//! The database, the cache and the broker themselves are the caller's.

pub mod cdc;
pub mod circle_duplicate_checker;
pub mod circle_reader;
pub mod circle_repository;
pub mod circle_store;
pub mod event_log;
pub mod event_publisher;
pub mod laws;
pub mod maria_db_schema;
pub mod redis_circle_reader;
