//! Event-sourced circle management: the aggregate, the rules of its event
//! store, and the decisions of the command and projection pipeline, with
//! every function verified against its contract.

pub mod aggregate;
pub mod api;
pub mod clock;
pub mod command;
pub mod event;
pub mod infrastructure;
pub mod query;
pub mod text;
