//! The commands: each one a short walk from validation over the event store
//! to the publisher. The library decides every step; the caller performs
//! what a step asks for and reports back what came of it.

use crate::aggregate::circle::{Circle, CircleView};
use crate::infrastructure::circle_repository::Error;
use vstd::prelude::*;

pub mod create_circle;
pub mod find_circle;
pub mod laws;
pub mod update_circle;

verus! {

/// What came of the work that a step asked for.
#[derive(Debug)]
pub enum Reply {
    /// The event store was asked for a circle.
    Loaded(Result<Circle, Error>),
    /// The duplicate checker was asked; `true` when no other circle has the
    /// name.
    DuplicateChecked(bool),
    /// The event store was asked to append.
    Stored(Result<(), Error>),
    /// The publisher was handed the events; `true` when it took them.
    Published(bool),
}

/// A reply as mathematical values.
pub enum ReplyView {
    Loaded(Result<CircleView, Error>),
    DuplicateChecked(bool),
    Stored(Result<(), Error>),
    Published(bool),
}

impl View for Reply {
    type V = ReplyView;

    open spec fn view(&self) -> ReplyView {
        match self {
            Reply::Loaded(Ok(circle)) => ReplyView::Loaded(Ok(circle@)),
            Reply::Loaded(Err(e)) => ReplyView::Loaded(Err(*e)),
            Reply::DuplicateChecked(unique) => ReplyView::DuplicateChecked(*unique),
            Reply::Stored(result) => ReplyView::Stored(*result),
            Reply::Published(delivered) => ReplyView::Published(*delivered),
        }
    }
}

} // verus!
