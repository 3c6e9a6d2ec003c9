//! What holds of the commands when they meet the event store.

use crate::aggregate::circle::event::EventView;
use crate::aggregate::circle::{is_update, CircleView};
use crate::command::update_circle::{follows, Error, StepView};
use crate::command::ReplyView;
use crate::infrastructure::circle_repository::{gap_free_from, store_spec};
use crate::infrastructure::circle_repository;
use vstd::prelude::*;

verus! {

/// Two updates of the same circle that both loaded it at the version the
/// stream stands at, and both name that version as the one their client
/// saw: the one whose append comes first goes on to publish, the other ends
/// with a version mismatch, and the stream holds exactly one more event.
pub proof fn law_racing_updates_one_succeeds(
    stream: Seq<EventView>,
    loaded: CircleView,
    first: (CircleView, EventView),
    second: (CircleView, EventView),
    after_first: StepView,
    after_second: StepView,
)
    requires
        gap_free_from(0, stream),
        loaded.version == stream.len(),
        loaded.version + 1 <= i32::MAX,
        is_update(loaded, first.0, first.1),
        is_update(loaded, second.0, second.1),
        follows(
            StepView::Store { circle: first.0, event: first.1, version: loaded.version },
            ReplyView::Stored(store_spec(Some(loaded.version), stream.len(), seq![first.1])),
            after_first,
        ),
        follows(
            StepView::Store { circle: second.0, event: second.1, version: loaded.version },
            ReplyView::Stored(
                store_spec(Some(loaded.version), (stream + seq![first.1]).len(), seq![second.1]),
            ),
            after_second,
        ),
    ensures
        after_first == (StepView::Publish { circle: first.0, event: first.1 }),
        after_second == StepView::Done(Err(Error::VersionMismatch)),
        (stream + seq![first.1]).len() == stream.len() + 1,
        gap_free_from(0, stream + seq![first.1]),
{
    let joined = stream + seq![first.1];
    assert(store_spec(Some(loaded.version), stream.len(), seq![first.1]) == Ok::<
        (),
        circle_repository::Error,
    >(()));
    assert forall|i: int| 0 <= i < joined.len() implies (#[trigger] joined[i]).version == 0 + i
        + 1 by {}
}

/// An update never asks for an append under another version than the one
/// the client saw, and never without having loaded the circle at exactly
/// that version.
pub proof fn law_update_appends_under_the_version_seen(
    step: StepView,
    reply: ReplyView,
    next: StepView,
)
    requires
        follows(step, reply, next),
        next is Store,
    ensures
        match step {
            StepView::Load { version, .. } => next->Store_version == version && (
            reply matches ReplyView::Loaded(Ok(loaded)) && loaded.version == version
                && is_update(loaded, next->Store_circle, next->Store_event)),
            StepView::CheckDuplicate { circle, event, loaded, version } => next
                == (StepView::Store { circle, event, version }) && loaded == version && reply
                == ReplyView::DuplicateChecked(true),
            _ => false,
        },
{
}

} // verus!
