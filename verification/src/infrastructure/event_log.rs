//! The stream of one circle's events, held in memory: the event table as
//! the store's rules see it.

use crate::aggregate::circle::event::{views, Event, EventView};
use crate::aggregate::circle::Circle;
use crate::aggregate::value_object::version::Version;
use crate::infrastructure::circle_repository::{
    check_store, gap_free_from, rebuild, rebuild_spec, snapshot_view, store_spec, version_view,
    Error,
};
use vstd::prelude::*;

verus! {

/// The events of one circle in the order they were appended. Whatever is
/// appended, the versions in the stream are 1, 2, 3, ... without a gap.
pub struct EventLog {
    events: Vec<Event>,
}

impl View for EventLog {
    type V = Seq<EventView>;

    closed spec fn view(&self) -> Seq<EventView> {
        views(self.events@)
    }
}

/// What of a stream lies after version `base`.
pub open spec fn tail_after(stream: Seq<EventView>, base: nat) -> Seq<EventView> {
    if base <= stream.len() {
        stream.skip(base as int)
    } else {
        Seq::empty()
    }
}

impl EventLog {
    #[verifier::type_invariant]
    spec fn versions_count_up(self) -> bool {
        gap_free_from(0, views(self.events@)) && self.events.len() <= i32::MAX
    }

    /// A stream without events.
    pub fn new() -> (log: Self)
        ensures
            log@ == Seq::<EventView>::empty(),
    {
        let log = EventLog { events: Vec::new() };
        assert(views(log.events@) =~= Seq::<EventView>::empty());
        log
    }

    /// The version the stream stands at: that of its last event, which is
    /// the number of its events; 0 for a stream without events.
    pub fn current_version(&self) -> (current: u32)
        ensures
            current == self@.len(),
            gap_free_from(0, self@),
    {
        proof {
            use_type_invariant(self);
        }
        self.events.len() as u32
    }

    /// Appends a batch under the store's rules: it is added as a whole or
    /// not at all, and the stream's versions go on counting up.
    pub fn append(&mut self, expected: Option<Version>, events: Vec<Event>) -> (r: Result<
        (),
        Error,
    >)
        ensures
            r == store_spec(version_view(expected), old(self)@.len(), views(events@)),
            r is Ok ==> final(self)@ == old(self)@ + views(events@),
            r is Err ==> final(self)@ == old(self)@,
            gap_free_from(0, final(self)@),
    {
        proof {
            use_type_invariant(&*self);
        }
        let current = self.current_version();
        match check_store(expected, current, &events) {
            Ok(()) => {},
            Err(e) => {
                return Err(e);
            },
        }
        let ghost before = views(self.events@);
        let ghost batch = views(events@);
        let mut events = events;
        proof {
            assert(views(self.events@ + events@) =~= before + batch);
            assert forall|i: int| 0 <= i < (before + batch).len() implies (#[trigger] (before
                + batch)[i]).version == 0 + i + 1 by {
                if i >= before.len() {
                    assert(batch[i - before.len()].version == current + (i - before.len()) + 1);
                }
            }
        }
        let mut merged: Vec<Event> = Vec::new();
        proof {
            assert(views(merged@) =~= Seq::<EventView>::empty());
        }
        core::mem::swap(&mut self.events, &mut merged);
        merged.append(&mut events);
        self.events = merged;
        Ok(())
    }

    /// The events after version `base`, in ascending order of version.
    pub fn events_after(&self, base: Version) -> (tail: Vec<Event>)
        ensures
            views(tail@) == tail_after(self@, base@),
    {
        let mut tail: Vec<Event> = Vec::new();
        let start = u32::from(base) as usize;
        if start > self.events.len() {
            assert(views(tail@) =~= tail_after(self@, base@));
            return tail;
        }
        let mut i: usize = start;
        while i < self.events.len()
            invariant
                start <= i <= self.events.len(),
                tail.len() == i - start,
                forall|k: int| 0 <= k < tail.len() ==> (#[trigger] tail[k])@ == self.events[start + k]@,
            decreases self.events.len() - i,
        {
            tail.push(self.events[i].clone());
            i += 1;
        }
        assert(views(tail@) =~= tail_after(self@, base@));
        tail
    }

    /// All events of the stream, in order.
    pub fn events(&self) -> (all: Vec<Event>)
        ensures
            views(all@) == self@,
            gap_free_from(0, self@),
    {
        proof {
            use_type_invariant(self);
        }
        let all = self.events_after(Version::from(0u32));
        assert(self@.skip(0) =~= self@);
        all
    }

    /// Reads the circle back: from the snapshot, if one is given, and the
    /// events after it; otherwise from the whole stream.
    pub fn find_by_id(&self, snapshot: Option<(Circle, Version)>) -> (r: Result<Circle, Error>)
        ensures
            match rebuild_spec(
                snapshot_view(snapshot),
                match snapshot_view(snapshot) {
                    Some((_, base)) => tail_after(self@, base),
                    None => self@,
                },
            ) {
                Ok(circle) => r is Ok && r->Ok_0@ == circle,
                Err(e) => r == Err::<Circle, Error>(e),
            },
    {
        let tail = match &snapshot {
            Some((_, base)) => self.events_after(*base),
            None => self.events(),
        };
        rebuild(snapshot, tail)
    }
}

} // verus!
