//! The event store of one circle, held in memory: its stream of events and
//! its latest snapshot, kept to the store's rules. Reading through the
//! snapshot always gives what replaying the whole stream gives.

use crate::aggregate::circle::event::{views, Event, EventView};
use crate::aggregate::circle::laws::lemma_fold_version;
use crate::aggregate::circle::{blank, replay_spec, Circle};
use crate::aggregate::value_object::version::Version;
use crate::infrastructure::circle_repository::{
    gap_free_from, rebuild, rebuild_spec, snapshot_due, store_spec, version_view, Error,
    SNAPSHOT_INTERVAL,
};
use crate::infrastructure::event_log::EventLog;
use crate::infrastructure::laws::law_snapshot_read_equals_full_read;
use vstd::prelude::*;

verus! {

/// The stream of one circle together with its latest snapshot.
pub struct CircleStore {
    log: EventLog,
    snapshot: Option<(Circle, Version)>,
}

impl View for CircleStore {
    type V = Seq<EventView>;

    /// The stream of events.
    closed spec fn view(&self) -> Seq<EventView> {
        self.log@
    }
}

/// The version at which a snapshot is kept after an append to a store that
/// kept one at `before`: the version the stream has reached, if the append
/// went through, the stream reads as a circle and a snapshot is due there;
/// otherwise the one kept before.
pub open spec fn snapshot_after(
    before: Option<nat>,
    appended: bool,
    stream: Seq<EventView>,
) -> Option<nat> {
    if appended && rebuild_spec(None, stream) is Ok && stream.len() % (SNAPSHOT_INTERVAL as nat)
        == 0 {
        Some(stream.len())
    } else {
        before
    }
}

impl CircleStore {
    #[verifier::type_invariant]
    spec fn snapshot_is_a_replay(self) -> bool {
        &&& gap_free_from(0, self.log@)
        &&& self.snapshot matches Some((circle, version)) ==> {
            &&& 1 <= version@ <= self.log@.len()
            &&& self.log@[0].data is CircleCreated
            &&& circle@ == replay_spec(self.log@.take(version@ as int))
        }
    }

    /// The version at which the latest snapshot was taken, if there is one.
    pub closed spec fn snapshot_version(&self) -> Option<nat> {
        match self.snapshot {
            Some((_, version)) => Some(version@),
            None => None,
        }
    }

    /// A store that holds nothing.
    pub fn new() -> (store: Self)
        ensures
            store@ == Seq::<EventView>::empty(),
            store.snapshot_version() is None,
    {
        let log = EventLog::new();
        CircleStore { log, snapshot: None }
    }

    /// The version the stream stands at.
    pub fn current_version(&self) -> (current: u32)
        ensures
            current == self@.len(),
            gap_free_from(0, self@),
    {
        self.log.current_version()
    }

    /// The latest snapshot, if there is one: the replay of the stream up to
    /// the snapshot's version.
    pub fn latest(&self) -> (snapshot: Option<(Circle, Version)>)
        ensures
            match self.snapshot_version() {
                None => snapshot is None,
                Some(version) => snapshot matches Some((circle, v)) && v@ == version && 1
                    <= version <= self@.len() && circle@ == replay_spec(
                    self@.take(version as int),
                ),
            },
    {
        proof {
            use_type_invariant(self);
        }
        match &self.snapshot {
            Some((circle, version)) => Some((circle.clone(), *version)),
            None => None,
        }
    }

    /// Reads the circle: from the latest snapshot and the events after it,
    /// or from the whole stream where there is no snapshot. Either way the
    /// result is what replaying the whole stream gives.
    pub fn find_by_id(&self) -> (r: Result<Circle, Error>)
        ensures
            match rebuild_spec(None, self@) {
                Ok(circle) => r is Ok && r->Ok_0@ == circle,
                Err(e) => r == Err::<Circle, Error>(e),
            },
    {
        proof {
            use_type_invariant(self);
        }
        let snapshot = self.latest();
        match snapshot {
            Some((circle, version)) => {
                proof {
                    law_snapshot_read_equals_full_read(self@, version@ as int);
                }
                let tail = self.log.events_after(version);
                rebuild(Some((circle, version)), tail)
            },
            None => {
                let all = self.log.events();
                rebuild(None, all)
            },
        }
    }

    /// Appends a batch under the store's rules and, where the circle has
    /// then reached a version at which a snapshot is due, takes one.
    pub fn store(&mut self, expected: Option<Version>, events: Vec<Event>) -> (r: Result<
        (),
        Error,
    >)
        ensures
            r == store_spec(version_view(expected), old(self)@.len(), views(events@)),
            r is Ok ==> final(self)@ == old(self)@ + views(events@),
            r is Err ==> final(self)@ == old(self)@,
            gap_free_from(0, final(self)@),
            final(self).snapshot_version() == snapshot_after(
                old(self).snapshot_version(),
                r is Ok && events.len() > 0,
                final(self)@,
            ),
    {
        proof {
            use_type_invariant(&*self);
        }
        let ghost before = self@;
        let ghost kept = self.snapshot_version();
        let written = events.len() > 0;
        let mut taken = CircleStore::new();
        core::mem::swap(self, &mut taken);
        let CircleStore { log, snapshot } = taken;
        let mut log = log;
        let r = log.append(expected, events);
        proof {
            if snapshot is Some {
                let version = snapshot->Some_0.1;
                assert(log@.take(version@ as int) =~= before.take(version@ as int));
                assert(log@[0] == before[0]);
            }
        }
        *self = CircleStore { log, snapshot };
        if r.is_err() || !written {
            proof {
                if r is Ok {
                    assert(self@ =~= before);
                }
            }
            return r;
        }
        match self.find_by_id() {
            Ok(circle) => {
                proof {
                    lemma_fold_version(blank(self@[0].circle_id), self@);
                    assert(self@.last().version == 0 + (self@.len() - 1) + 1);
                    assert(self@.take(self@.len() as int) =~= self@);
                }
                if snapshot_due(circle.version) {
                    let version = circle.version;
                    self.snapshot = Some((circle, version));
                }
            },
            Err(_) => {},
        }
        r
    }
}

} // verus!
