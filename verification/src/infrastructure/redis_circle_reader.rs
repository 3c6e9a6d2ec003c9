//! The read cache's layout: under which key a circle lies, and how the
//! list of known circles is read.

use crate::aggregate::circle::{Circle, CircleView};
use crate::aggregate::value_object::circle_id::{is_circle_id, CircleId};
use std::str::FromStr;
use vstd::prelude::*;
use vstd::string::StringExecFns;

verus! {

/// How reading the cache fails.
#[derive(Clone, Copy, Debug, PartialEq, Eq, Structural)]
pub enum Error {
    /// The list of known circles holds a text that is no circle identifier.
    InvalidCircleId,
}

/// The key of the circle with the given identifier: `circle:` and the
/// identifier.
pub open spec fn circle_key_spec(id: Seq<char>) -> Seq<char> {
    "circle:"@ + id
}

/// The key under which a circle with this identifier text is cached.
pub fn cache_key(id: &str) -> (key: String)
    ensures
        key@ == circle_key_spec(id@),
{
    "circle:".to_owned().concat(id)
}

/// The key under which a circle is cached.
pub fn circle_key(circle_id: &CircleId) -> (key: String)
    ensures
        key@ == circle_key_spec(circle_id@),
{
    let id = circle_id.to_string();
    cache_key(id.as_str())
}

/// The key of the set that holds the identifiers of all known circles.
pub fn circles_list_key() -> (key: String)
    ensures
        key@ == "circles:list"@,
{
    "circles:list".to_owned()
}

/// Two circles never share a key.
pub proof fn law_keys_are_distinct(a: Seq<char>, b: Seq<char>)
    ensures
        circle_key_spec(a) == circle_key_spec(b) <==> a == b,
{
    if circle_key_spec(a) == circle_key_spec(b) {
        let prefix = "circle:"@;
        assert(a =~= circle_key_spec(a).skip(prefix.len() as int));
        assert(b =~= circle_key_spec(b).skip(prefix.len() as int));
    }
}

/// Whether every text of a list is a circle identifier.
pub open spec fn all_circle_ids(texts: Seq<String>) -> bool {
    forall|i: int| 0 <= i < texts.len() ==> is_circle_id(#[trigger] texts[i]@)
}

/// Reads the members of the list of known circles as identifiers, in the
/// order given. One text that is no identifier fails the whole listing.
pub fn listed_circle_ids(members: &Vec<String>) -> (r: Result<Vec<CircleId>, Error>)
    ensures
        all_circle_ids(members@) ==> r is Ok && r->Ok_0.len() == members.len() && forall|i: int|
            0 <= i < members.len() ==> (#[trigger] r->Ok_0[i])@ == members[i]@,
        !all_circle_ids(members@) ==> r == Err::<Vec<CircleId>, Error>(Error::InvalidCircleId),
{
    let mut ids: Vec<CircleId> = Vec::new();
    let mut i: usize = 0;
    while i < members.len()
        invariant
            0 <= i <= members.len(),
            ids.len() == i,
            forall|k: int|
                0 <= k < i ==> is_circle_id(#[trigger] members[k]@) && ids[k]@ == members[k]@,
        decreases members.len() - i,
    {
        match CircleId::from_str(members[i].as_str()) {
            Ok(id) => {
                ids.push(id);
            },
            Err(_) => {
                return Err(Error::InvalidCircleId);
            },
        }
        i += 1;
    }
    Ok(ids)
}

/// The circles that a sequence of lookups found, in order: a lookup that
/// found nothing contributes nothing.
pub open spec fn found_spec(lookups: Seq<Option<Circle>>) -> Seq<CircleView>
    decreases lookups.len(),
{
    if lookups.len() == 0 {
        Seq::empty()
    } else {
        match lookups.last() {
            Some(circle) => found_spec(lookups.drop_last()).push(circle@),
            None => found_spec(lookups.drop_last()),
        }
    }
}

/// The views of a sequence of circles, in order.
pub open spec fn circle_views(circles: Seq<Circle>) -> Seq<CircleView> {
    circles.map_values(|c: Circle| c@)
}

/// Gathers the circles that the lookups of a listing found.
pub fn list_circles(lookups: Vec<Option<Circle>>) -> (circles: Vec<Circle>)
    ensures
        circle_views(circles@) == found_spec(lookups@),
{
    let mut circles: Vec<Circle> = Vec::new();
    let mut i: usize = 0;
    proof {
        assert(lookups@.take(0) =~= Seq::<Option<Circle>>::empty());
        assert(circle_views(circles@) =~= found_spec(lookups@.take(0)));
    }
    while i < lookups.len()
        invariant
            0 <= i <= lookups.len(),
            circle_views(circles@) == found_spec(lookups@.take(i as int)),
        decreases lookups.len() - i,
    {
        let ghost before = circle_views(circles@);
        proof {
            assert(lookups@.take(i + 1).drop_last() =~= lookups@.take(i as int));
            assert(lookups@.take(i + 1).last() == lookups@[i as int]);
        }
        if let Some(circle) = &lookups[i] {
            circles.push(circle.clone());
            proof {
                assert(circle_views(circles@) =~= before.push(circle@));
            }
        }
        i += 1;
    }
    proof {
        assert(lookups@.take(i as int) =~= lookups@);
    }
    circles
}

} // verus!
