//! Reading circles from the rows of the projection table.

use crate::aggregate::circle::{Circle, CircleView};
use crate::infrastructure::maria_db_schema::circle_protection_data::CircleProtectionData;
use crate::infrastructure::maria_db_schema::circle_snapshot_data::{circle_of, StateView};
use crate::infrastructure::maria_db_schema::Error;
use vstd::prelude::*;

verus! {

/// The stored states that a sequence of projection rows holds, in order.
pub open spec fn states_of(rows: Seq<CircleProtectionData>) -> Seq<StateView> {
    rows.map_values(|row: CircleProtectionData| row.state())
}

/// What reading a sequence of stored states gives: the circles they
/// describe, in order, or the fault of the first state that describes none.
pub open spec fn circles_of(states: Seq<StateView>) -> Result<Seq<CircleView>, Error>
    decreases states.len(),
{
    if states.len() == 0 {
        Ok(Seq::empty())
    } else {
        match circles_of(states.drop_last()) {
            Err(e) => Err(e),
            Ok(circles) => match circle_of(states.last()) {
                Err(e) => Err(e),
                Ok(circle) => Ok(circles.push(circle)),
            },
        }
    }
}

/// Reads one circle out of a row of the projection table.
pub fn get_circle(row: CircleProtectionData) -> (r: Result<Circle, Error>)
    ensures
        match circle_of(row.state()) {
            Ok(circle) => r is Ok && r->Ok_0@ == circle,
            Err(e) => r == Err::<Circle, Error>(e),
        },
{
    Circle::try_from(row)
}

/// Reads the circles out of the rows of the projection table, in the order
/// of the rows. The first row that holds no circle fails the whole read.
pub fn list_circles(rows: Vec<CircleProtectionData>) -> (r: Result<Vec<Circle>, Error>)
    ensures
        match circles_of(states_of(rows@)) {
            Ok(circles) => r is Ok && r->Ok_0@.map_values(|c: Circle| c@) == circles,
            Err(e) => r == Err::<Vec<Circle>, Error>(e),
        },
{
    let ghost all = states_of(rows@);
    let mut circles: Vec<Circle> = Vec::new();
    let mut i: usize = 0;
    proof {
        assert(all.take(0) =~= Seq::<StateView>::empty());
        assert(circles@.map_values(|c: Circle| c@) =~= Seq::<CircleView>::empty());
    }
    while i < rows.len()
        invariant
            all == states_of(rows@),
            0 <= i <= rows.len(),
            circles_of(all.take(i as int)) == Ok::<Seq<CircleView>, Error>(
                circles@.map_values(|c: Circle| c@),
            ),
        decreases rows.len() - i,
    {
        let row = &rows[i];
        let copy = CircleProtectionData {
            circle_id: row.circle_id.clone(),
            name: row.name.clone(),
            capacity: row.capacity,
            version: row.version,
        };
        let ghost before = circles@.map_values(|c: Circle| c@);
        proof {
            assert(all.take(i + 1).drop_last() =~= all.take(i as int));
            assert(all.take(i + 1).last() == all[i as int]);
            assert(copy.state() == all[i as int]);
        }
        match Circle::try_from(copy) {
            Ok(circle) => {
                circles.push(circle);
                proof {
                    assert(circles@.map_values(|c: Circle| c@) =~= before.push(circle@));
                }
            },
            Err(e) => {
                proof {
                    lemma_fault_stays(all, i + 1);
                }
                return Err(e);
            },
        }
        i += 1;
    }
    proof {
        assert(all.take(i as int) =~= all);
    }
    Ok(circles)
}

/// Once a prefix of the states fails to read, the whole sequence fails the
/// same way.
proof fn lemma_fault_stays(states: Seq<StateView>, upto: int)
    requires
        0 <= upto <= states.len(),
        circles_of(states.take(upto)) is Err,
    ensures
        circles_of(states) == circles_of(states.take(upto)),
    decreases states.len() - upto,
{
    if upto == states.len() {
        assert(states.take(upto) =~= states);
    } else {
        assert(states.take(upto + 1).drop_last() =~= states.take(upto));
        lemma_fault_stays(states, upto + 1);
    }
}

} // verus!
