//! The advisory check that no other circle carries a circle's name.

use crate::aggregate::circle::Circle;
use vstd::prelude::*;

verus! {

/// How the check refuses.
#[derive(Clone, Copy, Debug, PartialEq, Eq, Structural)]
pub enum Error {
    /// Another circle already has the name.
    Duplicate,
}

/// Whether one of the given circles is another circle than `id`.
pub open spec fn names_another(id: Seq<char>, same_name: Seq<String>) -> bool {
    exists|i: int| 0 <= i < same_name.len() && (#[trigger] same_name[i])@ != id
}

/// Decides the check, given the identifiers of the circles that the read
/// projection holds under the circle's name. The circle itself does not
/// count against it.
pub fn check_circle_duplicate(circle: &Circle, same_name: &Vec<String>) -> (r: Result<(), Error>)
    ensures
        r == if names_another(circle@.id, same_name@) {
            Err::<(), Error>(Error::Duplicate)
        } else {
            Ok::<(), Error>(())
        },
{
    let own = circle.id.to_string();
    let mut i: usize = 0;
    while i < same_name.len()
        invariant
            0 <= i <= same_name.len(),
            own@ == circle@.id,
            forall|k: int| 0 <= k < i ==> (#[trigger] same_name[k])@ == circle@.id,
        decreases same_name.len() - i,
    {
        if same_name[i] != own {
            return Err(Error::Duplicate);
        }
        i += 1;
    }
    Ok(())
}

} // verus!
