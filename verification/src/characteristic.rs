//! The characteristic resolver: finding, among the characteristics that a
//! peripheral exposes, the one with a given identifier.

use vstd::prelude::*;

verus! {

/// A characteristic of a peripheral, as discovery reports it.
#[derive(Clone, Copy, Debug, PartialEq, Eq, Structural)]
pub struct Characteristic {
    /// The 128-bit identifier of the characteristic.
    pub identifier: u128,
    /// The property bits that say what the characteristic supports.
    pub properties: u8,
}

/// `at` is the position of the first characteristic with identifier `id`.
pub open spec fn is_first_with(characteristics: Seq<Characteristic>, id: u128, at: int) -> bool {
    &&& 0 <= at < characteristics.len()
    &&& characteristics[at].identifier == id
    &&& forall|earlier: int| 0 <= earlier < at ==> (#[trigger] characteristics[earlier]).identifier != id
}

/// The first characteristic with identifier `id`, if there is one.
pub open spec fn resolved(characteristics: Seq<Characteristic>, id: u128) -> Option<
    Characteristic,
> {
    if exists|at: int| is_first_with(characteristics, id, at) {
        Some(characteristics[choose|at: int| is_first_with(characteristics, id, at)])
    } else {
        None
    }
}

/// Finds the characteristic with identifier `id`: the first one in the order
/// given whose identifier is exactly `id`, or none where there is no such
/// characteristic.
pub fn resolve(characteristics: &[Characteristic], id: u128) -> (found: Option<Characteristic>)
    ensures
        found == resolved(characteristics@, id),
        found is None <==> forall|at: int|
            0 <= at < characteristics@.len() ==> (#[trigger] characteristics@[at]).identifier != id,
        found matches Some(c) ==> c.identifier == id,
{
    let mut i: usize = 0;
    while i < characteristics.len()
        invariant
            i <= characteristics@.len(),
            forall|at: int| 0 <= at < i ==> (#[trigger] characteristics@[at]).identifier != id,
        decreases characteristics@.len() - i,
    {
        if characteristics[i].identifier == id {
            proof {
                first_with_is_unique(characteristics@, id, i as int);
            }
            return Some(characteristics[i]);
        }
        i = i + 1;
    }
    None
}

/// There is at most one first characteristic with an identifier: where `at`
/// is its position, `resolved` gives the characteristic that stands there.
pub proof fn first_with_is_unique(characteristics: Seq<Characteristic>, id: u128, at: int)
    requires
        is_first_with(characteristics, id, at),
    ensures
        resolved(characteristics, id) == Some(characteristics[at]),
{
    let other = choose|other: int| is_first_with(characteristics, id, other);
    if other < at {
        assert(characteristics[other].identifier != id);
    } else if at < other {
        assert(characteristics[at].identifier != id);
    }
}

} // verus!
