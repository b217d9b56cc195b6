//! The scene aggregate's choice of the nearest hit.
//!
//! Each primitive of the scene, in insertion order, reports whether the ray
//! strikes it within the searched interval and, if so, at which distance.
//! Distances are given as order keys: a nearer hit has a smaller key. For the
//! positive distances that the search interval admits, the bit pattern of an
//! IEEE-754 double is such a key.

use vstd::prelude::*;

verus! {

/// Whether entry `i` of `hits` is the hit that the aggregate reports: it is a
/// hit, no other hit is nearer, and every earlier hit is farther (exact ties
/// go to the primitive inserted first).
pub open spec fn is_nearest(hits: Seq<Option<u64>>, i: int) -> bool {
    &&& 0 <= i < hits.len()
    &&& hits[i] is Some
    &&& forall|j: int| 0 <= j < hits.len() && hits[j] is Some ==> hits[i]->0 <= hits[j]->0
    &&& forall|j: int| 0 <= j < i && hits[j] is Some ==> hits[i]->0 < hits[j]->0
}

/// Whether no primitive reported a hit.
pub open spec fn no_hit(hits: Seq<Option<u64>>) -> bool {
    forall|j: int| 0 <= j < hits.len() ==> hits[j] is None
}

/// Picks the nearest of the primitives' hits, the first of them on an exact
/// tie; `None` when no primitive was hit.
pub fn nearest_hit(hits: &Vec<Option<u64>>) -> (r: Option<usize>)
    ensures
        r is None <==> no_hit(hits@),
        r matches Some(i) ==> is_nearest(hits@, i as int),
{
    let mut best: Option<usize> = None;
    let mut closest: u64 = 0;
    let mut i: usize = 0;
    while i < hits.len()
        invariant
            i <= hits@.len(),
            best is None <==> forall|j: int| 0 <= j < i ==> hits@[j] is None,
            best matches Some(b) ==> {
                &&& b < i
                &&& hits@[b as int] == Some(closest)
                &&& forall|j: int| 0 <= j < i && hits@[j] is Some ==> closest <= hits@[j]->0
                &&& forall|j: int| 0 <= j < b && hits@[j] is Some ==> closest < hits@[j]->0
            },
        decreases hits@.len() - i,
    {
        if let Some(t) = hits[i] {
            if best.is_none() || t < closest {
                best = Some(i);
                closest = t;
            }
        }
        i += 1;
    }
    best
}

} // verus!
