//! Closest-hit selection.
//!
//! The scene intersects a ray with every object in order and keeps the hit
//! nearest to the ray's origin, earlier objects winning ties. Geometry is
//! floating point and stays with the renderer; what is proved here is the
//! selection itself, over one distance key per object. The caller encodes
//! each non-negative distance so that the keys compare like the distances
//! do (for non-negative IEEE single-precision values, the raw bit pattern
//! is such an encoding).

use vstd::prelude::*;

verus! {

/// The index of the nearest hit: among the entries that hold a key, the
/// first one with the least key, scanning front to back. `None` when no
/// entry holds a key.
pub fn closer_index(dists: &Vec<Option<u32>>) -> (r: Option<usize>)
    ensures
        r is None <==> (forall|j: int| 0 <= j < dists@.len() ==> dists@[j] is None),
        r matches Some(i) ==> {
            &&& 0 <= i < dists@.len()
            &&& dists@[i as int] is Some
            &&& forall|j: int|
                0 <= j < dists@.len() ==> ((#[trigger] dists@[j]) matches Some(dj)
                    ==> dists@[i as int] matches Some(di) && di <= dj)
            &&& forall|j: int|
                0 <= j < i ==> ((#[trigger] dists@[j]) matches Some(dj)
                    ==> dists@[i as int] matches Some(di) && di < dj)
        },
{
    let mut best: Option<usize> = None;
    let mut best_key: u32 = 0;
    let mut k: usize = 0;
    while k < dists.len()
        invariant
            k <= dists@.len(),
            best is None ==> (forall|j: int| 0 <= j < k ==> dists@[j] is None),
            best matches Some(i) ==> {
                &&& 0 <= i < k
                &&& dists@[i as int] == Some(best_key)
                &&& forall|j: int|
                    0 <= j < k ==> ((#[trigger] dists@[j]) matches Some(dj) ==> best_key <= dj)
                &&& forall|j: int|
                    0 <= j < i ==> ((#[trigger] dists@[j]) matches Some(dj) ==> best_key < dj)
            },
        decreases dists@.len() - k,
    {
        match dists[k] {
            Some(d) => {
                if best.is_none() || d < best_key {
                    best = Some(k);
                    best_key = d;
                }
            }
            None => {}
        }
        k = k + 1;
    }
    best
}

} // verus!
