//! Verified core of a moving-shapes publish/subscribe demo.
//!
//! The library holds the simulation and coordination logic: shape data
//! types with their name conversions, the motion integrator that bounces
//! shapes off the simulation-area walls, the newest-sample-wins
//! reconciler for inbound samples, and the publish registry that a
//! fixed-cadence scheduler pass and a per-frame advance pass both walk.
//! Transport and rendering are collaborators outside this crate; they
//! exchange plain values with the functions here.

use vstd::prelude::*;

pub mod motion;
pub mod reconcile;
pub mod registry;
pub mod shapes;
pub mod sim;
pub mod widget;

verus! {

/// Character-by-character string equality, proved against the string
/// views; the name conversions build their exact contracts on it.
pub fn str_eq(a: &str, b: &str) -> (r: bool)
    ensures
        r == (a@ == b@),
{
    let a_len = a.unicode_len();
    let b_len = b.unicode_len();
    if a_len != b_len {
        assert(a@ != b@);
        return false;
    }
    let mut i: usize = 0;
    while i < a_len
        invariant
            i <= a_len,
            a_len == a@.len(),
            a_len == b@.len(),
            forall|j: int| 0 <= j < i ==> a@[j] == b@[j],
        decreases a_len - i,
    {
        if a.get_char(i) != b.get_char(i) {
            assert(a@ != b@);
            return false;
        }
        i += 1;
    }
    assert(a@ =~= b@);
    true
}

} // verus!
