//! The point-or-vector flag of homogeneous coordinates.
use vstd::prelude::*;

verus! {

/// Whether two point-or-vector flags agree: both set or both clear.
pub fn xand(a: bool, b: bool) -> (r: bool)
    ensures
        r == (a == b),
{
    if !a && !b {
        true
    } else if !a && b {
        false
    } else if a && !b {
        false
    } else {
        true
    }
}

} // verus!
