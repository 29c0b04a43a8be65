//! A call that checks the library can be reached at all.

use vstd::prelude::*;

verus! {

/// Returns the input value unchanged.
pub fn mongoac_sanity_check(n: i32) -> (r: i32)
    ensures
        r == n,
{
    n
}

} // verus!
