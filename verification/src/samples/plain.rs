//! A function of its argument alone.

use vstd::prelude::*;

verus! {

/// Its argument.
pub fn pure(a: u32) -> (r: u32)
    ensures
        r == a,
{
    a
}

} // verus!
