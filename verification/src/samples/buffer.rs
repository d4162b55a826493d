//! A buffer whose size is a type parameter.

use vstd::prelude::*;

verus! {

/// `N` values.
pub struct FixedBuffer<T, const N: usize> {
    pub buffer: [T; N],
}

impl<T, const N: usize> FixedBuffer<T, N> {
    /// How many values the buffer holds.
    pub fn capacity(&self) -> (r: usize)
        ensures
            r == N,
    {
        N
    }
}

} // verus!
