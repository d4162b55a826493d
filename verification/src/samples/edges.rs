//! Edge cases: a generic setter and a function with only local state.

use vstd::prelude::*;

verus! {

/// A value that can be copied out.
pub struct Wrapper<T>(pub T);

impl<T: Clone> Wrapper<T> {
    /// Writes a clone of the wrapped value to `dst`.
    pub fn set(&self, dst: &mut T)
        ensures
            cloned::<T>(self.0, *final(dst)),
    {
        *dst = self.0.clone();
    }
}

/// `0 + 1 + ... + (n - 1)`.
pub open spec fn sum_below(n: nat) -> nat
    decreases n,
{
    if n == 0 {
        0
    } else {
        sum_below((n - 1) as nat) + (n - 1) as nat
    }
}

proof fn lemma_sum_below_monotone(i: nat, j: nat)
    requires
        i <= j,
    ensures
        sum_below(i) <= sum_below(j),
    decreases j,
{
    if i < j {
        lemma_sum_below_monotone(i, (j - 1) as nat);
    }
}

/// The sum of the numbers below `n`, plus one.
pub fn local_only(n: u32) -> (r: u32)
    requires
        sum_below(n as nat) + 1 <= u32::MAX,
    ensures
        r == sum_below(n as nat) + 1,
{
    let mut acc: u32 = 0;
    let mut i: u32 = 0;
    while i < n
        invariant
            i <= n,
            acc == sum_below(i as nat),
            sum_below(n as nat) + 1 <= u32::MAX,
        decreases n - i,
    {
        proof {
            lemma_sum_below_monotone((i + 1) as nat, n as nat);
        }
        acc += i;
        i = i + 1;
    }
    let r = &mut acc;
    *r += 1;
    acc
}

} // verus!
