//! Wide functions, one of them exempt from a rule by a comment.

use vstd::prelude::*;
use crate::samples::service::sum11;

verus! {

/// A target.
pub struct Target;

impl Target {
    // messrust-disable ExcessiveParameterList
    /// The sum of its eleven arguments.
    pub fn wide_function(
        &self,
        a: u32,
        b: u32,
        c: u32,
        d: u32,
        e: u32,
        f: u32,
        g: u32,
        h: u32,
        i: u32,
        j: u32,
        k: u32,
    ) -> (r: u32)
        requires
            sum11(a, b, c, d, e, f, g, h, i, j, k) <= u32::MAX,
        ensures
            r == sum11(a, b, c, d, e, f, g, h, i, j, k),
    {
        a + b + c + d + e + f + g + h + i + j + k
    }
    // messrust-enable ExcessiveParameterList

    /// The sum of its eleven arguments.
    pub fn unsuppressed_wide(
        &self,
        a: u32,
        b: u32,
        c: u32,
        d: u32,
        e: u32,
        f: u32,
        g: u32,
        h: u32,
        i: u32,
        j: u32,
        k: u32,
    ) -> (r: u32)
        requires
            sum11(a, b, c, d, e, f, g, h, i, j, k) <= u32::MAX,
        ensures
            r == sum11(a, b, c, d, e, f, g, h, i, j, k),
    {
        a + b + c + d + e + f + g + h + i + j + k
    }
}

} // verus!
