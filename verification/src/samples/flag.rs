//! A flag with a getter.

use vstd::prelude::*;

verus! {

/// A boolean flag.
pub struct Flag(pub bool);

impl Flag {
    /// Whether the flag is set.
    pub fn get(&self) -> (r: bool)
        ensures
            r == self.0,
    {
        self.0
    }
}

} // verus!
