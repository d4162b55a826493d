//! Methods whose names start with `get`.

use vstd::prelude::*;

verus! {

/// A task.
pub struct Task;

impl Task {
    pub fn get_ready(&self) -> (r: bool)
        ensures
            r,
    {
        true
    }

    pub fn get_status(&self) -> (r: bool)
        ensures
            r,
    {
        true
    }

    pub fn getting_started(&self) -> (r: bool)
        ensures
            r,
    {
        true
    }

    pub fn getter(&self) -> (r: bool)
        ensures
            r,
    {
        true
    }

    pub fn gets_updated(&self) -> (r: bool)
        ensures
            r,
    {
        true
    }
}

} // verus!
