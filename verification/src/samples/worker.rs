//! A trait whose method has no body.

use vstd::prelude::*;

verus! {

/// Something that runs payloads.
pub trait Worker {
    fn run(&self, payload: String);
}

} // verus!
