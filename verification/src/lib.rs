//! A mess detector for Rust sources: rulesets, rule checks, in-source
//! suppressions and report renderers.

pub mod text;
pub mod suppressions;
pub mod report;
pub mod render;
pub mod ruleset;
pub mod metrics;
pub mod analyze;
pub mod cli;
pub mod discover;
pub mod samples;
pub mod nesting;

use vstd::prelude::*;

verus! {

} // verus!
