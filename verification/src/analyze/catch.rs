//! Empty catch blocks: a `match` arm or an `if let` whose pattern matches an
//! `Err` and whose body does nothing.

use vstd::prelude::*;
use crate::text::{chars_eq, chars_of};
use crate::report::chars_of_string;

verus! {

/// A pattern, by what the check reads of it.
pub enum PatternShape {
    /// A tuple-struct pattern such as `Err(e)` or `io::Result::Err(_)`, by
    /// the last segment of its path.
    TupleStruct { last: String },
    /// An or-pattern, by its cases.
    Or { cases: Vec<PatternShape> },
    /// Any other pattern.
    Other,
}

/// The body of an arm or of an `if let`, by what the check reads of it.
pub enum BodyShape {
    /// A block, by its number of statements.
    Block { statements: usize },
    /// A tuple expression such as `()`, by its number of elements.
    Tuple { elements: usize },
    /// Any other expression.
    Other,
}

/// Whether the pattern matches an `Err`: it is `Err(..)`, or an
/// or-pattern with such a case.
pub open spec fn names_err(p: PatternShape) -> bool
    decreases p, 1nat,
{
    match p {
        PatternShape::TupleStruct { last } => last@ == "Err"@,
        PatternShape::Or { cases } => any_names_err(cases@, cases@.len() as int),
        PatternShape::Other => false,
    }
}

/// Whether one of the first `k` patterns matches an `Err`.
pub open spec fn any_names_err(ps: Seq<PatternShape>, k: int) -> bool
    decreases ps, 0nat, k,
{
    if k <= 0 || k > ps.len() {
        false
    } else {
        any_names_err(ps, k - 1) || names_err(ps[k - 1])
    }
}

/// Whether the body does nothing: an empty block or `()`.
pub open spec fn does_nothing(b: BodyShape) -> bool {
    match b {
        BodyShape::Block { statements } => statements == 0,
        BodyShape::Tuple { elements } => elements == 0,
        BodyShape::Other => false,
    }
}

/// Whether the pattern matches an `Err`.
pub fn is_error_pattern(p: &PatternShape) -> (b: bool)
    ensures
        b == names_err(*p),
    decreases *p, 1nat,
{
    match p {
        PatternShape::TupleStruct { last } => chars_eq(&chars_of_string(last), &chars_of("Err")),
        PatternShape::Or { cases } => any_error_pattern(cases),
        PatternShape::Other => false,
    }
}

fn any_error_pattern(ps: &Vec<PatternShape>) -> (b: bool)
    ensures
        b == any_names_err(ps@, ps@.len() as int),
    decreases ps@, 0nat,
{
    let mut found = false;
    let mut k: usize = 0;
    while k < ps.len()
        invariant
            k <= ps.len(),
            found == any_names_err(ps@, k as int),
        decreases ps.len() - k,
    {
        if is_error_pattern(&ps[k]) {
            found = true;
        }
        k = k + 1;
    }
    found
}

/// Whether an arm or an `if let` with this pattern and body is an empty
/// catch block: the pattern matches an `Err` and the body does nothing.
pub fn is_empty_catch(pattern: &PatternShape, body: &BodyShape) -> (b: bool)
    ensures
        b == (names_err(*pattern) && does_nothing(*body)),
{
    let nothing = match body {
        BodyShape::Block { statements } => *statements == 0,
        BodyShape::Tuple { elements } => *elements == 0,
        BodyShape::Other => false,
    };
    nothing && is_error_pattern(pattern)
}

} // verus!
