//! The rule handlers, by PHPMD rule set.

pub mod codesize;
pub mod naming;
pub mod unusedcode;
pub mod cleancode;
pub mod design;
pub mod controversial;

use vstd::prelude::*;
use crate::report::{views, lemma_views_push, FindingView, Violation};
use crate::analyze::model::FnModel;
use crate::analyze::helpers::arg_texts;

verus! {

/// Whether no finding of `s` is marked as suppressed.
pub open spec fn all_unmarked(s: Seq<FindingView>) -> bool {
    forall|k: int| 0 <= k < s.len() ==> !(#[trigger] s[k]).suppressed
}

pub proof fn lemma_concat_unmarked(a: Seq<FindingView>, b: Seq<FindingView>)
    requires
        all_unmarked(a),
        all_unmarked(b),
    ensures
        all_unmarked(a + b),
{
    assert forall|k: int| 0 <= k < (a + b).len() implies !(#[trigger] (a + b)[k]).suppressed by {
        if k < a.len() {
            assert((a + b)[k] == a[k]);
        } else {
            assert((a + b)[k] == b[k - a.len()]);
        }
    }
}

/// Gathering findings that carry no mark gives findings that carry none.
pub proof fn lemma_gather_unmarked<T>(xs: Seq<T>, n: int, emit: spec_fn(T) -> Seq<FindingView>)
    requires
        forall|x: T| #[trigger] all_unmarked(emit(x)),
    ensures
        all_unmarked(gather(xs, n, emit)),
    decreases n,
{
    if n > 0 {
        lemma_gather_unmarked(xs, n - 1, emit);
        assert(all_unmarked(emit(xs[n - 1])));
        lemma_concat_unmarked(gather(xs, n - 1, emit), emit(xs[n - 1]));
    }
}


/// The findings `emit` gives for the first `n` items of `xs`, in order.
pub open spec fn gather<T>(xs: Seq<T>, n: int, emit: spec_fn(T) -> Seq<FindingView>) -> Seq<
    FindingView,
>
    decreases n,
{
    if n <= 0 {
        Seq::<FindingView>::empty()
    } else {
        gather(xs, n - 1, emit) + emit(xs[n - 1])
    }
}

/// The findings `emit` gives for every item of `xs`, in order.
pub open spec fn gather_all<T>(xs: Seq<T>, emit: spec_fn(T) -> Seq<FindingView>) -> Seq<
    FindingView,
> {
    gather(xs, xs.len() as int, emit)
}

/// At most one finding.
pub open spec fn one_if(cond: bool, f: FindingView) -> Seq<FindingView> {
    if cond {
        seq![f]
    } else {
        Seq::<FindingView>::empty()
    }
}

/// Appends `v` to `out`.
pub fn push_finding(out: &mut Vec<Violation>, v: Violation)
    ensures
        views(final(out)@) == views(old(out)@).push(v@),
{
    proof {
        lemma_views_push(old(out)@, v);
    }
    out.push(v);
}

/// `function` or `method`.
pub open spec fn kind_label(f: &FnModel) -> Seq<char> {
    if f.parent is Some {
        "method"@
    } else {
        "function"@
    }
}

pub fn kind_label_of(f: &FnModel) -> (r: Vec<char>)
    ensures
        r@ == kind_label(f),
{
    if f.parent.is_some() {
        crate::text::chars_of("method")
    } else {
        crate::text::chars_of("function")
    }
}

/// `Type::name` for a method, `name` for a function.
pub open spec fn image(f: &FnModel) -> Seq<char> {
    match f.parent {
        Some(p) => p@ + "::"@ + f.name@,
        None => f.name@,
    }
}

pub fn image_of(f: &FnModel) -> (r: Vec<char>)
    ensures
        r@ == image(f),
{
    match &f.parent {
        Some(p) => {
            let mut out = crate::report::chars_of_string(p);
            crate::text::push_str(&mut out, "::");
            let name = crate::report::chars_of_string(&f.name);
            crate::text::push_all(&mut out, &name);
            out
        },
        None => crate::report::chars_of_string(&f.name),
    }
}

pub fn args1(a: Vec<char>) -> (r: Vec<Vec<char>>)
    ensures
        arg_texts(r@) == seq![a@],
{
    let mut r: Vec<Vec<char>> = Vec::new();
    r.push(a);
    assert(arg_texts(r@) =~= seq![a@]);
    r
}

pub fn args2(a: Vec<char>, b: Vec<char>) -> (r: Vec<Vec<char>>)
    ensures
        arg_texts(r@) == seq![a@, b@],
{
    let mut r: Vec<Vec<char>> = Vec::new();
    r.push(a);
    r.push(b);
    assert(arg_texts(r@) =~= seq![a@, b@]);
    r
}

pub fn args3(a: Vec<char>, b: Vec<char>, c: Vec<char>) -> (r: Vec<Vec<char>>)
    ensures
        arg_texts(r@) == seq![a@, b@, c@],
{
    let mut r: Vec<Vec<char>> = Vec::new();
    r.push(a);
    r.push(b);
    r.push(c);
    assert(arg_texts(r@) =~= seq![a@, b@, c@]);
    r
}

pub fn args4(a: Vec<char>, b: Vec<char>, c: Vec<char>, d: Vec<char>) -> (r: Vec<Vec<char>>)
    ensures
        arg_texts(r@) == seq![a@, b@, c@, d@],
{
    let mut r: Vec<Vec<char>> = Vec::new();
    r.push(a);
    r.push(b);
    r.push(c);
    r.push(d);
    assert(arg_texts(r@) =~= seq![a@, b@, c@, d@]);
    r
}

} // verus!
