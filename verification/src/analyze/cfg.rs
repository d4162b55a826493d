//! Whether `#[cfg(..)]` attributes mark code that is compiled for tests
//! only.

use vstd::prelude::*;
use crate::text::{chars_of, chars_eq};
use crate::report::chars_of_string;

verus! {

/// One predicate of a `cfg` attribute, as written.
pub enum CfgMeta {
    /// A bare path such as `test` or `unix`, as its text.
    Path(String),
    /// `name = "value"`.
    NameValue,
    /// `name(..)`, with its predicates, or `None` where they do not parse.
    List { name: String, inner: Option<Vec<CfgMeta>> },
}

/// Whether predicate `m` holds when `test` is set as given and every other
/// option is taken to hold.
pub open spec fn cfg_holds(m: CfgMeta, test: bool) -> bool
    decreases m, 1nat,
{
    match m {
        CfgMeta::Path(p) => if p@ == "test"@ { test } else { true },
        CfgMeta::NameValue => true,
        CfgMeta::List { name, inner } => match inner {
            None => true,
            Some(v) => {
                if name@ == "not"@ {
                    if v@.len() > 0 {
                        !cfg_holds(v@[0], test)
                    } else {
                        true
                    }
                } else if name@ == "all"@ {
                    all_hold(v@, test, 0)
                } else if name@ == "any"@ {
                    any_holds(v@, test, 0)
                } else {
                    true
                }
            },
        },
    }
}

/// Whether the predicates of `v` from `k` on all hold.
pub open spec fn all_hold(v: Seq<CfgMeta>, test: bool, k: nat) -> bool
    decreases v, 0nat, v.len() - k,
{
    if k >= v.len() {
        true
    } else {
        cfg_holds(v[k as int], test) && all_hold(v, test, k + 1)
    }
}

/// Whether one of the predicates of `v` from `k` on holds.
pub open spec fn any_holds(v: Seq<CfgMeta>, test: bool, k: nat) -> bool
    decreases v, 0nat, v.len() - k,
{
    if k >= v.len() {
        false
    } else {
        cfg_holds(v[k as int], test) || any_holds(v, test, k + 1)
    }
}

/// Whether one attribute's predicates all hold; an attribute whose
/// predicates do not parse holds.
pub open spec fn attribute_holds(a: Option<Vec<CfgMeta>>, test: bool) -> bool {
    match a {
        None => true,
        Some(v) => all_hold(v@, test, 0),
    }
}

/// Whether all of `attrs` hold.
pub open spec fn attributes_hold(attrs: Seq<Option<Vec<CfgMeta>>>, test: bool) -> bool {
    forall|k: int| 0 <= k < attrs.len() ==> #[trigger] attribute_holds(attrs[k], test)
}

/// Whether `cfg` attributes `attrs` (each with its predicates, `None` where
/// they do not parse) mark test-only code: there are some, and the code is
/// compiled with tests but not without.
pub open spec fn test_only(attrs: Seq<Option<Vec<CfgMeta>>>) -> bool {
    attrs.len() > 0 && !attributes_hold(attrs, false) && attributes_hold(attrs, true)
}

fn name_is(t: &String, s: &str) -> (b: bool)
    ensures
        b == (t@ == s@),
{
    chars_eq(&chars_of_string(t), &chars_of(s))
}

/// Whether predicate `m` holds when `test` is set as given.
pub fn eval_cfg_meta_for_test(m: &CfgMeta, test: bool) -> (b: bool)
    ensures
        b == cfg_holds(*m, test),
    decreases *m, 1nat,
{
    match m {
        CfgMeta::Path(p) => if name_is(p, "test") { test } else { true },
        CfgMeta::NameValue => true,
        CfgMeta::List { name, inner } => match inner {
            None => true,
            Some(v) => {
                if name_is(name, "not") {
                    if v.len() > 0 {
                        !eval_cfg_meta_for_test(&v[0], test)
                    } else {
                        true
                    }
                } else if name_is(name, "all") {
                    eval_all(v, test)
                } else if name_is(name, "any") {
                    eval_any(v, test)
                } else {
                    true
                }
            },
        },
    }
}

fn eval_all(v: &Vec<CfgMeta>, test: bool) -> (b: bool)
    ensures
        b == all_hold(v@, test, 0),
    decreases v@, 0nat,
{
    let mut k: usize = v.len();
    let mut acc = true;
    while k > 0
        invariant
            k <= v.len(),
            acc == all_hold(v@, test, k as nat),
        decreases k,
    {
        k = k - 1;
        let here = eval_cfg_meta_for_test(&v[k], test);
        acc = here && acc;
    }
    acc
}

fn eval_any(v: &Vec<CfgMeta>, test: bool) -> (b: bool)
    ensures
        b == any_holds(v@, test, 0),
    decreases v@, 0nat,
{
    let mut k: usize = v.len();
    let mut acc = false;
    while k > 0
        invariant
            k <= v.len(),
            acc == any_holds(v@, test, k as nat),
        decreases k,
    {
        k = k - 1;
        let here = eval_cfg_meta_for_test(&v[k], test);
        acc = here || acc;
    }
    acc
}

fn attributes_hold_exec(attrs: &Vec<Option<Vec<CfgMeta>>>, test: bool) -> (b: bool)
    ensures
        b == attributes_hold(attrs@, test),
{
    let mut k: usize = 0;
    while k < attrs.len()
        invariant
            k <= attrs.len(),
            forall|j: int| 0 <= j < k ==> #[trigger] attribute_holds(attrs@[j], test),
        decreases attrs.len() - k,
    {
        let holds = match &attrs[k] {
            None => true,
            Some(v) => eval_all(v, test),
        };
        assert(holds == attribute_holds(attrs@[k as int], test));
        if !holds {
            return false;
        }
        k = k + 1;
    }
    true
}

/// Whether `cfg` attributes `attrs` mark test-only code.
pub fn is_test_module(attrs: &Vec<Option<Vec<CfgMeta>>>) -> (b: bool)
    ensures
        b == test_only(attrs@),
{
    if attrs.len() == 0 {
        return false;
    }
    let compiles_in_prod = attributes_hold_exec(attrs, false);
    let compiles_in_test = attributes_hold_exec(attrs, true);
    !compiles_in_prod && compiles_in_test
}

} // verus!
