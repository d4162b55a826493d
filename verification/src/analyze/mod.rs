//! Rule checks over a file model, and the per-file pipeline around them.

pub mod kind;
pub mod model;
pub mod helpers;
pub mod rules;
pub mod cfg;
pub mod cohesion;
pub mod uses;
pub mod flow;
pub mod scope;
pub mod table;
pub mod catch;

use vstd::prelude::*;
use crate::report::{views, FindingView, ProcessingError, Report, Violation};
use crate::ruleset::LoadedRule;
use crate::suppressions::{source_directives, suppressed_by, SpecDirective, Suppressions};
use crate::metrics::{effective_lines, line_flags, EffectiveLines};
use crate::text::lower;
use self::kind::RuleKind;
use self::model::FileModel;
use self::rules::{all_unmarked, gather_all, lemma_concat_unmarked, lemma_gather_unmarked};
use self::rules::codesize::{
    apply_fn_metric, apply_type_metric, fn_metric_emit, type_metric_emit, type_metrics_fit, type_metrics_fit_check,
    FnMetric, TypeMetric,
};
use self::rules::naming::{
    apply_boolean_get_method_name, apply_constant_naming, apply_long_class_name,
    apply_long_variable, apply_short_class_name, apply_short_method_name, apply_short_variable,
    boolean_get_emit, constant_emit, long_class_emit, long_variable_emit, short_class_emit,
    short_method_emit, short_variable_emit,
};
use self::rules::unusedcode::{apply_site_check, checked_sites, site_emit, SiteCheck};
use self::rules::cleancode::{
    apply_body_lines, apply_boolean_argument_flag, apply_duplicated_array_key,
    apply_if_statement_assignment, apply_static_access, body_lines_emit, boolean_flag_emit,
    duplicate_emit, if_assignment_emit, static_access_emit, BodyLines,
};
use self::rules::design::{
    apply_count_in_loop_expression, apply_coupling_between_objects,
    apply_development_code_fragment, apply_exit_expression, apply_global_variable,
    apply_lack_of_cohesion, cbo_emit, count_in_loop_emit, development_emit, exit_emit,
    global_emit, lcom_emit,
};
use self::rules::controversial::{
    apply_camel_case_class_name, apply_camel_case_method_name, apply_camel_case_property_name,
    camel_class_emit, camel_method_emit, camel_property_emit,
};

verus! {

broadcast use vstd::seq_lib::group_to_multiset_ensures;

// ----- dispatch --------------------------------------------------------------

/// The type metric a rule kind compares, if it compares one.
pub open spec fn kind_type_metric(kind: RuleKind) -> Option<TypeMetric> {
    match kind {
        RuleKind::ExcessiveClassLength => Some(TypeMetric::Length),
        RuleKind::ExcessivePublicCount => Some(TypeMetric::PublicCount),
        RuleKind::TooManyFields => Some(TypeMetric::Fields),
        RuleKind::TooManyMethods => Some(TypeMetric::Methods),
        RuleKind::TooManyPublicMethods => Some(TypeMetric::PublicMethods),
        RuleKind::ExcessiveClassComplexity => Some(TypeMetric::Complexity),
        _ => None,
    }
}

/// Whether the per-type numbers `rule` sums fit in a `usize`.
pub open spec fn rule_fits(rule: &LoadedRule, model: &FileModel, flags: Seq<bool>) -> bool {
    match kind_type_metric(rule.kind) {
        Some(m) => type_metrics_fit(rule, model, m, flags),
        None => true,
    }
}

/// What `rule` reports for `model`, in the order it reports it.
pub open spec fn rule_findings(rule: &LoadedRule, file: Seq<char>, model: &FileModel, flags: Seq<bool>) -> Seq<FindingView> {
    let fs = model.functions@;
    let ts = model.types@;
    match rule.kind {
        RuleKind::CyclomaticComplexity => gather_all(fs, fn_metric_emit(rule, file, FnMetric::Cyclomatic, flags)),
        RuleKind::NPathComplexity => gather_all(fs, fn_metric_emit(rule, file, FnMetric::NPath, flags)),
        RuleKind::ExcessiveMethodLength => gather_all(fs, fn_metric_emit(rule, file, FnMetric::Length, flags)),
        RuleKind::ExcessiveParameterList => gather_all(fs, fn_metric_emit(rule, file, FnMetric::Parameters, flags)),
        RuleKind::ExcessiveClassLength => gather_all(ts, type_metric_emit(rule, file, TypeMetric::Length, flags)),
        RuleKind::ExcessivePublicCount => gather_all(ts, type_metric_emit(rule, file, TypeMetric::PublicCount, flags)),
        RuleKind::TooManyFields => gather_all(ts, type_metric_emit(rule, file, TypeMetric::Fields, flags)),
        RuleKind::TooManyMethods => gather_all(ts, type_metric_emit(rule, file, TypeMetric::Methods, flags)),
        RuleKind::TooManyPublicMethods => gather_all(ts, type_metric_emit(rule, file, TypeMetric::PublicMethods, flags)),
        RuleKind::ExcessiveClassComplexity => gather_all(ts, type_metric_emit(rule, file, TypeMetric::Complexity, flags)),
        RuleKind::ShortClassName => gather_all(ts, short_class_emit(rule, file)),
        RuleKind::LongClassName => gather_all(ts, long_class_emit(rule, file)),
        RuleKind::ShortVariable => gather_all(model.variables@, short_variable_emit(rule, file)),
        RuleKind::LongVariable => gather_all(model.variables@, long_variable_emit(rule, file)),
        RuleKind::ShortMethodName => gather_all(fs, short_method_emit(rule, file)),
        RuleKind::ConstantNamingConventions => gather_all(model.constants@, constant_emit(rule, file)),
        RuleKind::BooleanGetMethodName => gather_all(fs, boolean_get_emit(rule, file)),
        RuleKind::UnusedPrivateField => gather_all(
            checked_sites(SiteCheck::UnusedPrivateField, model),
            site_emit(SiteCheck::UnusedPrivateField, rule, file, model),
        ),
        RuleKind::UnusedLocalVariable => gather_all(
            checked_sites(SiteCheck::UnusedLocalVariable, model),
            site_emit(SiteCheck::UnusedLocalVariable, rule, file, model),
        ),
        RuleKind::UnusedPrivateMethod => gather_all(
            checked_sites(SiteCheck::UnusedPrivateMethod, model),
            site_emit(SiteCheck::UnusedPrivateMethod, rule, file, model),
        ),
        RuleKind::UnusedFormalParameter => gather_all(
            checked_sites(SiteCheck::UnusedFormalParameter, model),
            site_emit(SiteCheck::UnusedFormalParameter, rule, file, model),
        ),
        RuleKind::BooleanArgumentFlag => gather_all(fs, boolean_flag_emit(rule, file)),
        RuleKind::ElseExpression => gather_all(fs, body_lines_emit(BodyLines::Else, rule, file)),
        RuleKind::IfStatementAssignment => gather_all(fs, if_assignment_emit(rule, file)),
        RuleKind::DuplicatedArrayKey => gather_all(model.duplicate_struct_keys@, duplicate_emit(rule, file)),
        RuleKind::StaticAccess => gather_all(fs, static_access_emit(rule, file)),
        RuleKind::ExitExpression => gather_all(fs, exit_emit(rule, file)),
        RuleKind::GotoStatement => Seq::<FindingView>::empty(),
        RuleKind::CountInLoopExpression => gather_all(fs, count_in_loop_emit(rule, file)),
        RuleKind::DevelopmentCodeFragment => gather_all(fs, development_emit(rule, file)),
        RuleKind::EmptyCatchBlock => gather_all(fs, body_lines_emit(BodyLines::EmptyCatch, rule, file)),
        RuleKind::CouplingBetweenObjects => gather_all(ts, cbo_emit(rule, file, model)),
        RuleKind::GlobalVariable => gather_all(model.static_muts@, global_emit(rule, file, model)),
        RuleKind::LackOfCohesionOfMethods => gather_all(ts, lcom_emit(rule, file)),
        RuleKind::CamelCaseClassName => gather_all(ts, camel_class_emit(rule, file)),
        RuleKind::CamelCaseMethodName => gather_all(fs, camel_method_emit(rule, file)),
        RuleKind::CamelCasePropertyName => gather_all(ts, camel_property_emit(rule, file)),
        RuleKind::CamelCaseParameterName => gather_all(
            checked_sites(SiteCheck::CamelCaseParameterName, model),
            site_emit(SiteCheck::CamelCaseParameterName, rule, file, model),
        ),
        RuleKind::CamelCaseVariableName => gather_all(
            checked_sites(SiteCheck::CamelCaseVariableName, model),
            site_emit(SiteCheck::CamelCaseVariableName, rule, file, model),
        ),
    }
}

/// Runs `rule` over `model`, appending what it reports.
pub fn apply_rule(rule: &LoadedRule, file: &str, model: &FileModel, lines: &EffectiveLines, out: &mut Vec<Violation>)
    requires
        rule_fits(rule, model, lines.flags()),
    ensures
        views(final(out)@) == views(old(out)@) + rule_findings(rule, file@, model, lines.flags()),
{
    match rule.kind {
        RuleKind::CyclomaticComplexity => apply_fn_metric(rule, file, model, lines, FnMetric::Cyclomatic, out),
        RuleKind::NPathComplexity => apply_fn_metric(rule, file, model, lines, FnMetric::NPath, out),
        RuleKind::ExcessiveMethodLength => apply_fn_metric(rule, file, model, lines, FnMetric::Length, out),
        RuleKind::ExcessiveParameterList => apply_fn_metric(rule, file, model, lines, FnMetric::Parameters, out),
        RuleKind::ExcessiveClassLength => apply_type_metric(rule, file, model, lines, TypeMetric::Length, out),
        RuleKind::ExcessivePublicCount => apply_type_metric(rule, file, model, lines, TypeMetric::PublicCount, out),
        RuleKind::TooManyFields => apply_type_metric(rule, file, model, lines, TypeMetric::Fields, out),
        RuleKind::TooManyMethods => apply_type_metric(rule, file, model, lines, TypeMetric::Methods, out),
        RuleKind::TooManyPublicMethods => apply_type_metric(rule, file, model, lines, TypeMetric::PublicMethods, out),
        RuleKind::ExcessiveClassComplexity => apply_type_metric(rule, file, model, lines, TypeMetric::Complexity, out),
        RuleKind::ShortClassName => apply_short_class_name(rule, file, model, out),
        RuleKind::LongClassName => apply_long_class_name(rule, file, model, out),
        RuleKind::ShortVariable => apply_short_variable(rule, file, model, out),
        RuleKind::LongVariable => apply_long_variable(rule, file, model, out),
        RuleKind::ShortMethodName => apply_short_method_name(rule, file, model, out),
        RuleKind::ConstantNamingConventions => apply_constant_naming(rule, file, model, out),
        RuleKind::BooleanGetMethodName => apply_boolean_get_method_name(rule, file, model, out),
        RuleKind::UnusedPrivateField => apply_site_check(SiteCheck::UnusedPrivateField, rule, file, model, out),
        RuleKind::UnusedLocalVariable => apply_site_check(SiteCheck::UnusedLocalVariable, rule, file, model, out),
        RuleKind::UnusedPrivateMethod => apply_site_check(SiteCheck::UnusedPrivateMethod, rule, file, model, out),
        RuleKind::UnusedFormalParameter => apply_site_check(SiteCheck::UnusedFormalParameter, rule, file, model, out),
        RuleKind::BooleanArgumentFlag => apply_boolean_argument_flag(rule, file, model, out),
        RuleKind::ElseExpression => apply_body_lines(BodyLines::Else, rule, file, model, out),
        RuleKind::IfStatementAssignment => apply_if_statement_assignment(rule, file, model, out),
        RuleKind::DuplicatedArrayKey => apply_duplicated_array_key(rule, file, model, out),
        RuleKind::StaticAccess => apply_static_access(rule, file, model, out),
        RuleKind::ExitExpression => apply_exit_expression(rule, file, model, out),
        RuleKind::GotoStatement => {
            assert(views(out@) =~= views(out@) + Seq::<FindingView>::empty());
        },
        RuleKind::CountInLoopExpression => apply_count_in_loop_expression(rule, file, model, out),
        RuleKind::DevelopmentCodeFragment => apply_development_code_fragment(rule, file, model, out),
        RuleKind::EmptyCatchBlock => apply_body_lines(BodyLines::EmptyCatch, rule, file, model, out),
        RuleKind::CouplingBetweenObjects => apply_coupling_between_objects(rule, file, model, out),
        RuleKind::GlobalVariable => apply_global_variable(rule, file, model, out),
        RuleKind::LackOfCohesionOfMethods => apply_lack_of_cohesion(rule, file, model, out),
        RuleKind::CamelCaseClassName => apply_camel_case_class_name(rule, file, model, out),
        RuleKind::CamelCaseMethodName => apply_camel_case_method_name(rule, file, model, out),
        RuleKind::CamelCasePropertyName => apply_camel_case_property_name(rule, file, model, out),
        RuleKind::CamelCaseParameterName => apply_site_check(SiteCheck::CamelCaseParameterName, rule, file, model, out),
        RuleKind::CamelCaseVariableName => apply_site_check(SiteCheck::CamelCaseVariableName, rule, file, model, out),
    }
}

// ----- test modules ----------------------------------------------------------

/// Whether one of `ranges` covers `line`.
pub open spec fn covered(ranges: Seq<(usize, usize)>, line: int) -> bool {
    exists|k: int| 0 <= k < ranges.len() && #[trigger] ranges[k].0 <= line && line <= ranges[k].1
}

/// Whether the starts of `ranges` never decrease.
pub open spec fn starts_sorted(ranges: Seq<(usize, usize)>) -> bool {
    forall|a: int, b: int| 0 <= a <= b < ranges.len() ==> #[trigger] ranges[a].0 <= #[trigger] ranges[b].0
}

/// The line ranges of test modules, merged for fast lookup.
pub struct TestModuleRanges {
    ranges: Vec<(usize, usize)>,
    all: Ghost<Seq<(usize, usize)>>,
}

proof fn lemma_insert_contains(s: Seq<(usize, usize)>, p: int, x: (usize, usize))
    requires
        0 <= p <= s.len(),
    ensures
        forall|y: (usize, usize)| s.insert(p, x).contains(y) <==> (s.contains(y) || y == x),
{
    let t = s.insert(p, x);
    assert forall|y: (usize, usize)| t.contains(y) <==> (s.contains(y) || y == x) by {
        if t.contains(y) {
            let k = choose|k: int| 0 <= k < t.len() && t[k] == y;
            if k < p {
                assert(s[k] == y);
            } else if k > p {
                assert(s[k - 1] == y);
            }
        }
        if s.contains(y) {
            let k = choose|k: int| 0 <= k < s.len() && s[k] == y;
            if k < p {
                assert(t[k] == y);
            } else {
                assert(t[k + 1] == y);
            }
        }
        if y == x {
            assert(t[p] == y);
        }
    }
}

proof fn lemma_take_push_contains(s: Seq<(usize, usize)>, i: int)
    requires
        0 <= i < s.len(),
    ensures
        forall|y: (usize, usize)| s.take(i + 1).contains(y) <==> (s.take(i).contains(y) || y == s[i]),
{
    let t1 = s.take(i + 1);
    let t0 = s.take(i);
    assert forall|y: (usize, usize)| t1.contains(y) <==> (t0.contains(y) || y == s[i]) by {
        if t1.contains(y) {
            let k = choose|k: int| 0 <= k < t1.len() && t1[k] == y;
            if k < i {
                assert(t0[k] == y);
            }
        }
        if t0.contains(y) {
            let k = choose|k: int| 0 <= k < t0.len() && t0[k] == y;
            assert(t1[k] == y);
        }
        if y == s[i] {
            assert(t1[i] == y);
        }
    }
}

/// Sorts `ranges` by start (insertion sort).
fn sort_by_start(ranges: Vec<(usize, usize)>) -> (r: Vec<(usize, usize)>)
    ensures
        starts_sorted(r@),
        forall|x: (usize, usize)| r@.contains(x) <==> ranges@.contains(x),
{
    let mut out: Vec<(usize, usize)> = Vec::new();
    let mut i: usize = 0;
    while i < ranges.len()
        invariant
            i <= ranges.len(),
            starts_sorted(out@),
            forall|x: (usize, usize)| out@.contains(x) <==> ranges@.take(i as int).contains(x),
        decreases ranges.len() - i,
    {
        let x = ranges[i];
        let mut p: usize = out.len();
        while p > 0 && out[p - 1].0 > x.0
            invariant
                p <= out.len(),
                starts_sorted(out@),
                forall|k: int| p <= k < out.len() ==> out@[k].0 > x.0,
            decreases p,
        {
            p = p - 1;
        }
        let ghost before = out@;
        out.insert(p, x);
        assert(out@ == before.insert(p as int, x));
        assert(starts_sorted(out@)) by {
            assert forall|a: int, b: int| 0 <= a <= b < out@.len() implies #[trigger] out@[a].0 <= #[trigger] out@[b].0 by {
                if a < p && b < p {
                    assert(before[a].0 <= before[b].0);
                } else if a < p && b == p {
                    if p > 0 {
                        assert(before[a].0 <= before[p - 1].0);
                    }
                } else if a < p && b > p {
                    assert(before[a].0 <= before[b - 1].0);
                } else if a == p && b > p {
                    assert(before[b - 1].0 > x.0);
                } else if a > p {
                    assert(before[a - 1].0 <= before[b - 1].0);
                }
            }
        }
        proof {
            lemma_insert_contains(before, p as int, x);
            lemma_take_push_contains(ranges@, i as int);
            assert forall|y: (usize, usize)| out@.contains(y) <==> ranges@.take(i + 1).contains(y) by {
                assert(out@.contains(y) == (before.contains(y) || y == x));
                assert(before.contains(y) == ranges@.take(i as int).contains(y));
                assert(ranges@.take(i + 1).contains(y) == (ranges@.take(i as int).contains(y) || y
                    == ranges@[i as int]));
            }
        }
        i = i + 1;
    }
    assert(ranges@.take(ranges.len() as int) =~= ranges@);
    out
}

/// Whether range `r` covers `line`.
pub open spec fn in_range(r: (usize, usize), line: int) -> bool {
    r.0 <= line && line <= r.1
}

proof fn lemma_cover_push(ms: Seq<(usize, usize)>, x: (usize, usize))
    ensures
        forall|line: int| covered(ms.push(x), line) <==> (covered(ms, line) || in_range(x, line)),
{
    assert forall|line: int| covered(ms.push(x), line) <==> (covered(ms, line) || in_range(x, line)) by {
        if covered(ms.push(x), line) {
            let k = choose|k: int| 0 <= k < ms.push(x).len() && #[trigger] ms.push(x)[k].0 <= line && line <= ms.push(x)[k].1;
            if k < ms.len() {
                assert(ms[k].0 <= line && line <= ms[k].1);
            }
        }
        if covered(ms, line) {
            let k = choose|k: int| 0 <= k < ms.len() && #[trigger] ms[k].0 <= line && line <= ms[k].1;
            assert(ms.push(x)[k].0 <= line && line <= ms.push(x)[k].1);
        }
        if in_range(x, line) {
            assert(ms.push(x)[ms.len() as int].0 <= line && line <= ms.push(x)[ms.len() as int].1);
        }
    }
}

proof fn lemma_cover_widen_last(ms: Seq<(usize, usize)>, x: (usize, usize), ne: usize)
    requires
        ms.len() > 0,
        ms.last().0 <= x.0,
        x.0 <= ms.last().1,
        ne == if ms.last().1 >= x.1 { ms.last().1 } else { x.1 },
    ensures
        forall|line: int| covered(ms.update(ms.len() - 1, (ms.last().0, ne)), line) <==> (covered(ms, line) || in_range(x, line)),
{
    let n = ms.len() - 1;
    let m2 = ms.update(n, (ms.last().0, ne));
    assert forall|line: int| covered(m2, line) <==> (covered(ms, line) || in_range(x, line)) by {
        if covered(m2, line) {
            let k = choose|k: int| 0 <= k < m2.len() && #[trigger] m2[k].0 <= line && line <= m2[k].1;
            if k < n {
                assert(ms[k].0 <= line && line <= ms[k].1);
            } else if line <= ms.last().1 {
                assert(ms[n].0 <= line && line <= ms[n].1);
            }
        }
        if covered(ms, line) {
            let k = choose|k: int| 0 <= k < ms.len() && #[trigger] ms[k].0 <= line && line <= ms[k].1;
            if k < n {
                assert(m2[k].0 <= line && line <= m2[k].1);
            } else {
                assert(m2[n].0 <= line && line <= m2[n].1);
            }
        }
        if in_range(x, line) {
            assert(m2[n].0 <= line && line <= m2[n].1);
        }
    }
}

proof fn lemma_cover_take(s: Seq<(usize, usize)>, i: int)
    requires
        0 <= i < s.len(),
    ensures
        forall|line: int| covered(s.take(i + 1), line) <==> (covered(s.take(i), line) || in_range(s[i], line)),
{
    assert(s.take(i + 1) =~= s.take(i).push(s[i]));
    lemma_cover_push(s.take(i), s[i]);
}

proof fn lemma_cover_same(a: Seq<(usize, usize)>, b: Seq<(usize, usize)>)
    requires
        forall|x: (usize, usize)| a.contains(x) <==> b.contains(x),
    ensures
        forall|line: int| covered(a, line) <==> covered(b, line),
{
    assert forall|line: int| covered(a, line) implies covered(b, line) by {
        let k = choose|k: int| 0 <= k < a.len() && #[trigger] a[k].0 <= line && line <= a[k].1;
        assert(a.contains(a[k]));
        let j = choose|j: int| 0 <= j < b.len() && b[j] == a[k];
        assert(b[j].0 <= line && line <= b[j].1);
    }
    assert forall|line: int| covered(b, line) implies covered(a, line) by {
        let k = choose|k: int| 0 <= k < b.len() && #[trigger] b[k].0 <= line && line <= b[k].1;
        assert(b.contains(b[k]));
        let j = choose|j: int| 0 <= j < a.len() && a[j] == b[k];
        assert(a[j].0 <= line && line <= a[j].1);
    }
}

impl TestModuleRanges {
    /// The ranges the lookup answers for.
    pub closed spec fn ranges(&self) -> Seq<(usize, usize)> {
        self.all@
    }

    #[verifier::type_invariant]
    closed spec fn merged(&self) -> bool {
        &&& starts_sorted(self.ranges@)
        &&& forall|k: int| 0 <= k < self.ranges@.len() - 1 ==> #[trigger] self.ranges@[k].1 < self.ranges@[k + 1].0
        &&& forall|line: int| covered(self.ranges@, line) <==> covered(self.all@, line)
    }

    /// Sorts and merges `ranges`.
    pub fn new(ranges: Vec<(usize, usize)>) -> (r: Self)
        ensures
            r.ranges() == ranges@,
    {
        let ghost input = ranges@;
        let sorted = sort_by_start(ranges);
        let mut merged: Vec<(usize, usize)> = Vec::new();
        let mut i: usize = 0;
        while i < sorted.len()
            invariant
                i <= sorted.len(),
                starts_sorted(sorted@),
                starts_sorted(merged@),
                forall|k: int| 0 <= k < merged@.len() - 1 ==> #[trigger] merged@[k].1 < merged@[k + 1].0,
                merged@.len() <= i,
                i > 0 ==> merged@.len() > 0 && merged@.last().0 <= sorted@[i - 1].0,
                forall|line: int| covered(merged@, line) <==> covered(sorted@.take(i as int), line),
            decreases sorted.len() - i,
        {
            let (start, end) = sorted[i];
            assert(sorted@[i as int] == (start, end));
            let ghost before = merged@;
            proof {
                lemma_cover_take(sorted@, i as int);
                if i > 0 {
                    assert(sorted@[i - 1].0 <= sorted@[i as int].0);
                }
            }
            let n = merged.len();
            if n > 0 && start <= merged[n - 1].1 {
                let (ps, pe) = merged[n - 1];
                let ne = if pe >= end { pe } else { end };
                proof {
                    lemma_cover_widen_last(before, (start, end), ne);
                }
                merged.set(n - 1, (ps, ne));
                assert(merged@ == before.update(n - 1, (before.last().0, ne)));
                assert forall|line: int| covered(merged@, line) <==> covered(sorted@.take(i + 1), line) by {
                    assert(covered(merged@, line) == (covered(before, line) || in_range((start, end), line)));
                    assert(covered(before, line) == covered(sorted@.take(i as int), line));
                    assert(covered(sorted@.take(i + 1), line) == (covered(sorted@.take(i as int), line)
                        || in_range(sorted@[i as int], line)));
                }
            } else {
                proof {
                    lemma_cover_push(before, (start, end));
                }
                merged.push((start, end));
                assert forall|line: int| covered(merged@, line) <==> covered(sorted@.take(i + 1), line) by {
                    assert(covered(merged@, line) == (covered(before, line) || in_range((start, end), line)));
                    assert(covered(before, line) == covered(sorted@.take(i as int), line));
                    assert(covered(sorted@.take(i + 1), line) == (covered(sorted@.take(i as int), line)
                        || in_range(sorted@[i as int], line)));
                }
                assert(starts_sorted(merged@)) by {
                    assert forall|a: int, b: int| 0 <= a <= b < merged@.len() implies #[trigger] merged@[a].0 <= #[trigger] merged@[b].0 by {
                        if b == n && a < n {
                            assert(before[a].0 <= before[n - 1].0);
                        }
                    }
                }
            }
            i = i + 1;
        }
        assert(sorted@.take(sorted.len() as int) =~= sorted@);
        proof {
            lemma_cover_same(sorted@, input);
        }
        TestModuleRanges { ranges: merged, all: Ghost(input) }
    }

    /// Whether a test module covers `line`.
    pub fn contains(&self, line: usize) -> (b: bool)
        ensures
            b == covered(self.ranges(), line as int),
    {
        proof {
            use_type_invariant(self);
        }
        let rs = &self.ranges;
        let mut lo: usize = 0;
        let mut hi: usize = rs.len();
        while lo < hi
            invariant
                lo <= hi <= rs.len(),
                rs == &self.ranges,
                starts_sorted(rs@),
                forall|k: int| 0 <= k < lo ==> #[trigger] rs@[k].0 <= line,
                forall|k: int| hi <= k < rs.len() ==> #[trigger] rs@[k].0 > line,
            decreases hi - lo,
        {
            let mid = lo + (hi - lo) / 2;
            if rs[mid].0 <= line {
                assert forall|k: int| 0 <= k < mid + 1 implies #[trigger] rs@[k].0 <= line by {
                    assert(rs@[k].0 <= rs@[mid as int].0);
                }
                lo = mid + 1;
            } else {
                assert forall|k: int| mid <= k < rs.len() implies #[trigger] rs@[k].0 > line by {
                    assert(rs@[mid as int].0 <= rs@[k].0);
                }
                hi = mid;
            }
        }
        let found = lo > 0 && rs[lo - 1].1 >= line;
        assert(found == covered(rs@, line as int)) by {
            if covered(rs@, line as int) {
                let k = choose|k: int| 0 <= k < rs@.len() && #[trigger] rs@[k].0 <= line && line <= rs@[k].1;
                assert(k < lo);
                if k < lo - 1 {
                    assert(rs@[k].1 < rs@[k + 1].0);
                    assert(rs@[k + 1].0 <= rs@[lo - 1].0);
                }
            }
            if found {
                assert(rs@[lo - 1].0 <= line && line <= rs@[lo - 1].1);
            }
        }
        found
    }
}

// ----- one file ----------------------------------------------------------------

/// What `rules[..n]` report for `model`, rule after rule.
pub open spec fn all_findings(rules: Seq<LoadedRule>, n: int, file: Seq<char>, model: &FileModel, flags: Seq<bool>) -> Seq<FindingView>
    decreases n,
{
    if n <= 0 {
        Seq::<FindingView>::empty()
    } else {
        all_findings(rules, n - 1, file, model, flags) + rule_findings(&rules[n - 1], file, model, flags)
    }
}

/// `v`, marked as suppressed.
pub open spec fn marked(v: FindingView) -> FindingView {
    FindingView { suppressed: true, ..v }
}

/// What becomes of one finding: dropped inside a test module when tests are
/// ignored; kept when no directive suppresses it; otherwise kept and marked
/// in strict mode, dropped if not.
pub open spec fn settle(v: FindingView, strict: bool, ignore_tests: bool, tests: Seq<(usize, usize)>, ds: Seq<SpecDirective>) -> Seq<FindingView> {
    if ignore_tests && covered(tests, v.begin_line as int) {
        Seq::<FindingView>::empty()
    } else if !suppressed_by(ds, v.begin_line as int, lower(v.rule_name)) {
        seq![v]
    } else if strict {
        seq![marked(v)]
    } else {
        Seq::<FindingView>::empty()
    }
}

pub open spec fn settled(vs: Seq<FindingView>, n: int, strict: bool, ignore_tests: bool, tests: Seq<(usize, usize)>, ds: Seq<SpecDirective>) -> Seq<FindingView>
    decreases n,
{
    if n <= 0 {
        Seq::<FindingView>::empty()
    } else {
        settled(vs, n - 1, strict, ignore_tests, tests, ds) + settle(vs[n - 1], strict, ignore_tests, tests, ds)
    }
}

/// Whether a finding is shown unmarked.
pub open spec fn unmarked(v: FindingView) -> bool {
    !v.suppressed
}

pub open spec fn unmarked_pred() -> spec_fn(FindingView) -> bool {
    |v: FindingView| unmarked(v)
}

/// Strict mode shows what suppression hides: of raw findings that carry no
/// mark, the findings kept without `--strict` are exactly the unmarked ones
/// kept with it, in the same order.
pub proof fn law_strict_keeps_suppressed_findings(
    vs: Seq<FindingView>,
    n: int,
    ignore_tests: bool,
    tests: Seq<(usize, usize)>,
    ds: Seq<SpecDirective>,
)
    requires
        0 <= n <= vs.len(),
        forall|k: int| 0 <= k < vs.len() ==> unmarked(#[trigger] vs[k]),
    ensures
        settled(vs, n, false, ignore_tests, tests, ds) == settled(vs, n, true, ignore_tests, tests, ds).filter(
            unmarked_pred(),
        ),
    decreases n,
{
    let p = unmarked_pred();
    if n <= 0 {
        assert(Seq::<FindingView>::empty().filter(p) =~= Seq::<FindingView>::empty()) by {
            reveal(Seq::filter);
        }
    } else {
        law_strict_keeps_suppressed_findings(vs, n - 1, ignore_tests, tests, ds);
        let before = settled(vs, n - 1, true, ignore_tests, tests, ds);
        let last = settle(vs[n - 1], true, ignore_tests, tests, ds);
        Seq::filter_distributes_over_add(before, last, p);
        assert(unmarked(vs[n - 1]));
        assert(last.filter(p) =~= settle(vs[n - 1], false, ignore_tests, tests, ds)) by {
            reveal(Seq::filter);
            assert(last.len() == 0 || last.len() == 1);
            if last.len() == 1 {
                assert(last.drop_last() =~= Seq::<FindingView>::empty());
                assert(Seq::<FindingView>::empty().filter(p) =~= Seq::<FindingView>::empty());
            }
        }
    }
}

/// No rule marks a finding as suppressed: only settling does.
proof fn lemma_rule_findings_unmarked(rule: &LoadedRule, file: Seq<char>, model: &FileModel, flags: Seq<bool>)
    ensures
        all_unmarked(rule_findings(rule, file, model, flags)),
{
    let fs = model.functions@;
    let ts = model.types@;
    match rule.kind {
        RuleKind::CyclomaticComplexity => {
            let xs = fs;
            let e = fn_metric_emit(rule, file, FnMetric::Cyclomatic, flags);
            assert forall|x| #[trigger] all_unmarked(e(x)) by {}
            lemma_gather_unmarked(xs, xs.len() as int, e);
        },
        RuleKind::NPathComplexity => {
            let xs = fs;
            let e = fn_metric_emit(rule, file, FnMetric::NPath, flags);
            assert forall|x| #[trigger] all_unmarked(e(x)) by {}
            lemma_gather_unmarked(xs, xs.len() as int, e);
        },
        RuleKind::ExcessiveMethodLength => {
            let xs = fs;
            let e = fn_metric_emit(rule, file, FnMetric::Length, flags);
            assert forall|x| #[trigger] all_unmarked(e(x)) by {}
            lemma_gather_unmarked(xs, xs.len() as int, e);
        },
        RuleKind::ExcessiveParameterList => {
            let xs = fs;
            let e = fn_metric_emit(rule, file, FnMetric::Parameters, flags);
            assert forall|x| #[trigger] all_unmarked(e(x)) by {}
            lemma_gather_unmarked(xs, xs.len() as int, e);
        },
        RuleKind::ExcessiveClassLength => {
            let xs = ts;
            let e = type_metric_emit(rule, file, TypeMetric::Length, flags);
            assert forall|x| #[trigger] all_unmarked(e(x)) by {}
            lemma_gather_unmarked(xs, xs.len() as int, e);
        },
        RuleKind::ExcessivePublicCount => {
            let xs = ts;
            let e = type_metric_emit(rule, file, TypeMetric::PublicCount, flags);
            assert forall|x| #[trigger] all_unmarked(e(x)) by {}
            lemma_gather_unmarked(xs, xs.len() as int, e);
        },
        RuleKind::TooManyFields => {
            let xs = ts;
            let e = type_metric_emit(rule, file, TypeMetric::Fields, flags);
            assert forall|x| #[trigger] all_unmarked(e(x)) by {}
            lemma_gather_unmarked(xs, xs.len() as int, e);
        },
        RuleKind::TooManyMethods => {
            let xs = ts;
            let e = type_metric_emit(rule, file, TypeMetric::Methods, flags);
            assert forall|x| #[trigger] all_unmarked(e(x)) by {}
            lemma_gather_unmarked(xs, xs.len() as int, e);
        },
        RuleKind::TooManyPublicMethods => {
            let xs = ts;
            let e = type_metric_emit(rule, file, TypeMetric::PublicMethods, flags);
            assert forall|x| #[trigger] all_unmarked(e(x)) by {}
            lemma_gather_unmarked(xs, xs.len() as int, e);
        },
        RuleKind::ExcessiveClassComplexity => {
            let xs = ts;
            let e = type_metric_emit(rule, file, TypeMetric::Complexity, flags);
            assert forall|x| #[trigger] all_unmarked(e(x)) by {}
            lemma_gather_unmarked(xs, xs.len() as int, e);
        },
        RuleKind::ShortClassName => {
            let xs = ts;
            let e = short_class_emit(rule, file);
            assert forall|x| #[trigger] all_unmarked(e(x)) by {}
            lemma_gather_unmarked(xs, xs.len() as int, e);
        },
        RuleKind::LongClassName => {
            let xs = ts;
            let e = long_class_emit(rule, file);
            assert forall|x| #[trigger] all_unmarked(e(x)) by {}
            lemma_gather_unmarked(xs, xs.len() as int, e);
        },
        RuleKind::ShortVariable => {
            let xs = model.variables@;
            let e = short_variable_emit(rule, file);
            assert forall|x| #[trigger] all_unmarked(e(x)) by {}
            lemma_gather_unmarked(xs, xs.len() as int, e);
        },
        RuleKind::LongVariable => {
            let xs = model.variables@;
            let e = long_variable_emit(rule, file);
            assert forall|x| #[trigger] all_unmarked(e(x)) by {}
            lemma_gather_unmarked(xs, xs.len() as int, e);
        },
        RuleKind::ShortMethodName => {
            let xs = fs;
            let e = short_method_emit(rule, file);
            assert forall|x| #[trigger] all_unmarked(e(x)) by {}
            lemma_gather_unmarked(xs, xs.len() as int, e);
        },
        RuleKind::ConstantNamingConventions => {
            let xs = model.constants@;
            let e = constant_emit(rule, file);
            assert forall|x| #[trigger] all_unmarked(e(x)) by {}
            lemma_gather_unmarked(xs, xs.len() as int, e);
        },
        RuleKind::BooleanGetMethodName => {
            let xs = fs;
            let e = boolean_get_emit(rule, file);
            assert forall|x| #[trigger] all_unmarked(e(x)) by {}
            lemma_gather_unmarked(xs, xs.len() as int, e);
        },
        RuleKind::UnusedPrivateField => {
            let xs = checked_sites(SiteCheck::UnusedPrivateField, model);
            let e = site_emit(SiteCheck::UnusedPrivateField, rule, file, model);
            assert forall|x| #[trigger] all_unmarked(e(x)) by {}
            lemma_gather_unmarked(xs, xs.len() as int, e);
        },
        RuleKind::UnusedLocalVariable => {
            let xs = checked_sites(SiteCheck::UnusedLocalVariable, model);
            let e = site_emit(SiteCheck::UnusedLocalVariable, rule, file, model);
            assert forall|x| #[trigger] all_unmarked(e(x)) by {}
            lemma_gather_unmarked(xs, xs.len() as int, e);
        },
        RuleKind::UnusedPrivateMethod => {
            let xs = checked_sites(SiteCheck::UnusedPrivateMethod, model);
            let e = site_emit(SiteCheck::UnusedPrivateMethod, rule, file, model);
            assert forall|x| #[trigger] all_unmarked(e(x)) by {}
            lemma_gather_unmarked(xs, xs.len() as int, e);
        },
        RuleKind::UnusedFormalParameter => {
            let xs = checked_sites(SiteCheck::UnusedFormalParameter, model);
            let e = site_emit(SiteCheck::UnusedFormalParameter, rule, file, model);
            assert forall|x| #[trigger] all_unmarked(e(x)) by {}
            lemma_gather_unmarked(xs, xs.len() as int, e);
        },
        RuleKind::BooleanArgumentFlag => {
            let xs = fs;
            let e = boolean_flag_emit(rule, file);
            assert forall|x| #[trigger] all_unmarked(e(x)) by {
                lemma_gather_unmarked(x.bool_params@, x.bool_params@.len() as int, crate::analyze::rules::cleancode::bool_param_emit(rule, file, x));
            }
            lemma_gather_unmarked(xs, xs.len() as int, e);
        },
        RuleKind::ElseExpression => {
            let xs = fs;
            let e = body_lines_emit(BodyLines::Else, rule, file);
            assert forall|x| #[trigger] all_unmarked(e(x)) by {
                lemma_gather_unmarked(crate::analyze::rules::cleancode::body_lines(BodyLines::Else, &x), crate::analyze::rules::cleancode::body_lines(BodyLines::Else, &x).len() as int, crate::analyze::rules::cleancode::line_emit(rule, file, x));
            }
            lemma_gather_unmarked(xs, xs.len() as int, e);
        },
        RuleKind::IfStatementAssignment => {
            let xs = fs;
            let e = if_assignment_emit(rule, file);
            assert forall|x| #[trigger] all_unmarked(e(x)) by {
                lemma_gather_unmarked(x.condition_assignments@, x.condition_assignments@.len() as int, crate::analyze::rules::cleancode::position_emit(rule, file));
            }
            lemma_gather_unmarked(xs, xs.len() as int, e);
        },
        RuleKind::DuplicatedArrayKey => {
            let xs = model.duplicate_struct_keys@;
            let e = duplicate_emit(rule, file);
            assert forall|x| #[trigger] all_unmarked(e(x)) by {}
            lemma_gather_unmarked(xs, xs.len() as int, e);
        },
        RuleKind::StaticAccess => {
            let xs = fs;
            let e = static_access_emit(rule, file);
            assert forall|x| #[trigger] all_unmarked(e(x)) by {
                lemma_gather_unmarked(x.invocations@, x.invocations@.len() as int, crate::analyze::rules::cleancode::access_emit(rule, file, x));
            }
            lemma_gather_unmarked(xs, xs.len() as int, e);
        },
        RuleKind::ExitExpression => {
            let xs = fs;
            let e = exit_emit(rule, file);
            assert forall|x| #[trigger] all_unmarked(e(x)) by {}
            lemma_gather_unmarked(xs, xs.len() as int, e);
        },
        RuleKind::GotoStatement => {},
        RuleKind::CountInLoopExpression => {
            let xs = fs;
            let e = count_in_loop_emit(rule, file);
            assert forall|x| #[trigger] all_unmarked(e(x)) by {
                lemma_gather_unmarked(x.count_in_loop@, x.count_in_loop@.len() as int, crate::analyze::rules::design::count_hit_emit(rule, file));
            }
            lemma_gather_unmarked(xs, xs.len() as int, e);
        },
        RuleKind::DevelopmentCodeFragment => {
            let xs = fs;
            let e = development_emit(rule, file);
            assert forall|x| #[trigger] all_unmarked(e(x)) by {
                lemma_gather_unmarked(x.invocations@, x.invocations@.len() as int, crate::analyze::rules::design::fragment_emit(rule, file, x));
            }
            lemma_gather_unmarked(xs, xs.len() as int, e);
        },
        RuleKind::EmptyCatchBlock => {
            let xs = fs;
            let e = body_lines_emit(BodyLines::EmptyCatch, rule, file);
            assert forall|x| #[trigger] all_unmarked(e(x)) by {
                lemma_gather_unmarked(crate::analyze::rules::cleancode::body_lines(BodyLines::EmptyCatch, &x), crate::analyze::rules::cleancode::body_lines(BodyLines::EmptyCatch, &x).len() as int, crate::analyze::rules::cleancode::line_emit(rule, file, x));
            }
            lemma_gather_unmarked(xs, xs.len() as int, e);
        },
        RuleKind::CouplingBetweenObjects => {
            let xs = ts;
            let e = cbo_emit(rule, file, model);
            assert forall|x| #[trigger] all_unmarked(e(x)) by {}
            lemma_gather_unmarked(xs, xs.len() as int, e);
        },
        RuleKind::GlobalVariable => {
            let xs = model.static_muts@;
            let e = global_emit(rule, file, model);
            assert forall|x| #[trigger] all_unmarked(e(x)) by {}
            lemma_gather_unmarked(xs, xs.len() as int, e);
        },
        RuleKind::LackOfCohesionOfMethods => {
            let xs = ts;
            let e = lcom_emit(rule, file);
            assert forall|x| #[trigger] all_unmarked(e(x)) by {}
            lemma_gather_unmarked(xs, xs.len() as int, e);
        },
        RuleKind::CamelCaseClassName => {
            let xs = ts;
            let e = camel_class_emit(rule, file);
            assert forall|x| #[trigger] all_unmarked(e(x)) by {}
            lemma_gather_unmarked(xs, xs.len() as int, e);
        },
        RuleKind::CamelCaseMethodName => {
            let xs = fs;
            let e = camel_method_emit(rule, file);
            assert forall|x| #[trigger] all_unmarked(e(x)) by {}
            lemma_gather_unmarked(xs, xs.len() as int, e);
        },
        RuleKind::CamelCasePropertyName => {
            let xs = ts;
            let e = camel_property_emit(rule, file);
            assert forall|x| #[trigger] all_unmarked(e(x)) by {
                lemma_gather_unmarked(x.fields@, x.fields@.len() as int, crate::analyze::rules::controversial::camel_field_emit(rule, file));
            }
            lemma_gather_unmarked(xs, xs.len() as int, e);
        },
        RuleKind::CamelCaseParameterName => {
            let xs = checked_sites(SiteCheck::CamelCaseParameterName, model);
            let e = site_emit(SiteCheck::CamelCaseParameterName, rule, file, model);
            assert forall|x| #[trigger] all_unmarked(e(x)) by {}
            lemma_gather_unmarked(xs, xs.len() as int, e);
        },
        RuleKind::CamelCaseVariableName => {
            let xs = checked_sites(SiteCheck::CamelCaseVariableName, model);
            let e = site_emit(SiteCheck::CamelCaseVariableName, rule, file, model);
            assert forall|x| #[trigger] all_unmarked(e(x)) by {}
            lemma_gather_unmarked(xs, xs.len() as int, e);
        },
    }
}

proof fn lemma_all_findings_unmarked(rules: Seq<LoadedRule>, n: int, file: Seq<char>, model: &FileModel, flags: Seq<bool>)
    requires
        n <= rules.len(),
    ensures
        all_unmarked(all_findings(rules, n, file, model, flags)),
    decreases n,
{
    if n > 0 {
        lemma_all_findings_unmarked(rules, n - 1, file, model, flags);
        lemma_rule_findings_unmarked(&rules[n - 1], file, model, flags);
        lemma_concat_unmarked(all_findings(rules, n - 1, file, model, flags), rule_findings(&rules[n - 1], file, model, flags));
    }
}

/// A copy of `v`.
pub fn copy_violation(v: &Violation) -> (r: Violation)
    ensures
        r@ == v@,
{
    Violation {
        file: v.file.clone(),
        begin_line: v.begin_line,
        end_line: v.end_line,
        rule_name: v.rule_name.clone(),
        ruleset_name: v.ruleset_name.clone(),
        description: v.description.clone(),
        priority: v.priority,
        package: v.package.clone(),
        function: v.function.clone(),
        class: v.class.clone(),
        method: v.method.clone(),
        external_info_url: v.external_info_url.clone(),
        suppressed: v.suppressed,
    }
}

/// Whether every rule's per-type sums fit in a `usize` for `model`.
pub open spec fn rules_fit(rules: Seq<LoadedRule>, model: &FileModel, flags: Seq<bool>) -> bool {
    forall|k: int| 0 <= k < rules.len() ==> rule_fits(&#[trigger] rules[k], model, flags)
}

/// The findings of `rules` for one file, `source` and `model` being its
/// text and model: every rule in turn, then each finding settled against
/// the test modules and the suppression directives of the source.
pub open spec fn file_findings(
    file: Seq<char>,
    source: Seq<char>,
    model: &FileModel,
    test_ranges: Seq<(usize, usize)>,
    rules: Seq<LoadedRule>,
    strict: bool,
    ignore_tests: bool,
) -> Seq<FindingView> {
    let raw = all_findings(rules, rules.len() as int, file, model, line_flags(source));
    settled(raw, raw.len() as int, strict, ignore_tests, test_ranges, source_directives(source)->0)
}

/// Runs `rules` over one file and settles each finding against its test
/// modules and its suppression directives.
pub fn analyze_one(
    file: &str,
    source: &str,
    model: &FileModel,
    test_ranges: Vec<(usize, usize)>,
    rules: &Vec<LoadedRule>,
    strict: bool,
    ignore_tests: bool,
) -> (r: Vec<Violation>)
    requires
        2 * source@.len() + 4 <= usize::MAX,
        source_directives(source@) is Some,
        rules_fit(rules@, model, line_flags(source@)),
    ensures
        views(r@) == file_findings(file@, source@, model, test_ranges@, rules@, strict, ignore_tests),
{
    let lines = effective_lines(source);
    let tests = TestModuleRanges::new(test_ranges);
    let suppressions = Suppressions::from_source(source);
    let ghost ds = source_directives(source@)->0;
    let mut raw: Vec<Violation> = Vec::new();
    let mut i: usize = 0;
    while i < rules.len()
        invariant
            i <= rules.len(),
            rules_fit(rules@, model, lines.flags()),
            views(raw@) == all_findings(rules@, i as int, file@, model, lines.flags()),
        decreases rules.len() - i,
    {
        assert(rule_fits(&rules@[i as int], model, lines.flags()));
        apply_rule(&rules[i], file, model, &lines, &mut raw);
        i = i + 1;
    }
    let ghost all = views(raw@);
    let mut out: Vec<Violation> = Vec::new();
    let mut j: usize = 0;
    while j < raw.len()
        invariant
            j <= raw.len(),
            all == views(raw@),
            forall|line: int, rule: Seq<char>|
                0 <= line <= usize::MAX ==> suppressions.suppresses(line, rule) == suppressed_by(
                    ds,
                    line,
                    rule,
                ),
            views(out@) == settled(all, j as int, strict, ignore_tests, tests.ranges(), ds),
        decreases raw.len() - j,
    {
        let v = &raw[j];
        assert(all[j as int] == v@);
        let ghost before = views(out@);
        let in_tests = ignore_tests && tests.contains(v.begin_line);
        if !in_tests {
            if !suppressions.contains(v.begin_line, v.rule_name.as_str()) {
                crate::analyze::rules::push_finding(&mut out, copy_violation(v));
            } else if strict {
                let mut w = copy_violation(v);
                w.suppressed = true;
                assert(w@ == marked(v@));
                crate::analyze::rules::push_finding(&mut out, w);
            }
        }
        assert(views(out@) =~= before + settle(v@, strict, ignore_tests, tests.ranges(), ds));
        j = j + 1;
    }
    out
}

// ----- ordering --------------------------------------------------------------

/// Lexicographic order of texts by character (the order of their UTF-8
/// bytes).
pub open spec fn text_lt(a: Seq<char>, b: Seq<char>) -> bool
    decreases a.len(),
{
    if b.len() == 0 {
        false
    } else if a.len() == 0 {
        true
    } else if a[0] != b[0] {
        a[0] < b[0]
    } else {
        text_lt(a.drop_first(), b.drop_first())
    }
}

pub proof fn lemma_text_lt_trans(a: Seq<char>, b: Seq<char>, c: Seq<char>)
    requires
        text_lt(a, b),
        text_lt(b, c),
    ensures
        text_lt(a, c),
    decreases a.len(),
{
    if a.len() > 0 && b.len() > 0 && c.len() > 0 && a[0] == b[0] && b[0] == c[0] {
        lemma_text_lt_trans(a.drop_first(), b.drop_first(), c.drop_first());
    }
}

pub proof fn lemma_text_lt_total(a: Seq<char>, b: Seq<char>)
    ensures
        a == b || text_lt(a, b) || text_lt(b, a),
    decreases a.len(),
{
    if a.len() > 0 && b.len() > 0 && a[0] == b[0] {
        lemma_text_lt_total(a.drop_first(), b.drop_first());
        if a.drop_first() == b.drop_first() {
            assert(a =~= seq![a[0]] + a.drop_first());
            assert(b =~= seq![b[0]] + b.drop_first());
        }
    } else if a.len() == 0 && b.len() == 0 {
        assert(a =~= b);
    }
}

pub proof fn lemma_text_lt_irrefl(a: Seq<char>)
    ensures
        !text_lt(a, a),
    decreases a.len(),
{
    if a.len() > 0 {
        lemma_text_lt_irrefl(a.drop_first());
    }
}

/// Whether finding `a` sorts after finding `b`: by file, then by line.
pub open spec fn after(a: FindingView, b: FindingView) -> bool {
    text_lt(b.file, a.file) || (a.file == b.file && a.begin_line > b.begin_line)
}

/// Whether findings are in file, then line order.
pub open spec fn located_order(vs: Seq<FindingView>) -> bool {
    forall|i: int, j: int| 0 <= i < j < vs.len() ==> !after(#[trigger] vs[i], #[trigger] vs[j])
}

proof fn lemma_order_trans(a: FindingView, b: FindingView, c: FindingView)
    requires
        !after(a, b),
        !after(b, c),
    ensures
        !after(a, c),
{
    lemma_text_lt_total(a.file, b.file);
    lemma_text_lt_total(b.file, c.file);
    lemma_text_lt_total(a.file, c.file);
    if text_lt(c.file, a.file) {
        if text_lt(a.file, b.file) && text_lt(b.file, c.file) {
            lemma_text_lt_trans(a.file, b.file, c.file);
            lemma_text_lt_trans(c.file, a.file, c.file);
            lemma_text_lt_irrefl(c.file);
        } else if text_lt(a.file, b.file) {
            lemma_text_lt_trans(c.file, a.file, b.file);
            lemma_text_lt_irrefl(b.file);
        } else if text_lt(b.file, c.file) {
            lemma_text_lt_trans(b.file, c.file, a.file);
            lemma_text_lt_irrefl(a.file);
        } else {
            lemma_text_lt_irrefl(a.file);
        }
    }
}

pub fn text_less(a: &String, b: &String) -> (r: bool)
    ensures
        r == text_lt(a@, b@),
{
    let x = crate::report::chars_of_string(a);
    let y = crate::report::chars_of_string(b);
    let mut k: usize = 0;
    assert(x@.skip(0) =~= x@);
    assert(y@.skip(0) =~= y@);
    while k < x.len() && k < y.len() && x[k] == y[k]
        invariant
            k <= x.len(),
            k <= y.len(),
            text_lt(a@, b@) == text_lt(x@.skip(k as int), y@.skip(k as int)),
            x@ == a@,
            y@ == b@,
        decreases x.len() - k,
    {
        assert(x@.skip(k as int).drop_first() =~= x@.skip(k + 1));
        assert(y@.skip(k as int).drop_first() =~= y@.skip(k + 1));
        k = k + 1;
    }
    if k == y.len() {
        false
    } else if k == x.len() {
        true
    } else {
        x[k] < y[k]
    }
}

fn comes_after(a: &Violation, b: &Violation) -> (r: bool)
    ensures
        r == after(a@, b@),
{
    if text_less(&b.file, &a.file) {
        true
    } else if text_less(&a.file, &b.file) {
        false
    } else {
        proof {
            lemma_text_lt_total(a.file@, b.file@);
        }
        a.begin_line > b.begin_line
    }
}

/// Whether a finding stands in `file` at line `line`.
pub open spec fn at_location(file: Seq<char>, line: usize) -> spec_fn(FindingView) -> bool {
    |v: FindingView| v.file == file && v.begin_line == line
}

/// `a` and `b` hold the same findings at each location, in the same order.
pub open spec fn same_per_location(a: Seq<FindingView>, b: Seq<FindingView>) -> bool {
    forall|file: Seq<char>, line: usize|
        #[trigger] a.filter(at_location(file, line)) == b.filter(at_location(file, line))
}

proof fn lemma_filter_none(s: Seq<FindingView>, q: spec_fn(FindingView) -> bool)
    requires
        forall|k: int| 0 <= k < s.len() ==> !q(#[trigger] s[k]),
    ensures
        s.filter(q) == Seq::<FindingView>::empty(),
    decreases s.len(),
{
    reveal(Seq::filter);
    if s.len() > 0 {
        lemma_filter_none(s.drop_last(), q);
    }
    assert(s.filter(q) =~= Seq::<FindingView>::empty());
}

/// Inserting `x` before findings that all sort after it adds `x` to its own
/// location and changes no other.
proof fn lemma_insert_per_location(before: Seq<FindingView>, p: int, x: FindingView, file: Seq<char>, line: usize)
    requires
        0 <= p <= before.len(),
        forall|k: int| p <= k < before.len() ==> after(#[trigger] before[k], x),
    ensures
        before.insert(p, x).filter(at_location(file, line)) == if at_location(file, line)(x) {
            before.filter(at_location(file, line)).push(x)
        } else {
            before.filter(at_location(file, line))
        },
{
    let q = at_location(file, line);
    let head = before.take(p);
    let tail = before.skip(p);
    assert(before.insert(p, x) =~= head + seq![x] + tail);
    assert(before =~= head + tail);
    Seq::filter_distributes_over_add(head + seq![x], tail, q);
    Seq::filter_distributes_over_add(head, seq![x], q);
    Seq::filter_distributes_over_add(head, tail, q);
    reveal(Seq::filter);
    assert(seq![x].drop_last() =~= Seq::<FindingView>::empty());
    assert(Seq::<FindingView>::empty().filter(q) =~= Seq::<FindingView>::empty());
    if q(x) {
        assert forall|k: int| 0 <= k < tail.len() implies !q(#[trigger] tail[k]) by {
            assert(after(before[p + k], x));
            assert(tail[k] == before[p + k]);
            if tail[k].file == x.file {
                lemma_text_lt_irrefl(x.file);
            }
        }
        lemma_filter_none(tail, q);
        assert(seq![x].filter(q) =~= seq![x]);
        assert(head.filter(q) + seq![x] + tail.filter(q) =~= (head + tail).filter(q).push(x));
    } else {
        assert(seq![x].filter(q) =~= Seq::<FindingView>::empty());
        assert(head.filter(q) + Seq::<FindingView>::empty() =~= head.filter(q));
    }
}

/// `vs` in file, then line order; findings of one line keep their order.
pub fn sort_by_location(vs: Vec<Violation>) -> (r: Vec<Violation>)
    ensures
        located_order(views(r@)),
        views(r@).to_multiset() == views(vs@).to_multiset(),
        same_per_location(views(r@), views(vs@)),
{
    let mut input = vs;
    let ghost all = views(input@);
    assert(all.len() == input.len());
    let mut out: Vec<Violation> = Vec::new();
    let mut i: usize = 0;
    assert(views(out@) =~= all.take(0));
    while input.len() > 0
        invariant
            i + input.len() == all.len(),
            all.len() <= usize::MAX,
            views(input@) == all.skip(i as int),
            located_order(views(out@)),
            views(out@).to_multiset() == all.take(i as int).to_multiset(),
            same_per_location(views(out@), all.take(i as int)),
        decreases input.len(),
    {
        let ghost prev = input@;
        assert(views(prev)[0] == prev[0]@);
        assert(all.skip(i as int)[0] == all[i as int]);
        let x = input.remove(0);
        assert(input@ == prev.remove(0));
        assert(x@ == all[i as int]);
        assert(views(input@) =~= all.skip(i + 1)) by {
            assert forall|k: int| 0 <= k < views(input@).len() implies views(input@)[k] == all.skip(i + 1)[k] by {
                assert(input@[k] == prev[k + 1]);
                assert(views(prev)[k + 1] == all.skip(i as int)[k + 1]);
            }
        }
        let mut p: usize = out.len();
        while p > 0 && comes_after(&out[p - 1], &x)
            invariant
                p <= out.len(),
                forall|k: int| p <= k < out.len() ==> after(#[trigger] views(out@)[k], x@),
            decreases p,
        {
            p = p - 1;
        }
        let ghost before = views(out@);
        out.insert(p, x);
        assert(views(out@) =~= before.insert(p as int, x@));
        proof {
            assert forall|a: int, b: int| 0 <= a < b < views(out@).len() implies !after(#[trigger] views(out@)[a], #[trigger] views(out@)[b]) by {
                let o = views(out@);
                if b < p {
                    assert(o[a] == before[a] && o[b] == before[b]);
                } else if a > p {
                    assert(o[a] == before[a - 1] && o[b] == before[b - 1]);
                } else if a == p {
                    assert(after(before[b - 1], x@));
                    assert(o[b] == before[b - 1]);
                    lemma_text_lt_total(x@.file, before[b - 1].file);
                    if text_lt(before[b - 1].file, x@.file) {
                        lemma_text_lt_trans(before[b - 1].file, x@.file, before[b - 1].file);
                        lemma_text_lt_irrefl(before[b - 1].file);
                    }
                } else if b == p {
                    assert(o[a] == before[a]);
                    assert(!after(before[p - 1], x@));
                    if a < p - 1 {
                        lemma_order_trans(before[a], before[p - 1], x@);
                    }
                } else {
                    assert(o[a] == before[a] && o[b] == before[b - 1]);
                }
            }
            vstd::seq_lib::to_multiset_insert(before, p as int, x@);
            assert(all.take(i + 1) =~= all.take(i as int).push(all[i as int]));
            vstd::seq_lib::to_multiset_build(all.take(i as int), all[i as int]);
            assert forall|file: Seq<char>, line: usize|
                #[trigger] views(out@).filter(at_location(file, line)) == all.take(i + 1).filter(at_location(file, line)) by {
                lemma_insert_per_location(before, p as int, x@, file, line);
                all.take(i as int).lemma_filter_push(x@, at_location(file, line));
                assert(before.filter(at_location(file, line)) == all.take(i as int).filter(at_location(file, line)));
            }
        }
        i = i + 1;
    }
    assert(all.take(i as int) =~= all);
    out
}

// ----- many files ----------------------------------------------------------

/// One file handed to the analysis: either its source and model, or the
/// reason it could not be read or parsed.
pub enum FileInput {
    Parsed {
        path: String,
        source: String,
        model: FileModel,
        /// The line spans of its test modules.
        test_ranges: Vec<(usize, usize)>,
    },
    Failed { path: String, message: String },
}

/// The findings of the files among the first `n` inputs that were parsed,
/// in input order.
pub open spec fn inputs_findings(inputs: Seq<FileInput>, n: int, rules: Seq<LoadedRule>, strict: bool, ignore_tests: bool) -> Seq<FindingView>
    decreases n,
{
    if n <= 0 {
        Seq::<FindingView>::empty()
    } else {
        inputs_findings(inputs, n - 1, rules, strict, ignore_tests) + match inputs[n - 1] {
            FileInput::Parsed { path, source, model, test_ranges } => file_findings(
                path@,
                source@,
                &model,
                test_ranges@,
                rules,
                strict,
                ignore_tests,
            ),
            FileInput::Failed { .. } => Seq::<FindingView>::empty(),
        }
    }
}

/// The errors among the first `n` inputs, as (file, message), in order.
pub open spec fn inputs_errors(inputs: Seq<FileInput>, n: int) -> Seq<(Seq<char>, Seq<char>)>
    decreases n,
{
    if n <= 0 {
        Seq::<(Seq<char>, Seq<char>)>::empty()
    } else {
        inputs_errors(inputs, n - 1) + match inputs[n - 1] {
            FileInput::Failed { path, message } => seq![(path@, message@)],
            FileInput::Parsed { .. } => Seq::<(Seq<char>, Seq<char>)>::empty(),
        }
    }
}

/// The errors of a report, as (file, message).
pub open spec fn error_views(es: Seq<ProcessingError>) -> Seq<(Seq<char>, Seq<char>)> {
    es.map_values(|e: ProcessingError| (e.file@, e.message@))
}

/// Whether a parsed input can be analyzed: its source can be scanned and
/// the rules' per-type sums fit.
pub open spec fn input_ready(input: FileInput, rules: Seq<LoadedRule>) -> bool {
    match input {
        FileInput::Parsed { path, source, model, test_ranges } => {
            &&& 2 * source@.len() + 4 <= usize::MAX
            &&& source_directives(source@) is Some
            &&& rules_fit(rules, &model, line_flags(source@))
        },
        FileInput::Failed { .. } => true,
    }
}

/// Whether the per-type numbers of every rule fit in a `usize` for `model`.
pub fn rules_fit_check(rules: &Vec<LoadedRule>, model: &FileModel, lines: &EffectiveLines) -> (b: bool)
    ensures
        b == rules_fit(rules@, model, lines.flags()),
{
    let mut i: usize = 0;
    while i < rules.len()
        invariant
            i <= rules.len(),
            forall|k: int| 0 <= k < i ==> rule_fits(&#[trigger] rules@[k], model, lines.flags()),
        decreases rules.len() - i,
    {
        let rule = &rules[i];
        let fits = match rule.kind {
            RuleKind::ExcessiveClassLength => type_metrics_fit_check(rule, model, lines, TypeMetric::Length),
            RuleKind::ExcessivePublicCount => type_metrics_fit_check(rule, model, lines, TypeMetric::PublicCount),
            RuleKind::TooManyFields => type_metrics_fit_check(rule, model, lines, TypeMetric::Fields),
            RuleKind::TooManyMethods => type_metrics_fit_check(rule, model, lines, TypeMetric::Methods),
            RuleKind::TooManyPublicMethods => type_metrics_fit_check(rule, model, lines, TypeMetric::PublicMethods),
            RuleKind::ExcessiveClassComplexity => type_metrics_fit_check(rule, model, lines, TypeMetric::Complexity),
            _ => true,
        };
        if !fits {
            assert(!rule_fits(&rules@[i as int], model, lines.flags()));
            return false;
        }
        i = i + 1;
    }
    true
}

/// Whether `input` can be analyzed under `rules`: a parsed source must be
/// short enough to scan, must not end inside an escaped literal, and must
/// keep every per-type sum of the rules within a `usize`.
pub fn input_ready_check(input: &FileInput, rules: &Vec<LoadedRule>) -> (b: bool)
    ensures
        b == input_ready(*input, rules@),
{
    match input {
        FileInput::Parsed { source, model, .. } => {
            let n = crate::text::chars_of(source.as_str()).len();
            if n > (usize::MAX - 4) / 2 {
                return false;
            }
            if Suppressions::try_from_source(source.as_str()).is_none() {
                return false;
            }
            let lines = effective_lines(source.as_str());
            rules_fit_check(rules, model, &lines)
        },
        FileInput::Failed { .. } => true,
    }
}

/// Analyzes every file: findings of all files, sorted by file and line;
/// one error per file that could not be read or parsed.
pub fn analyze_files(inputs: Vec<FileInput>, rules: &Vec<LoadedRule>, strict: bool, ignore_tests: bool) -> (r: Report)
    requires
        forall|k: int| 0 <= k < inputs@.len() ==> input_ready(#[trigger] inputs@[k], rules@),
    ensures
        located_order(views(r.violations@)),
        views(r.violations@).to_multiset() == inputs_findings(
            inputs@,
            inputs@.len() as int,
            rules@,
            strict,
            ignore_tests,
        ).to_multiset(),
        error_views(r.errors@) == inputs_errors(inputs@, inputs@.len() as int),
        same_per_location(
            views(r.violations@),
            inputs_findings(inputs@, inputs@.len() as int, rules@, strict, ignore_tests),
        ),
{
    let ghost all = inputs@;
    assert(all.len() == inputs.len());
    assert(all.skip(0) =~= all);
    let mut found: Vec<Violation> = Vec::new();
    let mut errors: Vec<ProcessingError> = Vec::new();
    let mut rest = inputs;
    let mut i: usize = 0;
    while rest.len() > 0
        invariant
            i + rest.len() == all.len(),
            all.len() <= usize::MAX,
            rest@ == all.skip(i as int),
            forall|k: int| 0 <= k < all.len() ==> input_ready(#[trigger] all[k], rules@),
            views(found@) == inputs_findings(all, i as int, rules@, strict, ignore_tests),
            error_views(errors@) == inputs_errors(all, i as int),
        decreases rest.len(),
    {
        let ghost prev = rest@;
        assert(prev[0] == all[i as int]);
        let input = rest.remove(0);
        assert(rest@ =~= all.skip(i + 1)) by {
            assert forall|k: int| 0 <= k < rest@.len() implies rest@[k] == all.skip(i + 1)[k] by {
                assert(rest@[k] == prev[k + 1]);
            }
        }
        assert(input_ready(all[i as int], rules@));
        let ghost before_found = views(found@);
        let ghost before_errors = error_views(errors@);
        match input {
            FileInput::Parsed { path, source, model, test_ranges } => {
                let vs = analyze_one(path.as_str(), source.as_str(), &model, test_ranges, rules, strict, ignore_tests);
                let mut k: usize = 0;
                while k < vs.len()
                    invariant
                        k <= vs.len(),
                        views(found@) == before_found + views(vs@).take(k as int),
                    decreases vs.len() - k,
                {
                    crate::analyze::rules::push_finding(&mut found, copy_violation(&vs[k]));
                    assert(views(vs@).take(k + 1) =~= views(vs@).take(k as int).push(vs@[k as int]@));
                    k = k + 1;
                }
                assert(views(vs@).take(vs.len() as int) =~= views(vs@));
                assert(error_views(errors@) =~= inputs_errors(all, i + 1));
            },
            FileInput::Failed { path, message } => {
                errors.push(ProcessingError { file: path, message });
                assert(error_views(errors@) =~= before_errors.push((all[i as int]->Failed_path@, all[i as int]->Failed_message@)));
                assert(views(found@) =~= inputs_findings(all, i + 1, rules@, strict, ignore_tests));
            },
        }
        i = i + 1;
    }
    assert(all.skip(i as int).len() == 0);
    let violations = sort_by_location(found);
    Report { violations, errors }
}

// ----- strict mode over whole reports -------------------------------------------

proof fn lemma_filter_single(x: FindingView, q: spec_fn(FindingView) -> bool)
    ensures
        seq![x].filter(q) == (if q(x) { seq![x] } else { Seq::<FindingView>::empty() }),
{
    let e = Seq::<FindingView>::empty();
    e.lemma_filter_prepend(x, q);
    assert(seq![x] + e =~= seq![x]);
    assert(e.filter(q) =~= e) by {
        reveal(Seq::filter);
    }
    assert((if q(x) { seq![x] } else { e }) + e =~= (if q(x) { seq![x] } else { e }));
}

proof fn lemma_filter_first(s: Seq<FindingView>, q: spec_fn(FindingView) -> bool)
    requires
        s.len() > 0,
    ensures
        s.filter(q) == (if q(s[0]) { seq![s[0]] } else { Seq::<FindingView>::empty() }) + s.drop_first().filter(q),
{
    assert(s =~= seq![s[0]] + s.drop_first());
    Seq::filter_distributes_over_add(seq![s[0]], s.drop_first(), q);
    lemma_filter_single(s[0], q);
}

proof fn lemma_filter_commute(s: Seq<FindingView>, p: spec_fn(FindingView) -> bool, q: spec_fn(FindingView) -> bool)
    ensures
        s.filter(p).filter(q) == s.filter(q).filter(p),
    decreases s.len(),
{
    reveal(Seq::filter);
    if s.len() > 0 {
        let r = s.drop_last();
        let x = s.last();
        lemma_filter_commute(r, p, q);
        assert(s =~= r + seq![x]);
        Seq::filter_distributes_over_add(r, seq![x], p);
        Seq::filter_distributes_over_add(r, seq![x], q);
        lemma_filter_single(x, p);
        lemma_filter_single(x, q);
        let xp = seq![x].filter(p);
        let xq = seq![x].filter(q);
        Seq::filter_distributes_over_add(r.filter(p), xp, q);
        Seq::filter_distributes_over_add(r.filter(q), xq, p);
        if p(x) {
            lemma_filter_single(x, q);
        } else {
            assert(Seq::<FindingView>::empty().filter(q) =~= Seq::<FindingView>::empty());
        }
        if q(x) {
            lemma_filter_single(x, p);
        } else {
            assert(Seq::<FindingView>::empty().filter(p) =~= Seq::<FindingView>::empty());
        }
    }
}

proof fn lemma_filter_located(s: Seq<FindingView>, p: spec_fn(FindingView) -> bool)
    requires
        located_order(s),
    ensures
        located_order(s.filter(p)),
    decreases s.len(),
{
    reveal(Seq::filter);
    if s.len() > 0 {
        let r = s.drop_last();
        let x = s.last();
        assert(located_order(r)) by {
            assert forall|i: int, j: int| 0 <= i < j < r.len() implies !after(#[trigger] r[i], #[trigger] r[j]) by {
                assert(r[i] == s[i] && r[j] == s[j]);
            }
        }
        lemma_filter_located(r, p);
        let fr = r.filter(p);
        if p(x) {
            let out = fr.push(x);
            assert(s.filter(p) == out);
            assert forall|i: int, j: int| 0 <= i < j < out.len() implies !after(#[trigger] out[i], #[trigger] out[j]) by {
                if j < fr.len() {
                    assert(out[i] == fr[i] && out[j] == fr[j]);
                } else {
                    assert(out[i] == fr[i]);
                    assert(fr.contains(fr[i]));
                    r.lemma_filter_contains_rev(p, fr[i]);
                    let k = choose|k: int| 0 <= k < r.len() && r[k] == fr[i];
                    assert(s[k] == r[k]);
                    assert(!after(s[k], s[s.len() - 1]));
                }
            }
        }
    }
}

/// Two sequences in file and line order with the same findings, in the same
/// order, at every location are equal.
proof fn lemma_located_unique(a: Seq<FindingView>, b: Seq<FindingView>)
    requires
        located_order(a),
        located_order(b),
        same_per_location(a, b),
    ensures
        a == b,
    decreases a.len(),
{
    if a.len() == 0 || b.len() == 0 {
        if a.len() > 0 {
            let q = at_location(a[0].file, a[0].begin_line);
            a.lemma_filter_contains(q, 0);
            assert(a.filter(q) == b.filter(q));
            b.lemma_filter_len(q);
        } else if b.len() > 0 {
            let q = at_location(b[0].file, b[0].begin_line);
            b.lemma_filter_contains(q, 0);
            assert(a.filter(q) == b.filter(q));
            a.lemma_filter_len(q);
        }
        assert(a =~= b);
    } else {
        let x = a[0];
        let y = b[0];
        let qx = at_location(x.file, x.begin_line);
        let qy = at_location(y.file, y.begin_line);
        a.lemma_filter_contains(qx, 0);
        assert(a.filter(qx) == b.filter(qx));
        b.lemma_filter_contains_rev(qx, x);
        let j = choose|j: int| 0 <= j < b.len() && b[j] == x;
        if j > 0 {
            assert(!after(b[0], b[j]));
        }
        b.lemma_filter_contains(qy, 0);
        assert(a.filter(qy) == b.filter(qy));
        a.lemma_filter_contains_rev(qy, y);
        let i = choose|i: int| 0 <= i < a.len() && a[i] == y;
        if i > 0 {
            assert(!after(a[0], a[i]));
        }
        lemma_text_lt_total(x.file, y.file);
        assert(x.file == y.file && x.begin_line == y.begin_line);
        let a2 = a.drop_first();
        let b2 = b.drop_first();
        lemma_filter_first(a, qx);
        lemma_filter_first(b, qx);
        assert(x == a.filter(qx)[0]);
        assert(y == b.filter(qx)[0]);
        assert forall|file: Seq<char>, line: usize|
            #[trigger] a2.filter(at_location(file, line)) == b2.filter(at_location(file, line)) by {
            let q = at_location(file, line);
            lemma_filter_first(a, q);
            lemma_filter_first(b, q);
            assert(a.filter(q) == b.filter(q));
            if q(x) {
                assert(a2.filter(q) =~= a.filter(q).drop_first());
                assert(b2.filter(q) =~= b.filter(q).drop_first());
            }
        }
        assert(located_order(a2)) by {
            assert forall|i: int, j: int| 0 <= i < j < a2.len() implies !after(#[trigger] a2[i], #[trigger] a2[j]) by {
                assert(a2[i] == a[i + 1] && a2[j] == a[j + 1]);
            }
        }
        assert(located_order(b2)) by {
            assert forall|i: int, j: int| 0 <= i < j < b2.len() implies !after(#[trigger] b2[i], #[trigger] b2[j]) by {
                assert(b2[i] == b[i + 1] && b2[j] == b[j + 1]);
            }
        }
        lemma_located_unique(a2, b2);
        assert(a =~= seq![x] + a2);
        assert(b =~= seq![y] + b2);
    }
}

proof fn lemma_inputs_strict(inputs: Seq<FileInput>, n: int, rules: Seq<LoadedRule>, ignore_tests: bool)
    requires
        0 <= n <= inputs.len(),
    ensures
        inputs_findings(inputs, n, rules, false, ignore_tests) == inputs_findings(inputs, n, rules, true, ignore_tests).filter(
            unmarked_pred(),
        ),
    decreases n,
{
    let p = unmarked_pred();
    reveal(Seq::filter);
    if n > 0 {
        lemma_inputs_strict(inputs, n - 1, rules, ignore_tests);
        let prev = inputs_findings(inputs, n - 1, rules, true, ignore_tests);
        match inputs[n - 1] {
            FileInput::Parsed { path, source, model, test_ranges } => {
                let flags = line_flags(source@);
                let raw = all_findings(rules, rules.len() as int, path@, &model, flags);
                lemma_all_findings_unmarked(rules, rules.len() as int, path@, &model, flags);
                assert forall|k: int| 0 <= k < raw.len() implies unmarked(#[trigger] raw[k]) by {}
                law_strict_keeps_suppressed_findings(raw, raw.len() as int, ignore_tests, test_ranges@, source_directives(source@)->0);
                let last = file_findings(path@, source@, &model, test_ranges@, rules, true, ignore_tests);
                Seq::filter_distributes_over_add(prev, last, p);
            },
            FileInput::Failed { .. } => {
                Seq::filter_distributes_over_add(prev, Seq::<FindingView>::empty(), p);
                assert(prev + Seq::<FindingView>::empty() =~= prev);
                assert(Seq::<FindingView>::empty().filter(p) =~= Seq::<FindingView>::empty());
            },
        }
    }
}

/// Strict mode shows what suppression hides and changes nothing else: for
/// the same inputs and rules, the findings of a report made without
/// `--strict` are exactly the unmarked findings of one made with it, in the
/// same order, and none of them is marked.
pub proof fn law_strict_report_keeps_suppressed_findings(
    inputs: Seq<FileInput>,
    rules: Seq<LoadedRule>,
    ignore_tests: bool,
    plain: Seq<FindingView>,
    strict: Seq<FindingView>,
)
    requires
        located_order(plain),
        same_per_location(plain, inputs_findings(inputs, inputs.len() as int, rules, false, ignore_tests)),
        located_order(strict),
        same_per_location(strict, inputs_findings(inputs, inputs.len() as int, rules, true, ignore_tests)),
    ensures
        plain == strict.filter(unmarked_pred()),
        forall|k: int| 0 <= k < plain.len() ==> unmarked(#[trigger] plain[k]),
{
    let p = unmarked_pred();
    let f = inputs_findings(inputs, inputs.len() as int, rules, false, ignore_tests);
    let g = inputs_findings(inputs, inputs.len() as int, rules, true, ignore_tests);
    lemma_inputs_strict(inputs, inputs.len() as int, rules, ignore_tests);
    let shown = strict.filter(p);
    lemma_filter_located(strict, p);
    assert forall|file: Seq<char>, line: usize|
        #[trigger] plain.filter(at_location(file, line)) == shown.filter(at_location(file, line)) by {
        let q = at_location(file, line);
        assert(plain.filter(q) == f.filter(q));
        assert(strict.filter(q) == g.filter(q));
        lemma_filter_commute(g, p, q);
        lemma_filter_commute(strict, p, q);
    }
    lemma_located_unique(plain, shown);
    assert forall|k: int| 0 <= k < plain.len() implies unmarked(#[trigger] plain[k]) by {
        strict.lemma_filter_pred(p, k);
    }
}


} // verus!
