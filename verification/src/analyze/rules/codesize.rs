//! Codesize rule handlers.

use vstd::prelude::*;
use crate::text::decimal;
use crate::report::{chars_of_string, views, FindingView, Violation};
use crate::ruleset::LoadedRule;
use crate::metrics::{code_lines_between, lemma_count_true_mono, lemma_count_true_uniform, EffectiveLines};
use crate::analyze::model::{FileModel, FnModel, MethodRef, TypeModel};
use crate::analyze::helpers::{
    compiled_source, format_message, format_message_spec, func_finding, func_violation,
    ignore_pattern, ignore_pattern_text, ignored_name, ignored_spec, number_text, pattern_source,
    property_bool, property_bool_spec, property_usize, property_usize_spec, type_finding,
    type_violation,
};
use super::{args3, args4, gather, gather_all, kind_label, kind_label_of, one_if, push_finding};

verus! {

pub const DEFAULT_CCN: usize = 10;

pub const DEFAULT_NPATH: usize = 200;

pub const DEFAULT_METHOD_LOC: usize = 100;

pub const DEFAULT_CLASS_LOC: usize = 1000;

pub const DEFAULT_PARAMS: usize = 10;

pub const DEFAULT_PUBLIC: usize = 45;

pub const DEFAULT_FIELDS: usize = 15;

pub const DEFAULT_METHODS: usize = 25;

pub const DEFAULT_PUBLIC_METHODS: usize = 10;

pub const DEFAULT_WMC: usize = 50;

/// The method names the method counts leave out by default.
pub open spec fn default_ignore_pattern() -> Seq<char> {
    "(^(set|get|is|has|with))i"@
}

/// `{0}` kind, `{1}` name, `{2}` value, `{3}` threshold.
pub open spec fn fn_metric_message(rule: &LoadedRule, f: &FnModel, value: usize, threshold: usize) -> Seq<char> {
    format_message_spec(
        rule.message@,
        seq![kind_label(f), f.name@, decimal(value as nat), decimal(threshold as nat)],
    )
}

/// `{0}` node type, `{1}` name, `{2}` value, `{3}` threshold.
pub open spec fn type_count_message(rule: &LoadedRule, t: &TypeModel, value: nat, threshold: usize) -> Seq<char> {
    format_message_spec(
        rule.message@,
        seq![t.node_type@, t.name@, decimal(value), decimal(threshold as nat)],
    )
}

/// `{0}` name, `{1}` value, `{2}` threshold.
pub open spec fn type_metric_message(rule: &LoadedRule, t: &TypeModel, value: nat, threshold: usize) -> Seq<char> {
    format_message_spec(rule.message@, seq![t.name@, decimal(value), decimal(threshold as nat)])
}

fn fn_metric_text(rule: &LoadedRule, f: &FnModel, value: usize, threshold: usize) -> (r: String)
    ensures
        r@ == fn_metric_message(rule, f, value, threshold),
{
    format_message(
        rule.message.as_str(),
        &args4(kind_label_of(f), chars_of_string(&f.name), number_text(value), number_text(threshold)),
    )
}

fn type_count_text(rule: &LoadedRule, t: &TypeModel, value: usize, threshold: usize) -> (r: String)
    ensures
        r@ == type_count_message(rule, t, value as nat, threshold),
{
    format_message(
        rule.message.as_str(),
        &args4(
            chars_of_string(&t.node_type),
            chars_of_string(&t.name),
            number_text(value),
            number_text(threshold),
        ),
    )
}

fn type_metric_text(rule: &LoadedRule, t: &TypeModel, value: usize, threshold: usize) -> (r: String)
    ensures
        r@ == type_metric_message(rule, t, value as nat, threshold),
{
    format_message(
        rule.message.as_str(),
        &args3(chars_of_string(&t.name), number_text(value), number_text(threshold)),
    )
}

// ----- per-function metrics --------------------------------------------------

/// Which per-function number a rule compares.
#[derive(Clone, Copy, PartialEq, Eq, Structural)]
pub enum FnMetric {
    Cyclomatic,
    NPath,
    Length,
    Parameters,
}

/// The lines a span covers: `end - begin + 1`, saturating, and 1 for an
/// inverted span.
pub open spec fn span_lines(begin: usize, end: usize) -> usize {
    if end < begin {
        1
    } else if end - begin + 1 > usize::MAX {
        usize::MAX
    } else {
        (end - begin + 1) as usize
    }
}

fn span_lines_of(begin: usize, end: usize) -> (r: usize)
    ensures
        r == span_lines(begin, end),
{
    end.saturating_sub(begin).saturating_add(1)
}

/// The lines of code of a function: its span, or its effective lines.
pub open spec fn fn_loc_spec(f: &FnModel, flags: Seq<bool>, ignore_ws: bool) -> nat {
    if ignore_ws {
        code_lines_between(flags, f.begin_line, f.end_line)
    } else {
        span_lines(f.begin_line, f.end_line) as nat
    }
}

pub fn fn_loc(f: &FnModel, lines: &EffectiveLines, ignore_ws: bool) -> (r: usize)
    ensures
        r == fn_loc_spec(f, lines.flags(), ignore_ws),
{
    if ignore_ws {
        lines.count(f.begin_line, f.end_line)
    } else {
        span_lines_of(f.begin_line, f.end_line)
    }
}

/// The length ExcessiveMethodLength measures. By default it is the
/// function's line span, `end_line - begin_line + 1` (1 for an inverted
/// span, at most `usize::MAX`), whatever the lines hold. With
/// `ignore-whitespace` only lines holding code count: never more than the
/// span, none when no line of the span holds code, and the whole span when
/// every line of it does.
pub proof fn law_method_length(f: &FnModel, flags: Seq<bool>)
    ensures
        fn_loc_spec(f, flags, false) == (if f.end_line < f.begin_line {
            1int
        } else if f.end_line - f.begin_line + 1 > usize::MAX {
            usize::MAX as int
        } else {
            f.end_line - f.begin_line + 1
        }),
        fn_loc_spec(f, flags, true) <= fn_loc_spec(f, flags, false),
        (forall|k: int| f.begin_line <= k <= f.end_line && 1 <= k <= flags.len() ==> !#[trigger] flags[k - 1])
            ==> fn_loc_spec(f, flags, true) == 0,
        1 <= f.begin_line <= f.end_line <= flags.len() && (forall|k: int|
            f.begin_line <= k <= f.end_line ==> #[trigger] flags[k - 1]) ==> fn_loc_spec(f, flags, true) == f.end_line
            - f.begin_line + 1,
{
    let b = f.begin_line as int;
    let e0 = f.end_line as int;
    let last = flags.len() as int;
    let e = if e0 < last { e0 } else { last };
    if b >= 1 && b <= e {
        lemma_count_true_mono(flags, b - 1, e);
        if forall|k: int| f.begin_line <= k <= f.end_line && 1 <= k <= flags.len() ==> !#[trigger] flags[k - 1] {
            assert forall|k: int| b - 1 <= k < e implies flags[k] == false by {
                assert(!flags[(k + 1) - 1]);
            }
            lemma_count_true_uniform(flags, b - 1, e, false);
        }
        if e0 <= last && (forall|k: int| f.begin_line <= k <= f.end_line ==> #[trigger] flags[k - 1]) {
            assert forall|k: int| b - 1 <= k < e implies flags[k] == true by {
                assert(flags[(k + 1) - 1]);
            }
            lemma_count_true_uniform(flags, b - 1, e, true);
        }
    }
}


/// The property that holds a metric's threshold, and its default.
pub open spec fn metric_key(m: FnMetric) -> Seq<char> {
    match m {
        FnMetric::Cyclomatic => "reportLevel"@,
        _ => "minimum"@,
    }
}

pub open spec fn metric_default(m: FnMetric) -> usize {
    match m {
        FnMetric::Cyclomatic => DEFAULT_CCN,
        FnMetric::NPath => DEFAULT_NPATH,
        FnMetric::Length => DEFAULT_METHOD_LOC,
        FnMetric::Parameters => DEFAULT_PARAMS,
    }
}

pub open spec fn metric_value(m: FnMetric, f: &FnModel, flags: Seq<bool>, ignore_ws: bool) -> usize {
    match m {
        FnMetric::Cyclomatic => f.ccn,
        FnMetric::NPath => f.npath,
        FnMetric::Length => fn_loc_spec(f, flags, ignore_ws) as usize,
        FnMetric::Parameters => f.param_count,
    }
}

/// The finding, if any, of metric `m` for `f`: the value reached the
/// threshold.
pub open spec fn fn_metric_findings(
    rule: &LoadedRule,
    file: Seq<char>,
    m: FnMetric,
    flags: Seq<bool>,
    f: FnModel,
) -> Seq<FindingView> {
    let threshold = property_usize_spec(rule, metric_key(m), metric_default(m));
    let ignore_ws = m == FnMetric::Length && property_bool_spec(rule, "ignore-whitespace"@, false);
    let value = metric_value(m, &f, flags, ignore_ws);
    one_if(
        value >= threshold,
        func_finding(rule, file, &f, fn_metric_message(rule, &f, value, threshold)),
    )
}

pub open spec fn fn_metric_emit(rule: &LoadedRule, file: Seq<char>, m: FnMetric, flags: Seq<bool>) -> spec_fn(
    FnModel,
) -> Seq<FindingView> {
    |f: FnModel| fn_metric_findings(rule, file, m, flags, f)
}

/// Reports every function whose metric `m` reaches the rule's threshold.
pub fn apply_fn_metric(
    rule: &LoadedRule,
    file: &str,
    model: &FileModel,
    lines: &EffectiveLines,
    m: FnMetric,
    out: &mut Vec<Violation>,
)
    ensures
        views(final(out)@) == views(old(out)@) + gather_all(
            model.functions@,
            fn_metric_emit(rule, file@, m, lines.flags()),
        ),
{
    let threshold = match m {
        FnMetric::Cyclomatic => property_usize(rule, "reportLevel", DEFAULT_CCN),
        FnMetric::NPath => property_usize(rule, "minimum", DEFAULT_NPATH),
        FnMetric::Length => property_usize(rule, "minimum", DEFAULT_METHOD_LOC),
        FnMetric::Parameters => property_usize(rule, "minimum", DEFAULT_PARAMS),
    };
    let ignore_ws = match m {
        FnMetric::Length => property_bool(rule, "ignore-whitespace", false),
        _ => false,
    };
    let ghost emit = fn_metric_emit(rule, file@, m, lines.flags());
    let ghost start = views(out@);
    let fs = &model.functions;
    let mut i: usize = 0;
    while i < fs.len()
        invariant
            i <= fs.len(),
            fs == &model.functions,
            emit == fn_metric_emit(rule, file@, m, lines.flags()),
            threshold == property_usize_spec(rule, metric_key(m), metric_default(m)),
            ignore_ws == (m == FnMetric::Length && property_bool_spec(
                rule,
                "ignore-whitespace"@,
                false,
            )),
            views(out@) == start + gather(fs@, i as int, emit),
        decreases fs.len() - i,
    {
        let f = &fs[i];
        let value = match m {
            FnMetric::Cyclomatic => f.ccn,
            FnMetric::NPath => f.npath,
            FnMetric::Length => fn_loc(f, lines, ignore_ws),
            FnMetric::Parameters => f.param_count,
        };
        assert(value == metric_value(m, f, lines.flags(), ignore_ws));
        let ghost before = views(out@);
        if value >= threshold {
            let v = func_violation(rule, file, f, fn_metric_text(rule, f, value, threshold));
            push_finding(out, v);
        }
        assert(emit(fs@[i as int]) == fn_metric_findings(rule, file@, m, lines.flags(), fs@[i as int]));
        assert(views(out@) =~= start + gather(fs@, i + 1, emit));
        i = i + 1;
    }
}

pub fn apply_cyclomatic_complexity(
    rule: &LoadedRule,
    file: &str,
    model: &FileModel,
    lines: &EffectiveLines,
    out: &mut Vec<Violation>,
)
    ensures
        views(final(out)@) == views(old(out)@) + gather_all(
            model.functions@,
            fn_metric_emit(rule, file@, FnMetric::Cyclomatic, lines.flags()),
        ),
{
    apply_fn_metric(rule, file, model, lines, FnMetric::Cyclomatic, out)
}

pub fn apply_npath_complexity(
    rule: &LoadedRule,
    file: &str,
    model: &FileModel,
    lines: &EffectiveLines,
    out: &mut Vec<Violation>,
)
    ensures
        views(final(out)@) == views(old(out)@) + gather_all(
            model.functions@,
            fn_metric_emit(rule, file@, FnMetric::NPath, lines.flags()),
        ),
{
    apply_fn_metric(rule, file, model, lines, FnMetric::NPath, out)
}

pub fn apply_excessive_method_length(
    rule: &LoadedRule,
    file: &str,
    model: &FileModel,
    lines: &EffectiveLines,
    out: &mut Vec<Violation>,
)
    ensures
        views(final(out)@) == views(old(out)@) + gather_all(
            model.functions@,
            fn_metric_emit(rule, file@, FnMetric::Length, lines.flags()),
        ),
{
    apply_fn_metric(rule, file, model, lines, FnMetric::Length, out)
}

pub fn apply_excessive_parameter_list(
    rule: &LoadedRule,
    file: &str,
    model: &FileModel,
    lines: &EffectiveLines,
    out: &mut Vec<Violation>,
)
    ensures
        views(final(out)@) == views(old(out)@) + gather_all(
            model.functions@,
            fn_metric_emit(rule, file@, FnMetric::Parameters, lines.flags()),
        ),
{
    apply_fn_metric(rule, file, model, lines, FnMetric::Parameters, out)
}

// ----- per-type metrics ------------------------------------------------------

/// Which per-type number a rule compares.
#[derive(Clone, Copy, PartialEq, Eq, Structural)]
pub enum TypeMetric {
    /// Lines of the type and its methods (reported at or over the threshold).
    Length,
    /// Public fields and methods (at or over).
    PublicCount,
    /// Fields of a struct or union (over).
    Fields,
    /// Methods not matching the ignore pattern (over).
    Methods,
    /// Public methods not matching the ignore pattern (over).
    PublicMethods,
    /// The sum of the methods' cyclomatic complexities (at or over).
    Complexity,
}

/// The lines of a method: its span, or its effective lines.
pub open spec fn method_loc(m: MethodRef, flags: Seq<bool>, ignore_ws: bool) -> nat {
    if ignore_ws {
        code_lines_between(flags, m.begin_line, m.end_line)
    } else {
        span_lines(m.begin_line, m.end_line) as nat
    }
}

/// The summed flags of the first `n` methods.
pub open spec fn methods_loc(ms: Seq<MethodRef>, n: int, flags: Seq<bool>, ignore_ws: bool) -> nat
    decreases n,
{
    if n <= 0 {
        0
    } else {
        methods_loc(ms, n - 1, flags, ignore_ws) + method_loc(ms[n - 1], flags, ignore_ws)
    }
}

/// The flags of code of a type: its own span plus its methods'.
pub open spec fn type_loc_spec(t: &TypeModel, flags: Seq<bool>, ignore_ws: bool) -> nat {
    (if ignore_ws {
        code_lines_between(flags, t.begin_line, t.end_line)
    } else {
        span_lines(t.begin_line, t.end_line) as nat
    }) + methods_loc(t.methods@, t.methods@.len() as int, flags, ignore_ws)
}

/// How many of the first `n` methods are counted: public ones only when
/// `public_only`, never those the pattern ignores.
pub open spec fn counted_methods(ms: Seq<MethodRef>, n: int, public_only: bool, ignore: Option<Seq<char>>) -> nat
    decreases n,
{
    if n <= 0 {
        0
    } else {
        counted_methods(ms, n - 1, public_only, ignore) + if (!public_only || ms[n - 1].is_public)
            && !ignored_spec(ignore, ms[n - 1].name@) {
            1nat
        } else {
            0nat
        }
    }
}

/// The summed cyclomatic complexity of the first `n` methods.
pub open spec fn methods_ccn(ms: Seq<MethodRef>, n: int) -> nat
    decreases n,
{
    if n <= 0 {
        0
    } else {
        methods_ccn(ms, n - 1) + (ms[n - 1].ccn as nat)
    }
}

pub open spec fn type_metric_key(m: TypeMetric) -> Seq<char> {
    match m {
        TypeMetric::Length => "minimum"@,
        TypeMetric::PublicCount => "minimum"@,
        TypeMetric::Fields => "maxfields"@,
        TypeMetric::Methods => "maxmethods"@,
        TypeMetric::PublicMethods => "maxmethods"@,
        TypeMetric::Complexity => "maximum"@,
    }
}

pub open spec fn type_metric_default(m: TypeMetric) -> usize {
    match m {
        TypeMetric::Length => DEFAULT_CLASS_LOC,
        TypeMetric::PublicCount => DEFAULT_PUBLIC,
        TypeMetric::Fields => DEFAULT_FIELDS,
        TypeMetric::Methods => DEFAULT_METHODS,
        TypeMetric::PublicMethods => DEFAULT_PUBLIC_METHODS,
        TypeMetric::Complexity => DEFAULT_WMC,
    }
}

/// The compiled ignore pattern of a method-count rule.
pub open spec fn method_ignore(rule: &LoadedRule) -> Option<Seq<char>> {
    compiled_source(ignore_pattern_text(rule, default_ignore_pattern()))
}

pub open spec fn type_metric_value(m: TypeMetric, rule: &LoadedRule, t: &TypeModel, flags: Seq<bool>) -> nat {
    match m {
        TypeMetric::Length => type_loc_spec(
            t,
            flags,
            property_bool_spec(rule, "ignore-whitespace"@, false),
        ),
        TypeMetric::PublicCount => (t.public_fields as nat) + counted_methods(
            t.methods@,
            t.methods@.len() as int,
            true,
            None,
        ),
        TypeMetric::Fields => t.field_count as nat,
        TypeMetric::Methods => counted_methods(
            t.methods@,
            t.methods@.len() as int,
            false,
            method_ignore(rule),
        ),
        TypeMetric::PublicMethods => counted_methods(
            t.methods@,
            t.methods@.len() as int,
            true,
            method_ignore(rule),
        ),
        TypeMetric::Complexity => methods_ccn(t.methods@, t.methods@.len() as int),
    }
}

/// Whether metric `m` applies to `t` at all.
pub open spec fn type_metric_applies(m: TypeMetric, t: &TypeModel) -> bool {
    m != TypeMetric::Fields || t.node_type@ == "struct"@ || t.node_type@ == "union"@
}

/// Whether `value` is reported against `threshold`.
pub open spec fn type_metric_hit(m: TypeMetric, value: nat, threshold: usize) -> bool {
    match m {
        TypeMetric::Fields | TypeMetric::Methods | TypeMetric::PublicMethods => value > threshold,
        _ => value >= threshold,
    }
}

pub open spec fn type_metric_text_spec(m: TypeMetric, rule: &LoadedRule, t: &TypeModel, value: nat, threshold: usize) -> Seq<char> {
    match m {
        TypeMetric::Length | TypeMetric::Complexity => type_metric_message(rule, t, value, threshold),
        _ => type_count_message(rule, t, value, threshold),
    }
}

pub open spec fn type_metric_findings(
    rule: &LoadedRule,
    file: Seq<char>,
    m: TypeMetric,
    flags: Seq<bool>,
    t: TypeModel,
) -> Seq<FindingView> {
    let threshold = property_usize_spec(rule, type_metric_key(m), type_metric_default(m));
    let value = type_metric_value(m, rule, &t, flags);
    one_if(
        type_metric_applies(m, &t) && type_metric_hit(m, value, threshold),
        type_finding(rule, file, &t, type_metric_text_spec(m, rule, &t, value, threshold)),
    )
}

pub open spec fn type_metric_emit(rule: &LoadedRule, file: Seq<char>, m: TypeMetric, flags: Seq<bool>) -> spec_fn(
    TypeModel,
) -> Seq<FindingView> {
    |t: TypeModel| type_metric_findings(rule, file, m, flags, t)
}

/// Whether every type's metric fits in a `usize`.
pub open spec fn type_metrics_fit(rule: &LoadedRule, model: &FileModel, m: TypeMetric, flags: Seq<bool>) -> bool {
    forall|k: int|
        0 <= k < model.types@.len() ==> type_metric_value(m, rule, &#[trigger] model.types@[k], flags)
            <= usize::MAX
}

proof fn lemma_methods_loc_mono(ms: Seq<MethodRef>, a: int, b: int, flags: Seq<bool>, ignore_ws: bool)
    requires
        0 <= a <= b,
    ensures
        methods_loc(ms, a, flags, ignore_ws) <= methods_loc(ms, b, flags, ignore_ws),
    decreases b - a,
{
    if a < b {
        lemma_methods_loc_mono(ms, a, b - 1, flags, ignore_ws);
    }
}

proof fn lemma_methods_ccn_mono(ms: Seq<MethodRef>, a: int, b: int)
    requires
        0 <= a <= b,
    ensures
        methods_ccn(ms, a) <= methods_ccn(ms, b),
    decreases b - a,
{
    if a < b {
        lemma_methods_ccn_mono(ms, a, b - 1);
    }
}

proof fn lemma_counted_bound(ms: Seq<MethodRef>, n: int, public_only: bool, ignore: Option<Seq<char>>)
    requires
        0 <= n,
    ensures
        counted_methods(ms, n, public_only, ignore) <= n,
    decreases n,
{
    if n > 0 {
        lemma_counted_bound(ms, n - 1, public_only, ignore);
    }
}

fn method_loc_of(m: &MethodRef, lines: &EffectiveLines, ignore_ws: bool) -> (r: usize)
    ensures
        r == method_loc(*m, lines.flags(), ignore_ws),
{
    if ignore_ws {
        lines.count(m.begin_line, m.end_line)
    } else {
        span_lines_of(m.begin_line, m.end_line)
    }
}

/// The lines of code of a type and its methods.
pub fn type_loc(t: &TypeModel, lines: &EffectiveLines, ignore_ws: bool) -> (r: usize)
    requires
        type_loc_spec(t, lines.flags(), ignore_ws) <= usize::MAX,
    ensures
        r == type_loc_spec(t, lines.flags(), ignore_ws),
{
    let mut loc: usize = if ignore_ws {
        lines.count(t.begin_line, t.end_line)
    } else {
        span_lines_of(t.begin_line, t.end_line)
    };
    let ghost own = loc as nat;
    let ms = &t.methods;
    let mut i: usize = 0;
    while i < ms.len()
        invariant
            i <= ms.len(),
            ms == &t.methods,
            own + methods_loc(ms@, ms@.len() as int, lines.flags(), ignore_ws) <= usize::MAX,
            loc == own + methods_loc(ms@, i as int, lines.flags(), ignore_ws),
        decreases ms.len() - i,
    {
        proof {
            lemma_methods_loc_mono(ms@, i + 1, ms@.len() as int, lines.flags(), ignore_ws);
        }
        loc = loc + method_loc_of(&ms[i], lines, ignore_ws);
        i = i + 1;
    }
    loc
}

fn count_methods(ms: &Vec<MethodRef>, public_only: bool, ignore: &Option<crate::analyze::helpers::PhpmdPattern>) -> (r: usize)
    ensures
        r == counted_methods(ms@, ms@.len() as int, public_only, pattern_source(*ignore)),
{
    let mut n: usize = 0;
    let mut i: usize = 0;
    while i < ms.len()
        invariant
            i <= ms.len(),
            n == counted_methods(ms@, i as int, public_only, pattern_source(*ignore)),
        decreases ms.len() - i,
    {
        proof {
            lemma_counted_bound(ms@, i as int, public_only, pattern_source(*ignore));
        }
        if (!public_only || ms[i].is_public) && !ignored_name(ignore, &ms[i].name) {
            n = n + 1;
        }
        i = i + 1;
    }
    n
}

fn sum_ccn(ms: &Vec<MethodRef>) -> (r: usize)
    requires
        methods_ccn(ms@, ms@.len() as int) <= usize::MAX,
    ensures
        r == methods_ccn(ms@, ms@.len() as int),
{
    let mut n: usize = 0;
    let mut i: usize = 0;
    while i < ms.len()
        invariant
            i <= ms.len(),
            methods_ccn(ms@, ms@.len() as int) <= usize::MAX,
            n == methods_ccn(ms@, i as int),
        decreases ms.len() - i,
    {
        proof {
            lemma_methods_ccn_mono(ms@, i + 1, ms@.len() as int);
        }
        n = n + ms[i].ccn;
        i = i + 1;
    }
    n
}

fn is_struct_or_union(t: &TypeModel) -> (b: bool)
    ensures
        b == (t.node_type@ == "struct"@ || t.node_type@ == "union"@),
{
    let k = chars_of_string(&t.node_type);
    let s = crate::text::chars_of("struct");
    let u = crate::text::chars_of("union");
    crate::text::chars_eq(&k, &s) || crate::text::chars_eq(&k, &u)
}

/// Reports every type whose metric `m` passes the rule's threshold.
pub fn apply_type_metric(
    rule: &LoadedRule,
    file: &str,
    model: &FileModel,
    lines: &EffectiveLines,
    m: TypeMetric,
    out: &mut Vec<Violation>,
)
    requires
        type_metrics_fit(rule, model, m, lines.flags()),
    ensures
        views(final(out)@) == views(old(out)@) + gather_all(
            model.types@,
            type_metric_emit(rule, file@, m, lines.flags()),
        ),
{
    let threshold = match m {
        TypeMetric::Length => property_usize(rule, "minimum", DEFAULT_CLASS_LOC),
        TypeMetric::PublicCount => property_usize(rule, "minimum", DEFAULT_PUBLIC),
        TypeMetric::Fields => property_usize(rule, "maxfields", DEFAULT_FIELDS),
        TypeMetric::Methods => property_usize(rule, "maxmethods", DEFAULT_METHODS),
        TypeMetric::PublicMethods => property_usize(rule, "maxmethods", DEFAULT_PUBLIC_METHODS),
        TypeMetric::Complexity => property_usize(rule, "maximum", DEFAULT_WMC),
    };
    let ignore_ws = property_bool(rule, "ignore-whitespace", false);
    let ignore = match m {
        TypeMetric::Methods | TypeMetric::PublicMethods => ignore_pattern(
            rule,
            "(^(set|get|is|has|with))i",
        ),
        _ => None,
    };
    proof {
        reveal_strlit("(^(set|get|is|has|with))i");
    }
    let ghost emit = type_metric_emit(rule, file@, m, lines.flags());
    let ghost start = views(out@);
    let ts = &model.types;
    let mut i: usize = 0;
    while i < ts.len()
        invariant
            i <= ts.len(),
            ts == &model.types,
            type_metrics_fit(rule, model, m, lines.flags()),
            emit == type_metric_emit(rule, file@, m, lines.flags()),
            threshold == property_usize_spec(rule, type_metric_key(m), type_metric_default(m)),
            ignore_ws == property_bool_spec(rule, "ignore-whitespace"@, false),
            (m == TypeMetric::Methods || m == TypeMetric::PublicMethods) ==> pattern_source(ignore)
                == method_ignore(rule),
            views(out@) == start + gather(ts@, i as int, emit),
        decreases ts.len() - i,
    {
        let t = &ts[i];
        assert(type_metric_value(m, rule, t, lines.flags()) <= usize::MAX);
        let applies = match m {
            TypeMetric::Fields => is_struct_or_union(t),
            _ => true,
        };
        let ghost before = views(out@);
        if applies {
            let value: usize = match m {
                TypeMetric::Length => type_loc(t, lines, ignore_ws),
                TypeMetric::PublicCount => {
                    let n = count_methods(&t.methods, true, &None);
                    proof {
                        lemma_counted_bound(t.methods@, t.methods@.len() as int, true, None);
                    }
                    t.public_fields + n
                },
                TypeMetric::Fields => t.field_count,
                TypeMetric::Methods => count_methods(&t.methods, false, &ignore),
                TypeMetric::PublicMethods => count_methods(&t.methods, true, &ignore),
                TypeMetric::Complexity => sum_ccn(&t.methods),
            };
            assert(value == type_metric_value(m, rule, t, lines.flags()));
            let hit = match m {
                TypeMetric::Fields | TypeMetric::Methods | TypeMetric::PublicMethods => value
                    > threshold,
                _ => value >= threshold,
            };
            if hit {
                let text = match m {
                    TypeMetric::Length | TypeMetric::Complexity => type_metric_text(
                        rule,
                        t,
                        value,
                        threshold,
                    ),
                    _ => type_count_text(rule, t, value, threshold),
                };
                push_finding(out, type_violation(rule, file, t, text));
            }
        }
        assert(emit(ts@[i as int]) == type_metric_findings(rule, file@, m, lines.flags(), ts@[i as int]));
        assert(views(out@) =~= start + gather(ts@, i + 1, emit));
        i = i + 1;
    }
}

/// The checked sum of `start` and the lines of the methods: `None` where it
/// passes `usize::MAX`.
fn checked_type_loc(t: &TypeModel, lines: &EffectiveLines, ignore_ws: bool, start: usize) -> (r: Option<usize>)
    ensures
        r matches Some(v) ==> v == start + methods_loc(t.methods@, t.methods@.len() as int, lines.flags(), ignore_ws),
        r is None ==> start + methods_loc(t.methods@, t.methods@.len() as int, lines.flags(), ignore_ws) > usize::MAX,
{
    let ms = &t.methods;
    let mut loc: usize = start;
    let mut i: usize = 0;
    while i < ms.len()
        invariant
            i <= ms.len(),
            ms == &t.methods,
            loc == start + methods_loc(ms@, i as int, lines.flags(), ignore_ws),
        decreases ms.len() - i,
    {
        match loc.checked_add(method_loc_of(&ms[i], lines, ignore_ws)) {
            Some(next) => loc = next,
            None => {
                proof {
                    lemma_methods_loc_mono(ms@, i + 1, ms@.len() as int, lines.flags(), ignore_ws);
                }
                return None;
            },
        }
        i = i + 1;
    }
    Some(loc)
}

/// Whether the summed cyclomatic complexity of the methods fits.
fn ccn_fits(ms: &Vec<MethodRef>) -> (b: bool)
    ensures
        b == (methods_ccn(ms@, ms@.len() as int) <= usize::MAX),
{
    let mut n: usize = 0;
    let mut i: usize = 0;
    while i < ms.len()
        invariant
            i <= ms.len(),
            n == methods_ccn(ms@, i as int),
        decreases ms.len() - i,
    {
        match n.checked_add(ms[i].ccn) {
            Some(next) => n = next,
            None => {
                proof {
                    lemma_methods_ccn_mono(ms@, i + 1, ms@.len() as int);
                }
                return false;
            },
        }
        i = i + 1;
    }
    true
}

/// Whether metric `m` of `t` under `rule` fits in a `usize`.
pub fn type_metric_fits(rule: &LoadedRule, t: &TypeModel, lines: &EffectiveLines, m: TypeMetric) -> (b: bool)
    ensures
        b == (type_metric_value(m, rule, t, lines.flags()) <= usize::MAX),
{
    match m {
        TypeMetric::Length => {
            let ignore_ws = property_bool(rule, "ignore-whitespace", false);
            let own: usize = if ignore_ws {
                lines.count(t.begin_line, t.end_line)
            } else {
                span_lines_of(t.begin_line, t.end_line)
            };
            checked_type_loc(t, lines, ignore_ws, own).is_some()
        },
        TypeMetric::PublicCount => {
            let n = count_methods(&t.methods, true, &None);
            t.public_fields.checked_add(n).is_some()
        },
        TypeMetric::Fields => true,
        TypeMetric::Methods | TypeMetric::PublicMethods => {
            proof {
                lemma_counted_bound(t.methods@, t.methods@.len() as int, m == TypeMetric::PublicMethods, method_ignore(rule));
            }
            assert(t.methods@.len() == t.methods.len());
            true
        },
        TypeMetric::Complexity => ccn_fits(&t.methods),
    }
}

/// Whether metric `m` of every type of `model` fits in a `usize`.
pub fn type_metrics_fit_check(rule: &LoadedRule, model: &FileModel, lines: &EffectiveLines, m: TypeMetric) -> (b: bool)
    ensures
        b == type_metrics_fit(rule, model, m, lines.flags()),
{
    let ts = &model.types;
    let mut i: usize = 0;
    while i < ts.len()
        invariant
            i <= ts.len(),
            ts == &model.types,
            forall|k: int| 0 <= k < i ==> type_metric_value(m, rule, &#[trigger] ts@[k], lines.flags()) <= usize::MAX,
        decreases ts.len() - i,
    {
        if !type_metric_fits(rule, &ts[i], lines, m) {
            return false;
        }
        i = i + 1;
    }
    true
}

pub fn apply_excessive_class_length(
    rule: &LoadedRule,
    file: &str,
    model: &FileModel,
    lines: &EffectiveLines,
    out: &mut Vec<Violation>,
)
    requires
        type_metrics_fit(rule, model, TypeMetric::Length, lines.flags()),
    ensures
        views(final(out)@) == views(old(out)@) + gather_all(
            model.types@,
            type_metric_emit(rule, file@, TypeMetric::Length, lines.flags()),
        ),
{
    apply_type_metric(rule, file, model, lines, TypeMetric::Length, out)
}

pub fn apply_excessive_public_count(
    rule: &LoadedRule,
    file: &str,
    model: &FileModel,
    lines: &EffectiveLines,
    out: &mut Vec<Violation>,
)
    requires
        type_metrics_fit(rule, model, TypeMetric::PublicCount, lines.flags()),
    ensures
        views(final(out)@) == views(old(out)@) + gather_all(
            model.types@,
            type_metric_emit(rule, file@, TypeMetric::PublicCount, lines.flags()),
        ),
{
    apply_type_metric(rule, file, model, lines, TypeMetric::PublicCount, out)
}

pub fn apply_too_many_fields(
    rule: &LoadedRule,
    file: &str,
    model: &FileModel,
    lines: &EffectiveLines,
    out: &mut Vec<Violation>,
)
    requires
        type_metrics_fit(rule, model, TypeMetric::Fields, lines.flags()),
    ensures
        views(final(out)@) == views(old(out)@) + gather_all(
            model.types@,
            type_metric_emit(rule, file@, TypeMetric::Fields, lines.flags()),
        ),
{
    apply_type_metric(rule, file, model, lines, TypeMetric::Fields, out)
}

pub fn apply_too_many_methods(
    rule: &LoadedRule,
    file: &str,
    model: &FileModel,
    lines: &EffectiveLines,
    out: &mut Vec<Violation>,
)
    requires
        type_metrics_fit(rule, model, TypeMetric::Methods, lines.flags()),
    ensures
        views(final(out)@) == views(old(out)@) + gather_all(
            model.types@,
            type_metric_emit(rule, file@, TypeMetric::Methods, lines.flags()),
        ),
{
    apply_type_metric(rule, file, model, lines, TypeMetric::Methods, out)
}

pub fn apply_too_many_public_methods(
    rule: &LoadedRule,
    file: &str,
    model: &FileModel,
    lines: &EffectiveLines,
    out: &mut Vec<Violation>,
)
    requires
        type_metrics_fit(rule, model, TypeMetric::PublicMethods, lines.flags()),
    ensures
        views(final(out)@) == views(old(out)@) + gather_all(
            model.types@,
            type_metric_emit(rule, file@, TypeMetric::PublicMethods, lines.flags()),
        ),
{
    apply_type_metric(rule, file, model, lines, TypeMetric::PublicMethods, out)
}

pub fn apply_excessive_class_complexity(
    rule: &LoadedRule,
    file: &str,
    model: &FileModel,
    lines: &EffectiveLines,
    out: &mut Vec<Violation>,
)
    requires
        type_metrics_fit(rule, model, TypeMetric::Complexity, lines.flags()),
    ensures
        views(final(out)@) == views(old(out)@) + gather_all(
            model.types@,
            type_metric_emit(rule, file@, TypeMetric::Complexity, lines.flags()),
        ),
{
    apply_type_metric(rule, file, model, lines, TypeMetric::Complexity, out)
}

} // verus!
