//! Design rule handlers.

use vstd::prelude::*;
use crate::analyze::cohesion::{lcom4, lcom4_spec};
use crate::text::{decimal, list_items, lower, texts};
use crate::report::{chars_of_string, views, FindingView, Violation};
use crate::ruleset::LoadedRule;
use crate::analyze::model::{CountLoopHit, FieldInfo, FileModel, FnModel, Invocation, NamedSite, TypeModel};
use crate::analyze::helpers::{
    arg_texts, format_message, format_message_spec, listed, name_finding, name_violation, number_text,
    property_bool, property_bool_spec, property_usize, property_usize_spec, type_finding,
    type_violation,
};
use super::{args1, args2, args3, gather, gather_all, image, image_of, kind_label, kind_label_of, one_if, push_finding};
use super::cleancode::{apply_body_lines, body_lines_emit, BodyLines};

verus! {

pub const DEFAULT_CBO: usize = 13;

pub const DEFAULT_LCOM4: usize = 1;

// ----- exits -----------------------------------------------------------------

pub open spec fn exit_findings(rule: &LoadedRule, file: Seq<char>, f: FnModel) -> Seq<FindingView> {
    match f.exit_line {
        Some(line) if f.has_body => seq![
            name_finding(
                rule,
                file,
                line,
                format_message_spec(rule.message@, seq![kind_label(&f), f.name@]),
            ),
        ],
        _ => Seq::<FindingView>::empty(),
    }
}

pub open spec fn exit_emit(rule: &LoadedRule, file: Seq<char>) -> spec_fn(FnModel) -> Seq<FindingView> {
    |f: FnModel| exit_findings(rule, file, f)
}

pub fn apply_exit_expression(rule: &LoadedRule, file: &str, model: &FileModel, out: &mut Vec<Violation>)
    ensures
        views(final(out)@) == views(old(out)@) + gather_all(model.functions@, exit_emit(rule, file@)),
{
    let ghost emit = exit_emit(rule, file@);
    let ghost start = views(out@);
    let fs = &model.functions;
    let mut i: usize = 0;
    while i < fs.len()
        invariant
            i <= fs.len(),
            fs == &model.functions,
            emit == exit_emit(rule, file@),
            views(out@) == start + gather(fs@, i as int, emit),
        decreases fs.len() - i,
    {
        let f = &fs[i];
        if f.has_body {
            match f.exit_line {
                Some(line) => {
                    let text = format_message(
                        rule.message.as_str(),
                        &args2(kind_label_of(f), chars_of_string(&f.name)),
                    );
                    push_finding(out, name_violation(rule, file, line, text));
                },
                None => {},
            }
        }
        assert(emit(fs@[i as int]) == exit_findings(rule, file@, fs@[i as int]));
        assert(views(out@) =~= start + gather(fs@, i + 1, emit));
        i = i + 1;
    }
}

/// Rust has no `goto`: the rule loads and never reports.
pub fn apply_goto_statement(rule: &LoadedRule, file: &str, model: &FileModel, out: &mut Vec<Violation>)
    ensures
        final(out)@ == old(out)@,
{
}

// ----- counts in loops -------------------------------------------------------

pub open spec fn count_hit_findings(rule: &LoadedRule, file: Seq<char>, h: CountLoopHit) -> Seq<FindingView> {
    seq![
        name_finding(
            rule,
            file,
            h.line,
            format_message_spec(rule.message@, seq![h.func_name@, h.loop_kind@]),
        ),
    ]
}

pub open spec fn count_hit_emit(rule: &LoadedRule, file: Seq<char>) -> spec_fn(CountLoopHit) -> Seq<FindingView> {
    |h: CountLoopHit| count_hit_findings(rule, file, h)
}

/// Whether a call of `name` ends the process.
pub open spec fn exit_name(name: Seq<char>) -> bool {
    name == "exit"@ || name == "abort"@
}

/// Whether invocation `v` is a call, not a macro, of a name that ends the
/// process.
pub open spec fn exits(v: Invocation) -> bool {
    !v.is_macro && v.segments@.len() > 0 && exit_name(v.segments@.last()@)
}

/// The line of the first of `invs` from `k` on that ends the process.
pub open spec fn exit_from(invs: Seq<Invocation>, k: int) -> Option<usize>
    decreases invs.len() - k,
{
    if k < 0 || k >= invs.len() {
        None
    } else if exits(invs[k]) {
        Some(invs[k].path_line)
    } else {
        exit_from(invs, k + 1)
    }
}

/// The line of the first call in a body, in body order, that ends the
/// process (`exit` or `abort`).
pub fn exit_line_of(invocations: &Vec<Invocation>) -> (r: Option<usize>)
    ensures
        r == exit_from(invocations@, 0),
{
    let mut k: usize = 0;
    while k < invocations.len()
        invariant
            k <= invocations.len(),
            exit_from(invocations@, 0) == exit_from(invocations@, k as int),
        decreases invocations.len() - k,
    {
        let v = &invocations[k];
        if !v.is_macro && v.segments.len() > 0 {
            let last = chars_of_string(&v.segments[v.segments.len() - 1]);
            proof {
                reveal_strlit("exit");
                reveal_strlit("abort");
            }
            if crate::text::chars_eq(&last, &crate::text::chars_of("exit")) || crate::text::chars_eq(&last, &crate::text::chars_of("abort")) {
                return Some(v.path_line);
            }
        }
        k = k + 1;
    }
    None
}

/// Whether a call of `name` in a loop head counts elements.
pub open spec fn counting_name(name: Seq<char>) -> bool {
    name == "len"@ || name == "capacity"@
}

/// The calls among the first `n` of `calls` that count elements.
pub open spec fn counting_calls(calls: Seq<CountLoopHit>, n: int) -> Seq<CountLoopHit>
    decreases n,
{
    if n <= 0 || n > calls.len() {
        Seq::empty()
    } else if counting_name(calls[n - 1].func_name@) {
        counting_calls(calls, n - 1).push(calls[n - 1])
    } else {
        counting_calls(calls, n - 1)
    }
}

/// The calls in loop heads that count elements (`len`, `capacity`), in
/// order.
pub fn counting_hits(calls: Vec<CountLoopHit>) -> (r: Vec<CountLoopHit>)
    ensures
        r@ == counting_calls(calls@, calls@.len() as int),
{
    let ghost all = calls@;
    let mut out: Vec<CountLoopHit> = Vec::new();
    let mut rest = calls;
    let mut k: usize = 0;
    let total = rest.len();
    assert(all.skip(0) =~= all);
    while rest.len() > 0
        invariant
            total == all.len(),
            k + rest@.len() == all.len(),
            rest@ == all.skip(k as int),
            out@ == counting_calls(all, k as int),
        decreases rest.len(),
    {
        let c = rest.remove(0);
        assert(c == all[k as int]);
        assert(rest@ =~= all.skip(k + 1));
        let name = chars_of_string(&c.func_name);
        proof {
            reveal_strlit("len");
            reveal_strlit("capacity");
        }
        if crate::text::chars_eq(&name, &crate::text::chars_of("len")) || crate::text::chars_eq(&name, &crate::text::chars_of("capacity")) {
            out.push(c);
        }
        k = k + 1;
    }
    out
}

pub open spec fn count_in_loop_emit(rule: &LoadedRule, file: Seq<char>) -> spec_fn(FnModel) -> Seq<FindingView> {
    |f: FnModel| if f.has_body {
        gather_all(f.count_in_loop@, count_hit_emit(rule, file))
    } else {
        Seq::<FindingView>::empty()
    }
}

fn report_count_hits(rule: &LoadedRule, file: &str, hs: &Vec<CountLoopHit>, out: &mut Vec<Violation>)
    ensures
        views(final(out)@) == views(old(out)@) + gather_all(hs@, count_hit_emit(rule, file@)),
{
    let ghost emit = count_hit_emit(rule, file@);
    let ghost start = views(out@);
    let mut i: usize = 0;
    while i < hs.len()
        invariant
            i <= hs.len(),
            emit == count_hit_emit(rule, file@),
            views(out@) == start + gather(hs@, i as int, emit),
        decreases hs.len() - i,
    {
        let h = &hs[i];
        let text = format_message(
            rule.message.as_str(),
            &args2(chars_of_string(&h.func_name), chars_of_string(&h.loop_kind)),
        );
        push_finding(out, name_violation(rule, file, h.line, text));
        assert(emit(hs@[i as int]) == count_hit_findings(rule, file@, hs@[i as int]));
        assert(views(out@) =~= start + gather(hs@, i + 1, emit));
        i = i + 1;
    }
}

pub fn apply_count_in_loop_expression(rule: &LoadedRule, file: &str, model: &FileModel, out: &mut Vec<Violation>)
    ensures
        views(final(out)@) == views(old(out)@) + gather_all(model.functions@, count_in_loop_emit(rule, file@)),
{
    let ghost emit = count_in_loop_emit(rule, file@);
    let ghost start = views(out@);
    let fs = &model.functions;
    let mut i: usize = 0;
    while i < fs.len()
        invariant
            i <= fs.len(),
            fs == &model.functions,
            emit == count_in_loop_emit(rule, file@),
            views(out@) == start + gather(fs@, i as int, emit),
        decreases fs.len() - i,
    {
        let f = &fs[i];
        if f.has_body {
            report_count_hits(rule, file, &f.count_in_loop, out);
        }
        assert(views(out@) =~= start + gather(fs@, i + 1, emit));
        i = i + 1;
    }
}

// ----- development fragments -------------------------------------------------

/// Whether `name` is an unwanted development function: the defaults
/// `println`, `print`, `eprintln`, `dbg`, or one listed in `extra`, all
/// compared in ASCII lowercase.
pub open spec fn unwanted(extra: Seq<char>, name: Seq<char>) -> bool {
    let l = lower(name);
    ||| l == "println"@
    ||| l == "print"@
    ||| l == "eprintln"@
    ||| l == "dbg"@
    ||| lowered(list_items(extra)).contains(l)
}

/// Every text of `s` in ASCII lowercase.
pub open spec fn lowered(s: Seq<Seq<char>>) -> Seq<Seq<char>> {
    s.map_values(|x: Seq<char>| lower(x))
}

/// The `unwanted-functions` property, empty when absent.
pub open spec fn unwanted_extra(rule: &LoadedRule) -> Seq<char> {
    match rule.property("unwanted-functions"@) {
        Some(v) => v,
        None => Seq::<char>::empty(),
    }
}

/// Whether `x` is one of the texts of `v`.
fn texts_contain(v: &Vec<Vec<char>>, x: &Vec<char>) -> (b: bool)
    ensures
        b == arg_texts(v@).contains(x@),
{
    let ghost all = arg_texts(v@);
    let mut k: usize = 0;
    while k < v.len()
        invariant
            k <= v.len(),
            all == arg_texts(v@),
            forall|j: int| 0 <= j < k ==> all[j] != x@,
        decreases v.len() - k,
    {
        if crate::text::chars_eq(&v[k], x) {
            assert(all[k as int] == x@);
            return true;
        }
        k = k + 1;
    }
    false
}

/// The set of unwanted development functions, lowercased.
pub struct UnwantedSet {
    names: Vec<Vec<char>>,
    extra: Ghost<Seq<char>>,
}

impl UnwantedSet {
    pub closed spec fn extra(&self) -> Seq<char> {
        self.extra@
    }

    #[verifier::type_invariant]
    closed spec fn lists_unwanted(&self) -> bool {
        forall|n: Seq<char>|
            #![trigger unwanted(self.extra@, n)]
            unwanted(self.extra@, n) <==> arg_texts(self.names@).contains(lower(n))
    }

    /// Whether `name` is unwanted.
    pub fn contains(&self, name: &Vec<char>) -> (b: bool)
        ensures
            b == unwanted(self.extra(), name@),
    {
        proof {
            use_type_invariant(self);
        }
        let mut l: Vec<char> = Vec::new();
        let mut i: usize = 0;
        while i < name.len()
            invariant
                i <= name.len(),
                l@ == lower(name@.take(i as int)),
            decreases name.len() - i,
        {
            l.push(crate::text::lower_of(name[i]));
            i = i + 1;
            assert(lower(name@.take(i as int)) =~= lower(name@.take(i - 1)).push(
                crate::text::lower_char(name@[i - 1]),
            ));
        }
        assert(name@.take(name.len() as int) =~= name@);
        texts_contain(&self.names, &l)
    }
}

fn lower_chars(v: &Vec<char>) -> (r: Vec<char>)
    ensures
        r@ == lower(v@),
{
    let mut l: Vec<char> = Vec::new();
    let mut i: usize = 0;
    while i < v.len()
        invariant
            i <= v.len(),
            l@ == lower(v@.take(i as int)),
        decreases v.len() - i,
    {
        l.push(crate::text::lower_of(v[i]));
        i = i + 1;
        assert(lower(v@.take(i as int)) =~= lower(v@.take(i - 1)).push(
            crate::text::lower_char(v@[i - 1]),
        ));
    }
    assert(v@.take(v.len() as int) =~= v@);
    l
}

/// The unwanted development functions: the defaults and those listed in
/// `extra` (comma-separated).
pub fn unwanted_function_set(extra: &str) -> (r: UnwantedSet)
    ensures
        r.extra() == extra@,
{
    let mut names: Vec<Vec<char>> = Vec::new();
    names.push(crate::text::chars_of("println"));
    names.push(crate::text::chars_of("print"));
    names.push(crate::text::chars_of("eprintln"));
    names.push(crate::text::chars_of("dbg"));
    let items = crate::text::split_list(extra);
    let ghost extra_lower = lowered(list_items(extra@));
    let mut i: usize = 0;
    while i < items.len()
        invariant
            i <= items.len(),
            texts(items@) == list_items(extra@),
            extra_lower == lowered(list_items(extra@)),
            names@.len() == 4 + i,
            names@[0]@ == "println"@,
            names@[1]@ == "print"@,
            names@[2]@ == "eprintln"@,
            names@[3]@ == "dbg"@,
            forall|j: int| 0 <= j < i ==> #[trigger] names@[4 + j]@ == extra_lower[j],
        decreases items.len() - i,
    {
        let item = chars_of_string(&items[i]);
        assert(texts(items@)[i as int] == item@);
        names.push(lower_chars(&item));
        i = i + 1;
    }
    let ghost views = arg_texts(names@);
    proof {
        reveal_strlit("println");
        reveal_strlit("print");
        reveal_strlit("eprintln");
        reveal_strlit("dbg");
        assert forall|n: Seq<char>|
            #![trigger unwanted(extra@, n)]
            unwanted(extra@, n) <==> views.contains(lower(n)) by {
            let l = lower(n);
            if views.contains(l) {
                let j = choose|j: int| 0 <= j < views.len() && views[j] == l;
                if j >= 4 {
                    assert(names@[4 + (j - 4)]@ == extra_lower[j - 4]);
                    assert(extra_lower.contains(l));
                }
            }
            if extra_lower.contains(l) {
                let j = choose|j: int| 0 <= j < extra_lower.len() && extra_lower[j] == l;
                assert(names@[4 + j]@ == extra_lower[j]);
                assert(views[4 + j] == l);
            }
            if l == "println"@ {
                assert(views[0] == l);
            }
            if l == "print"@ {
                assert(views[1] == l);
            }
            if l == "eprintln"@ {
                assert(views[2] == l);
            }
            if l == "dbg"@ {
                assert(views[3] == l);
            }
        }
    }
    UnwantedSet { names, extra: Ghost(extra@) }
}

/// The called or invoked name of an invocation: its last segment.
pub open spec fn invoked_name(inv: Invocation) -> Option<Seq<char>> {
    if inv.segments@.len() > 0 {
        Some(inv.segments@.last()@)
    } else {
        None
    }
}

pub open spec fn fragment_findings(rule: &LoadedRule, file: Seq<char>, f: FnModel, inv: Invocation) -> Seq<FindingView> {
    match invoked_name(inv) {
        Some(name) if unwanted(unwanted_extra(rule), name) => seq![
            name_finding(
                rule,
                file,
                inv.name_line,
                format_message_spec(rule.message@, seq![kind_label(&f), image(&f), name]),
            ),
        ],
        _ => Seq::<FindingView>::empty(),
    }
}

pub open spec fn fragment_emit(rule: &LoadedRule, file: Seq<char>, f: FnModel) -> spec_fn(Invocation) -> Seq<FindingView> {
    |inv: Invocation| fragment_findings(rule, file, f, inv)
}

pub open spec fn development_emit(rule: &LoadedRule, file: Seq<char>) -> spec_fn(FnModel) -> Seq<FindingView> {
    |f: FnModel| if f.has_body {
        gather_all(f.invocations@, fragment_emit(rule, file, f))
    } else {
        Seq::<FindingView>::empty()
    }
}

fn report_fragments(rule: &LoadedRule, file: &str, f: &FnModel, set: &UnwantedSet, out: &mut Vec<Violation>)
    requires
        set.extra() == unwanted_extra(rule),
    ensures
        views(final(out)@) == views(old(out)@) + gather_all(f.invocations@, fragment_emit(rule, file@, *f)),
{
    let img = image_of(f);
    let label = kind_label_of(f);
    let ghost emit = fragment_emit(rule, file@, *f);
    let ghost start = views(out@);
    let invs = &f.invocations;
    let mut i: usize = 0;
    while i < invs.len()
        invariant
            i <= invs.len(),
            invs == &f.invocations,
            set.extra() == unwanted_extra(rule),
            img@ == image(f),
            label@ == kind_label(f),
            emit == fragment_emit(rule, file@, *f),
            views(out@) == start + gather(invs@, i as int, emit),
        decreases invs.len() - i,
    {
        let inv = &invs[i];
        let n = inv.segments.len();
        if n > 0 {
            let name = chars_of_string(&inv.segments[n - 1]);
            if set.contains(&name) {
                let text = format_message(
                    rule.message.as_str(),
                    &args3(label.clone(), img.clone(), name),
                );
                push_finding(out, name_violation(rule, file, inv.name_line, text));
            }
        }
        assert(emit(invs@[i as int]) == fragment_findings(rule, file@, *f, invs@[i as int]));
        assert(views(out@) =~= start + gather(invs@, i + 1, emit));
        i = i + 1;
    }
}

pub fn apply_development_code_fragment(rule: &LoadedRule, file: &str, model: &FileModel, out: &mut Vec<Violation>)
    ensures
        views(final(out)@) == views(old(out)@) + gather_all(model.functions@, development_emit(rule, file@)),
{
    let set = match rule.get_property("unwanted-functions") {
        Some(v) => unwanted_function_set(v.as_str()),
        None => unwanted_function_set(""),
    };
    proof {
        reveal_strlit("");
    }
    let ghost emit = development_emit(rule, file@);
    let ghost start = views(out@);
    let fs = &model.functions;
    let mut i: usize = 0;
    while i < fs.len()
        invariant
            i <= fs.len(),
            fs == &model.functions,
            set.extra() == unwanted_extra(rule),
            emit == development_emit(rule, file@),
            views(out@) == start + gather(fs@, i as int, emit),
        decreases fs.len() - i,
    {
        let f = &fs[i];
        if f.has_body {
            report_fragments(rule, file, f, &set, out);
        }
        assert(views(out@) =~= start + gather(fs@, i + 1, emit));
        i = i + 1;
    }
}

pub fn apply_empty_catch_block(rule: &LoadedRule, file: &str, model: &FileModel, out: &mut Vec<Violation>)
    ensures
        views(final(out)@) == views(old(out)@) + gather_all(
            model.functions@,
            body_lines_emit(BodyLines::EmptyCatch, rule, file@),
        ),
{
    apply_body_lines(BodyLines::EmptyCatch, rule, file, model, out)
}

// ----- coupling --------------------------------------------------------------

/// `bool`, `char`, `str`, the integer and float primitives, `Self` and
/// `self`.
pub open spec fn builtin_type(name: Seq<char>) -> bool {
    ||| name == "bool"@ || name == "char"@ || name == "str"@
    ||| name == "u8"@ || name == "u16"@ || name == "u32"@ || name == "u64"@ || name == "u128"@
    ||| name == "usize"@
    ||| name == "i8"@ || name == "i16"@ || name == "i32"@ || name == "i64"@ || name == "i128"@
    ||| name == "isize"@
    ||| name == "f32"@ || name == "f64"@
    ||| name == "Self"@ || name == "self"@
}

fn eq_lit(v: &Vec<char>, s: &str) -> (b: bool)
    ensures
        b == (v@ == s@),
{
    let w = crate::text::chars_of(s);
    crate::text::chars_eq(v, &w)
}

pub fn is_builtin_type(name: &Vec<char>) -> (b: bool)
    ensures
        b == builtin_type(name@),
{
    eq_lit(name, "bool") || eq_lit(name, "char") || eq_lit(name, "str") || eq_lit(name, "u8")
        || eq_lit(name, "u16") || eq_lit(name, "u32") || eq_lit(name, "u64") || eq_lit(name, "u128")
        || eq_lit(name, "usize") || eq_lit(name, "i8") || eq_lit(name, "i16") || eq_lit(name, "i32")
        || eq_lit(name, "i64") || eq_lit(name, "i128") || eq_lit(name, "isize") || eq_lit(
        name,
        "f32",
    ) || eq_lit(name, "f64") || eq_lit(name, "Self") || eq_lit(name, "self")
}

/// The type names the fields of `fs` mention, field by field.
pub open spec fn field_type_names(fs: Seq<FieldInfo>, n: int) -> Seq<Seq<char>>
    decreases n,
{
    if n <= 0 {
        Seq::<Seq<char>>::empty()
    } else {
        field_type_names(fs, n - 1) + texts(fs[n - 1].type_names@)
    }
}

/// The type names the signatures of `owner`'s counted methods mention.
pub open spec fn method_type_names(fs: Seq<FnModel>, n: int, owner: Seq<char>) -> Seq<Seq<char>>
    decreases n,
{
    if n <= 0 {
        Seq::<Seq<char>>::empty()
    } else {
        method_type_names(fs, n - 1, owner) + if fs[n - 1].counts_for_type_metrics && (
        fs[n - 1].parent matches Some(p) && p@ == owner) {
            texts(fs[n - 1].dep_types@)
        } else {
            Seq::<Seq<char>>::empty()
        }
    }
}

/// The types `t` depends on: those its fields and its methods' signatures
/// mention, other than built-in types and itself.
pub open spec fn dependencies(t: &TypeModel, model: &FileModel) -> Set<Seq<char>> {
    let names = field_type_names(t.fields@, t.fields@.len() as int) + method_type_names(
        model.functions@,
        model.functions@.len() as int,
        t.name@,
    );
    Set::new(|n: Seq<char>| names.contains(n) && !builtin_type(n) && n != t.name@)
}

/// The names of `cands` that pass as dependencies of `owner`.
pub open spec fn dependency_set(cands: Seq<Seq<char>>, owner: Seq<char>) -> Set<Seq<char>> {
    Set::new(|n: Seq<char>| cands.contains(n) && !builtin_type(n) && n != owner)
}

/// The number of distinct dependencies of `owner` among `cands`.
fn distinct_dependencies(cands: &Vec<Vec<char>>, owner: &Vec<char>) -> (n: usize)
    ensures
        n == dependency_set(arg_texts(cands@), owner@).len(),
{
    let ghost all = arg_texts(cands@);
    let mut seen: Vec<Vec<char>> = Vec::new();
    let mut i: usize = 0;
    assert(arg_texts(seen@).to_set() =~= dependency_set(all.take(0), owner@));
    while i < cands.len()
        invariant
            i <= cands.len(),
            all == arg_texts(cands@),
            arg_texts(seen@).no_duplicates(),
            arg_texts(seen@).to_set() == dependency_set(all.take(i as int), owner@),
        decreases cands.len() - i,
    {
        let c = &cands[i];
        assert(all[i as int] == c@);
        let ghost before = arg_texts(seen@);
        let found = texts_contain(&seen, c);
        assert(all.take(i + 1) =~= all.take(i as int).push(c@));
        if !is_builtin_type(c) && !crate::text::chars_eq(c, owner) && !found {
            seen.push(c.clone());
            assert(arg_texts(seen@) =~= before.push(c@));
            proof {
                before.lemma_push_to_set_commute(c@);
                let t1 = all.take(i + 1);
                let t0 = all.take(i as int);
                assert forall|n: Seq<char>| t1.contains(n) <==> (t0.contains(n) || n == c@) by {
                    if t1.contains(n) {
                        let k = choose|k: int| 0 <= k < t1.len() && t1[k] == n;
                        if k < i {
                            assert(t0[k] == n);
                        }
                    }
                    if t0.contains(n) {
                        let k = choose|k: int| 0 <= k < t0.len() && t0[k] == n;
                        assert(t1[k] == n);
                    }
                    if n == c@ {
                        assert(t1[i as int] == n);
                    }
                }
            }
            assert(arg_texts(seen@).to_set() =~= dependency_set(all.take(i + 1), owner@));
        } else {
            assert(arg_texts(seen@).to_set() =~= dependency_set(all.take(i + 1), owner@)) by {
                if found {
                    assert(before.to_set().contains(c@));
                }
            }
        }
        i = i + 1;
    }
    assert(all.take(cands.len() as int) =~= all);
    proof {
        arg_texts(seen@).unique_seq_to_set();
    }
    seen.len()
}

/// Appends the texts of `names` to `out`.
fn push_texts(out: &mut Vec<Vec<char>>, names: &Vec<String>)
    ensures
        arg_texts(final(out)@) == arg_texts(old(out)@) + texts(names@),
{
    let ghost start = arg_texts(old(out)@);
    let mut i: usize = 0;
    while i < names.len()
        invariant
            i <= names.len(),
            arg_texts(out@) == start + texts(names@).take(i as int),
        decreases names.len() - i,
    {
        let ghost before = arg_texts(out@);
        out.push(chars_of_string(&names[i]));
        assert(arg_texts(out@) =~= before.push(texts(names@)[i as int]));
        assert(texts(names@).take(i + 1) =~= texts(names@).take(i as int).push(texts(names@)[i as int]));
        i = i + 1;
    }
    assert(texts(names@).take(names.len() as int) =~= texts(names@));
}

/// Coupling between objects: the number of distinct types `t` depends on.
pub fn coupling_between_objects(t: &TypeModel, model: &FileModel) -> (n: usize)
    ensures
        n == dependencies(t, model).len(),
{
    let mut cands: Vec<Vec<char>> = Vec::new();
    let mut i: usize = 0;
    assert(arg_texts(cands@) =~= field_type_names(t.fields@, 0));
    while i < t.fields.len()
        invariant
            i <= t.fields.len(),
            arg_texts(cands@) == field_type_names(t.fields@, i as int),
        decreases t.fields.len() - i,
    {
        push_texts(&mut cands, &t.fields[i].type_names);
        i = i + 1;
    }
    let ghost names_f = field_type_names(t.fields@, t.fields@.len() as int);
    let fs = &model.functions;
    let tc = chars_of_string(&t.name);
    let mut j: usize = 0;
    assert(arg_texts(cands@) =~= names_f + method_type_names(fs@, 0, t.name@));
    while j < fs.len()
        invariant
            j <= fs.len(),
            fs == &model.functions,
            tc@ == t.name@,
            arg_texts(cands@) == names_f + method_type_names(fs@, j as int, t.name@),
        decreases fs.len() - j,
    {
        let f = &fs[j];
        let owned = match &f.parent {
            Some(p) => {
                let pc = chars_of_string(p);
                crate::text::chars_eq(&pc, &tc)
            },
            None => false,
        };
        if f.counts_for_type_metrics && owned {
            push_texts(&mut cands, &f.dep_types);
        }
        assert(arg_texts(cands@) =~= names_f + method_type_names(fs@, j + 1, t.name@));
        j = j + 1;
    }
    let n = distinct_dependencies(&cands, &tc);
    assert(dependency_set(arg_texts(cands@), tc@) =~= dependencies(t, model));
    n
}

pub open spec fn counted_type(t: &TypeModel) -> bool {
    t.node_type@ == "struct"@ || t.node_type@ == "enum"@ || t.node_type@ == "union"@
}

fn is_counted_type(t: &TypeModel) -> (b: bool)
    ensures
        b == counted_type(t),
{
    let k = chars_of_string(&t.node_type);
    eq_lit(&k, "struct") || eq_lit(&k, "enum") || eq_lit(&k, "union")
}

pub open spec fn cbo_findings(rule: &LoadedRule, file: Seq<char>, model: &FileModel, t: TypeModel) -> Seq<FindingView> {
    let threshold = property_usize_spec(rule, "maximum"@, DEFAULT_CBO);
    let value = dependencies(&t, model).len();
    one_if(
        counted_type(&t) && value >= threshold,
        type_finding(
            rule,
            file,
            &t,
            format_message_spec(
                rule.message@,
                seq![t.name@, decimal(value), decimal(threshold as nat)],
            ),
        ),
    )
}

pub open spec fn cbo_emit(rule: &LoadedRule, file: Seq<char>, model: &FileModel) -> spec_fn(TypeModel) -> Seq<FindingView> {
    |t: TypeModel| cbo_findings(rule, file, model, t)
}

pub fn apply_coupling_between_objects(rule: &LoadedRule, file: &str, model: &FileModel, out: &mut Vec<Violation>)
    ensures
        views(final(out)@) == views(old(out)@) + gather_all(model.types@, cbo_emit(rule, file@, model)),
{
    let threshold = property_usize(rule, "maximum", DEFAULT_CBO);
    let ghost emit = cbo_emit(rule, file@, model);
    let ghost start = views(out@);
    let ts = &model.types;
    let mut i: usize = 0;
    while i < ts.len()
        invariant
            i <= ts.len(),
            ts == &model.types,
            emit == cbo_emit(rule, file@, model),
            threshold == property_usize_spec(rule, "maximum"@, DEFAULT_CBO),
            views(out@) == start + gather(ts@, i as int, emit),
        decreases ts.len() - i,
    {
        let t = &ts[i];
        if is_counted_type(t) {
            let value = coupling_between_objects(t, model);
            if value >= threshold {
                let text = format_message(
                    rule.message.as_str(),
                    &args3(chars_of_string(&t.name), number_text(value), number_text(threshold)),
                );
                push_finding(out, type_violation(rule, file, t, text));
            }
        }
        assert(emit(ts@[i as int]) == cbo_findings(rule, file@, model, ts@[i as int]));
        assert(views(out@) =~= start + gather(ts@, i + 1, emit));
        i = i + 1;
    }
}

// ----- globals ---------------------------------------------------------------

/// The names of the first `n` of `statics` (each with its qualified key)
/// whose key an assignment changes.
pub open spec fn mutated_names_spec(statics: Seq<(String, NamedSite)>, mutated: Seq<Seq<char>>, n: int) -> Seq<Seq<char>>
    decreases n,
{
    if n <= 0 || n > statics.len() {
        Seq::empty()
    } else if mutated.contains(statics[n - 1].0@) {
        mutated_names_spec(statics, mutated, n - 1).push(statics[n - 1].1.name@)
    } else {
        mutated_names_spec(statics, mutated, n - 1)
    }
}

/// The names of the `static mut` items, each with its qualified key, that
/// some assignment in the file changes, in declaration order.
pub fn mutated_names(statics: &Vec<(String, NamedSite)>, mutated: &Vec<String>) -> (r: Vec<String>)
    ensures
        texts(r@) == mutated_names_spec(statics@, texts(mutated@), statics@.len() as int),
{
    let mut out: Vec<String> = Vec::new();
    let mut k: usize = 0;
    assert(texts(out@) =~= Seq::<Seq<char>>::empty());
    while k < statics.len()
        invariant
            k <= statics.len(),
            texts(out@) == mutated_names_spec(statics@, texts(mutated@), k as int),
        decreases statics.len() - k,
    {
        if listed(mutated, &statics[k].0) {
            let ghost before = texts(out@);
            out.push(statics[k].1.name.clone());
            assert(texts(out@) =~= before.push(statics@[k as int].1.name@));
        }
        k = k + 1;
    }
    out
}

pub open spec fn global_findings(rule: &LoadedRule, file: Seq<char>, model: &FileModel, g: NamedSite) -> Seq<FindingView> {
    one_if(
        texts(model.mutated_statics@).contains(g.name@) || property_bool_spec(
            rule,
            "report-immutable"@,
            false,
        ),
        name_finding(rule, file, g.begin_line, format_message_spec(rule.message@, seq![g.name@])),
    )
}

pub open spec fn global_emit(rule: &LoadedRule, file: Seq<char>, model: &FileModel) -> spec_fn(NamedSite) -> Seq<FindingView> {
    |g: NamedSite| global_findings(rule, file, model, g)
}

pub fn apply_global_variable(rule: &LoadedRule, file: &str, model: &FileModel, out: &mut Vec<Violation>)
    ensures
        views(final(out)@) == views(old(out)@) + gather_all(model.static_muts@, global_emit(rule, file@, model)),
{
    let report_immutable = property_bool(rule, "report-immutable", false);
    let ghost emit = global_emit(rule, file@, model);
    let ghost start = views(out@);
    let gs = &model.static_muts;
    let mut i: usize = 0;
    while i < gs.len()
        invariant
            i <= gs.len(),
            gs == &model.static_muts,
            emit == global_emit(rule, file@, model),
            report_immutable == property_bool_spec(rule, "report-immutable"@, false),
            views(out@) == start + gather(gs@, i as int, emit),
        decreases gs.len() - i,
    {
        let g = &gs[i];
        if listed(&model.mutated_statics, &g.name) || report_immutable {
            let text = format_message(rule.message.as_str(), &args1(chars_of_string(&g.name)));
            push_finding(out, name_violation(rule, file, g.begin_line, text));
        }
        assert(emit(gs@[i as int]) == global_findings(rule, file@, model, gs@[i as int]));
        assert(views(out@) =~= start + gather(gs@, i + 1, emit));
        i = i + 1;
    }
}

// ----- cohesion --------------------------------------------------------------

pub open spec fn lcom_findings(rule: &LoadedRule, file: Seq<char>, t: TypeModel) -> Seq<FindingView> {
    let threshold = property_usize_spec(rule, "maximum"@, DEFAULT_LCOM4);
    one_if(
        counted_type(&t) && lcom4_spec(t) > threshold,
        type_finding(
            rule,
            file,
            &t,
            format_message_spec(rule.message@, seq![t.name@, decimal(lcom4_spec(t))]),
        ),
    )
}

pub open spec fn lcom_emit(rule: &LoadedRule, file: Seq<char>) -> spec_fn(TypeModel) -> Seq<FindingView> {
    |t: TypeModel| lcom_findings(rule, file, t)
}

pub fn apply_lack_of_cohesion(rule: &LoadedRule, file: &str, model: &FileModel, out: &mut Vec<Violation>)
    ensures
        views(final(out)@) == views(old(out)@) + gather_all(model.types@, lcom_emit(rule, file@)),
{
    let threshold = property_usize(rule, "maximum", DEFAULT_LCOM4);
    let ghost emit = lcom_emit(rule, file@);
    let ghost start = views(out@);
    let ts = &model.types;
    let mut i: usize = 0;
    while i < ts.len()
        invariant
            i <= ts.len(),
            ts == &model.types,
            emit == lcom_emit(rule, file@),
            threshold == property_usize_spec(rule, "maximum"@, DEFAULT_LCOM4),
            views(out@) == start + gather(ts@, i as int, emit),
        decreases ts.len() - i,
    {
        let t = &ts[i];
        if is_counted_type(t) {
            let value = lcom4(t);
            if value > threshold {
                let text = format_message(
                    rule.message.as_str(),
                    &args2(chars_of_string(&t.name), number_text(value)),
                );
                push_finding(out, type_violation(rule, file, t, text));
            }
        }
        assert(emit(ts@[i as int]) == lcom_findings(rule, file@, ts@[i as int]));
        assert(views(out@) =~= start + gather(ts@, i + 1, emit));
        i = i + 1;
    }
}

} // verus!
