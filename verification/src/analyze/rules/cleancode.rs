//! Cleancode rule handlers.

use vstd::prelude::*;
use crate::text::{decimal, is_ascii_upper, texts};
use crate::report::{chars_of_string, views, FindingView, Violation};
use crate::ruleset::LoadedRule;
use crate::analyze::model::{
    BoolParam, DuplicateKey, FileModel, FnModel, Invocation, NamedSite, SourcePos,
};
use crate::analyze::helpers::{
    compiled_source, format_message, format_message_spec, ignore_pattern, ignore_pattern_text,
    ignored_name, ignored_spec, is_rust_unused_name, listed, name_finding, name_violation,
    number_text, pattern_source, property_list, property_list_spec, rust_unused_name,
};
use super::{args1, args2, gather, gather_all, image, image_of, one_if, push_finding};

verus! {

/// The compiled `ignorepattern` of a rule that ignores nothing by default.
pub open spec fn name_ignore(rule: &LoadedRule) -> Option<Seq<char>> {
    compiled_source(ignore_pattern_text(rule, ""@))
}

// ----- boolean argument flags ------------------------------------------------

pub open spec fn bool_param_findings(rule: &LoadedRule, file: Seq<char>, f: FnModel, p: BoolParam) -> Seq<FindingView> {
    one_if(
        !rust_unused_name(p.name@),
        name_finding(
            rule,
            file,
            p.begin_line,
            format_message_spec(rule.message@, seq![image(&f), p.name@]),
        ),
    )
}

pub open spec fn bool_param_emit(rule: &LoadedRule, file: Seq<char>, f: FnModel) -> spec_fn(BoolParam) -> Seq<FindingView> {
    |p: BoolParam| bool_param_findings(rule, file, f, p)
}

/// Whether the function's type is one of the rule's exceptions.
pub open spec fn excepted_parent(rule: &LoadedRule, f: &FnModel) -> bool {
    match f.parent {
        Some(p) => property_list_spec(rule, "exceptions"@).contains(p@),
        None => false,
    }
}

pub open spec fn boolean_flag_findings(rule: &LoadedRule, file: Seq<char>, f: FnModel) -> Seq<FindingView> {
    if ignored_spec(name_ignore(rule), f.name@) || excepted_parent(rule, &f) {
        Seq::<FindingView>::empty()
    } else {
        gather_all(f.bool_params@, bool_param_emit(rule, file, f))
    }
}

pub open spec fn boolean_flag_emit(rule: &LoadedRule, file: Seq<char>) -> spec_fn(FnModel) -> Seq<FindingView> {
    |f: FnModel| boolean_flag_findings(rule, file, f)
}

fn report_bool_params(rule: &LoadedRule, file: &str, f: &FnModel, out: &mut Vec<Violation>)
    ensures
        views(final(out)@) == views(old(out)@) + gather_all(
            f.bool_params@,
            bool_param_emit(rule, file@, *f),
        ),
{
    let img = image_of(f);
    let ghost emit = bool_param_emit(rule, file@, *f);
    let ghost start = views(out@);
    let ps = &f.bool_params;
    let mut i: usize = 0;
    while i < ps.len()
        invariant
            i <= ps.len(),
            ps == &f.bool_params,
            img@ == image(f),
            emit == bool_param_emit(rule, file@, *f),
            views(out@) == start + gather(ps@, i as int, emit),
        decreases ps.len() - i,
    {
        let p = &ps[i];
        if !is_rust_unused_name(&p.name) {
            let text = format_message(
                rule.message.as_str(),
                &args2(img.clone(), chars_of_string(&p.name)),
            );
            push_finding(out, name_violation(rule, file, p.begin_line, text));
        }
        assert(emit(ps@[i as int]) == bool_param_findings(rule, file@, *f, ps@[i as int]));
        assert(views(out@) =~= start + gather(ps@, i + 1, emit));
        i = i + 1;
    }
}

pub fn apply_boolean_argument_flag(rule: &LoadedRule, file: &str, model: &FileModel, out: &mut Vec<Violation>)
    ensures
        views(final(out)@) == views(old(out)@) + gather_all(model.functions@, boolean_flag_emit(rule, file@)),
{
    let exceptions = property_list(rule, "exceptions");
    let ignore = ignore_pattern(rule, "");
    let ghost emit = boolean_flag_emit(rule, file@);
    let ghost start = views(out@);
    let fs = &model.functions;
    let mut i: usize = 0;
    while i < fs.len()
        invariant
            i <= fs.len(),
            fs == &model.functions,
            emit == boolean_flag_emit(rule, file@),
            texts(exceptions@) == property_list_spec(rule, "exceptions"@),
            pattern_source(ignore) == name_ignore(rule),
            views(out@) == start + gather(fs@, i as int, emit),
        decreases fs.len() - i,
    {
        let f = &fs[i];
        let skip = ignored_name(&ignore, &f.name) || match &f.parent {
            Some(p) => listed(&exceptions, p),
            None => false,
        };
        if !skip {
            report_bool_params(rule, file, f, out);
        }
        assert(emit(fs@[i as int]) == boolean_flag_findings(rule, file@, fs@[i as int]));
        assert(views(out@) =~= start + gather(fs@, i + 1, emit));
        i = i + 1;
    }
}

// ----- findings at recorded lines --------------------------------------------

pub open spec fn line_findings(rule: &LoadedRule, file: Seq<char>, f: FnModel, line: usize) -> Seq<FindingView> {
    seq![name_finding(rule, file, line, format_message_spec(rule.message@, seq![f.name@]))]
}

pub open spec fn line_emit(rule: &LoadedRule, file: Seq<char>, f: FnModel) -> spec_fn(usize) -> Seq<FindingView> {
    |line: usize| line_findings(rule, file, f, line)
}

/// Which recorded lines of a body a rule reports, with the function name.
#[derive(Clone, Copy, PartialEq, Eq, Structural)]
pub enum BodyLines {
    Else,
    EmptyCatch,
}

pub open spec fn body_lines(which: BodyLines, f: &FnModel) -> Seq<usize> {
    match which {
        BodyLines::Else => f.else_lines@,
        BodyLines::EmptyCatch => f.empty_catch_lines@,
    }
}

pub open spec fn body_lines_emit(which: BodyLines, rule: &LoadedRule, file: Seq<char>) -> spec_fn(FnModel) -> Seq<
    FindingView,
> {
    |f: FnModel| if f.has_body {
        gather_all(body_lines(which, &f), line_emit(rule, file, f))
    } else {
        Seq::<FindingView>::empty()
    }
}

fn report_lines(rule: &LoadedRule, file: &str, f: &FnModel, lines: &Vec<usize>, out: &mut Vec<Violation>)
    ensures
        views(final(out)@) == views(old(out)@) + gather_all(lines@, line_emit(rule, file@, *f)),
{
    let ghost emit = line_emit(rule, file@, *f);
    let ghost start = views(out@);
    let mut i: usize = 0;
    while i < lines.len()
        invariant
            i <= lines.len(),
            emit == line_emit(rule, file@, *f),
            views(out@) == start + gather(lines@, i as int, emit),
        decreases lines.len() - i,
    {
        let text = format_message(rule.message.as_str(), &args1(chars_of_string(&f.name)));
        push_finding(out, name_violation(rule, file, lines[i], text));
        assert(emit(lines@[i as int]) == line_findings(rule, file@, *f, lines@[i as int]));
        assert(views(out@) =~= start + gather(lines@, i + 1, emit));
        i = i + 1;
    }
}

/// Reports every recorded line of kind `which` in every function body.
pub fn apply_body_lines(which: BodyLines, rule: &LoadedRule, file: &str, model: &FileModel, out: &mut Vec<Violation>)
    ensures
        views(final(out)@) == views(old(out)@) + gather_all(
            model.functions@,
            body_lines_emit(which, rule, file@),
        ),
{
    let ghost emit = body_lines_emit(which, rule, file@);
    let ghost start = views(out@);
    let fs = &model.functions;
    let mut i: usize = 0;
    while i < fs.len()
        invariant
            i <= fs.len(),
            fs == &model.functions,
            emit == body_lines_emit(which, rule, file@),
            views(out@) == start + gather(fs@, i as int, emit),
        decreases fs.len() - i,
    {
        let f = &fs[i];
        if f.has_body {
            let lines = match which {
                BodyLines::Else => &f.else_lines,
                BodyLines::EmptyCatch => &f.empty_catch_lines,
            };
            report_lines(rule, file, f, lines, out);
        }
        assert(views(out@) =~= start + gather(fs@, i + 1, emit));
        i = i + 1;
    }
}

pub fn apply_else_expression(rule: &LoadedRule, file: &str, model: &FileModel, out: &mut Vec<Violation>)
    ensures
        views(final(out)@) == views(old(out)@) + gather_all(
            model.functions@,
            body_lines_emit(BodyLines::Else, rule, file@),
        ),
{
    apply_body_lines(BodyLines::Else, rule, file, model, out)
}

// ----- assignments in conditions ---------------------------------------------

pub open spec fn position_findings(rule: &LoadedRule, file: Seq<char>, p: SourcePos) -> Seq<FindingView> {
    seq![
        name_finding(
            rule,
            file,
            p.line,
            format_message_spec(
                rule.message@,
                seq![decimal(p.line as nat), decimal(p.column as nat)],
            ),
        ),
    ]
}

pub open spec fn position_emit(rule: &LoadedRule, file: Seq<char>) -> spec_fn(SourcePos) -> Seq<FindingView> {
    |p: SourcePos| position_findings(rule, file, p)
}

pub open spec fn if_assignment_emit(rule: &LoadedRule, file: Seq<char>) -> spec_fn(FnModel) -> Seq<FindingView> {
    |f: FnModel| if f.has_body {
        gather_all(f.condition_assignments@, position_emit(rule, file))
    } else {
        Seq::<FindingView>::empty()
    }
}

fn report_positions(rule: &LoadedRule, file: &str, ps: &Vec<SourcePos>, out: &mut Vec<Violation>)
    ensures
        views(final(out)@) == views(old(out)@) + gather_all(ps@, position_emit(rule, file@)),
{
    let ghost emit = position_emit(rule, file@);
    let ghost start = views(out@);
    let mut i: usize = 0;
    while i < ps.len()
        invariant
            i <= ps.len(),
            emit == position_emit(rule, file@),
            views(out@) == start + gather(ps@, i as int, emit),
        decreases ps.len() - i,
    {
        let p = ps[i];
        let text = format_message(
            rule.message.as_str(),
            &args2(number_text(p.line), number_text(p.column)),
        );
        push_finding(out, name_violation(rule, file, p.line, text));
        assert(emit(ps@[i as int]) == position_findings(rule, file@, ps@[i as int]));
        assert(views(out@) =~= start + gather(ps@, i + 1, emit));
        i = i + 1;
    }
}

pub fn apply_if_statement_assignment(rule: &LoadedRule, file: &str, model: &FileModel, out: &mut Vec<Violation>)
    ensures
        views(final(out)@) == views(old(out)@) + gather_all(model.functions@, if_assignment_emit(rule, file@)),
{
    let ghost emit = if_assignment_emit(rule, file@);
    let ghost start = views(out@);
    let fs = &model.functions;
    let mut i: usize = 0;
    while i < fs.len()
        invariant
            i <= fs.len(),
            fs == &model.functions,
            emit == if_assignment_emit(rule, file@),
            views(out@) == start + gather(fs@, i as int, emit),
        decreases fs.len() - i,
    {
        let f = &fs[i];
        if f.has_body {
            report_positions(rule, file, &f.condition_assignments, out);
        }
        assert(views(out@) =~= start + gather(fs@, i + 1, emit));
        i = i + 1;
    }
}

// ----- duplicated keys -------------------------------------------------------

pub open spec fn duplicate_findings(rule: &LoadedRule, file: Seq<char>, d: DuplicateKey) -> Seq<FindingView> {
    seq![
        name_finding(
            rule,
            file,
            d.line,
            format_message_spec(rule.message@, seq![d.display@, decimal(d.first_line as nat)]),
        ),
    ]
}

pub open spec fn duplicate_emit(rule: &LoadedRule, file: Seq<char>) -> spec_fn(DuplicateKey) -> Seq<FindingView> {
    |d: DuplicateKey| duplicate_findings(rule, file, d)
}

/// The position of the first of `fields` before `k` named `name`, from
/// `j` on.
pub open spec fn named_from(fields: Seq<NamedSite>, name: Seq<char>, j: int, k: int) -> Option<int>
    decreases k - j,
{
    if j < 0 || j >= k || k > fields.len() {
        None
    } else if fields[j].name@ == name {
        Some(j)
    } else {
        named_from(fields, name, j + 1, k)
    }
}

/// The repeats among the first `n` fields of a struct literal, in order:
/// each field written again, with its line and the line of its first
/// writing.
pub open spec fn repeats(fields: Seq<NamedSite>, n: int) -> Seq<(Seq<char>, usize, usize)>
    decreases n,
{
    if n <= 0 || n > fields.len() {
        Seq::empty()
    } else {
        let r = repeats(fields, n - 1);
        match named_from(fields, fields[n - 1].name@, 0, n - 1) {
            Some(j) => r.push((fields[n - 1].name@, fields[n - 1].begin_line, fields[j].begin_line)),
            None => r,
        }
    }
}

pub open spec fn duplicate_views(ds: Seq<DuplicateKey>) -> Seq<(Seq<char>, usize, usize)> {
    ds.map_values(|d: DuplicateKey| (d.display@, d.line, d.first_line))
}

/// The fields of one struct literal written more than once: each repeat,
/// with the line of the first writing of its name.
pub fn duplicate_keys(fields: &Vec<NamedSite>) -> (r: Vec<DuplicateKey>)
    ensures
        duplicate_views(r@) == repeats(fields@, fields@.len() as int),
{
    let mut out: Vec<DuplicateKey> = Vec::new();
    let mut k: usize = 0;
    assert(duplicate_views(out@) =~= repeats(fields@, 0));
    while k < fields.len()
        invariant
            k <= fields.len(),
            duplicate_views(out@) == repeats(fields@, k as int),
        decreases fields.len() - k,
    {
        let name = chars_of_string(&fields[k].name);
        let mut j: usize = 0;
        let mut first: Option<usize> = None;
        while j < k && first.is_none()
            invariant
                j <= k < fields.len(),
                name@ == fields@[k as int].name@,
                first is None ==> named_from(fields@, name@, 0, k as int) == named_from(fields@, name@, j as int, k as int),
                first matches Some(f) ==> named_from(fields@, name@, 0, k as int) == Some(f as int) && f < k,
            decreases k - j,
        {
            if crate::text::chars_eq(&chars_of_string(&fields[j].name), &name) {
                first = Some(j);
            }
            j = j + 1;
        }
        let ghost before = duplicate_views(out@);
        match first {
            Some(f) => {
                assert(named_from(fields@, name@, 0, k as int) == Some(f as int));
                out.push(DuplicateKey {
                    display: fields[k].name.clone(),
                    line: fields[k].begin_line,
                    first_line: fields[f].begin_line,
                });
                assert(duplicate_views(out@) =~= before.push((fields@[k as int].name@, fields@[k as int].begin_line, fields@[f as int].begin_line)));
            },
            None => {
                assert(named_from(fields@, name@, 0, k as int) is None);
            },
        }
        k = k + 1;
    }
    out
}

pub fn apply_duplicated_array_key(rule: &LoadedRule, file: &str, model: &FileModel, out: &mut Vec<Violation>)
    ensures
        views(final(out)@) == views(old(out)@) + gather_all(
            model.duplicate_struct_keys@,
            duplicate_emit(rule, file@),
        ),
{
    let ghost emit = duplicate_emit(rule, file@);
    let ghost start = views(out@);
    let ds = &model.duplicate_struct_keys;
    let mut i: usize = 0;
    while i < ds.len()
        invariant
            i <= ds.len(),
            ds == &model.duplicate_struct_keys,
            emit == duplicate_emit(rule, file@),
            views(out@) == start + gather(ds@, i as int, emit),
        decreases ds.len() - i,
    {
        let d = &ds[i];
        let text = format_message(
            rule.message.as_str(),
            &args2(chars_of_string(&d.display), number_text(d.first_line)),
        );
        push_finding(out, name_violation(rule, file, d.line, text));
        assert(emit(ds@[i as int]) == duplicate_findings(rule, file@, ds@[i as int]));
        assert(views(out@) =~= start + gather(ds@, i + 1, emit));
        i = i + 1;
    }
}

// ----- static access ---------------------------------------------------------

/// The type a path call goes through: the last segment before the called
/// name that is `Self` or starts with an uppercase ASCII letter, searched
/// from the right among the first `n` segments.
pub open spec fn receiver_in(segs: Seq<Seq<char>>, n: int) -> Option<Seq<char>>
    decreases n,
{
    if n <= 0 {
        None
    } else if segs[n - 1] == "Self"@ || (segs[n - 1].len() > 0 && is_ascii_upper(segs[n - 1][0])) {
        Some(segs[n - 1])
    } else {
        receiver_in(segs, n - 1)
    }
}

/// The type a path call is made through, if the path names one.
pub open spec fn static_receiver(segs: Seq<Seq<char>>) -> Option<Seq<char>> {
    if segs.len() < 2 {
        None
    } else {
        receiver_in(segs, segs.len() - 1)
    }
}

fn is_self_name(v: &Vec<char>) -> (b: bool)
    ensures
        b == (v@ == "Self"@),
{
    let s = crate::text::chars_of("Self");
    crate::text::chars_eq(v, &s)
}

/// The type a path call is made through.
pub fn static_receiver_type(segments: &Vec<String>) -> (r: Option<Vec<char>>)
    ensures
        r matches Some(v) ==> static_receiver(texts(segments@)) == Some(v@),
        r is None ==> static_receiver(texts(segments@)) is None,
{
    let ghost segs = texts(segments@);
    if segments.len() < 2 {
        return None;
    }
    let mut n: usize = segments.len() - 1;
    while n > 0
        invariant
            n < segments.len(),
            segs == texts(segments@),
            segs.len() == segments.len(),
            static_receiver(segs) == receiver_in(segs, n as int),
        decreases n,
    {
        let name = chars_of_string(&segments[n - 1]);
        assert(segs[n - 1] == name@);
        if is_self_name(&name) || (name.len() > 0 && 'A' <= name[0] && name[0] <= 'Z') {
            return Some(name);
        }
        n = n - 1;
    }
    None
}

/// Whether an invocation is a static access that the rule reports.
pub open spec fn reported_access(rule: &LoadedRule, f: &FnModel, inv: Invocation) -> Option<Seq<char>> {
    if inv.is_macro {
        None
    } else {
        match static_receiver(texts(inv.segments@)) {
            Some(t) => if t == "Self"@ || (f.parent matches Some(p) && p@ == t)
                || property_list_spec(rule, "exceptions"@).contains(t) {
                None
            } else {
                Some(t)
            },
            None => None,
        }
    }
}

pub open spec fn access_findings(rule: &LoadedRule, file: Seq<char>, f: FnModel, inv: Invocation) -> Seq<FindingView> {
    match reported_access(rule, &f, inv) {
        Some(t) => seq![
            name_finding(
                rule,
                file,
                inv.path_line,
                format_message_spec(rule.message@, seq![t, f.name@]),
            ),
        ],
        None => Seq::<FindingView>::empty(),
    }
}

pub open spec fn access_emit(rule: &LoadedRule, file: Seq<char>, f: FnModel) -> spec_fn(Invocation) -> Seq<FindingView> {
    |inv: Invocation| access_findings(rule, file, f, inv)
}

pub open spec fn static_access_emit(rule: &LoadedRule, file: Seq<char>) -> spec_fn(FnModel) -> Seq<FindingView> {
    |f: FnModel| if ignored_spec(name_ignore(rule), f.name@) || !f.has_body {
        Seq::<FindingView>::empty()
    } else {
        gather_all(f.invocations@, access_emit(rule, file, f))
    }
}

fn same_text(v: &Vec<char>, s: &String) -> (b: bool)
    ensures
        b == (v@ == s@),
{
    let w = chars_of_string(s);
    crate::text::chars_eq(v, &w)
}

fn report_accesses(rule: &LoadedRule, file: &str, f: &FnModel, exceptions: &Vec<String>, out: &mut Vec<Violation>)
    requires
        texts(exceptions@) == property_list_spec(rule, "exceptions"@),
    ensures
        views(final(out)@) == views(old(out)@) + gather_all(f.invocations@, access_emit(rule, file@, *f)),
{
    let ghost emit = access_emit(rule, file@, *f);
    let ghost start = views(out@);
    let invs = &f.invocations;
    let mut i: usize = 0;
    while i < invs.len()
        invariant
            i <= invs.len(),
            invs == &f.invocations,
            texts(exceptions@) == property_list_spec(rule, "exceptions"@),
            emit == access_emit(rule, file@, *f),
            views(out@) == start + gather(invs@, i as int, emit),
        decreases invs.len() - i,
    {
        let inv = &invs[i];
        if !inv.is_macro {
            match static_receiver_type(&inv.segments) {
                Some(t) => {
                    let own = match &f.parent {
                        Some(p) => same_text(&t, p),
                        None => false,
                    };
                    let tname = crate::text::string_of(&t);
                    if !is_self_name(&t) && !own && !listed(exceptions, &tname) {
                        let text = format_message(
                            rule.message.as_str(),
                            &args2(t, chars_of_string(&f.name)),
                        );
                        push_finding(out, name_violation(rule, file, inv.path_line, text));
                    }
                },
                None => {},
            }
        }
        assert(emit(invs@[i as int]) == access_findings(rule, file@, *f, invs@[i as int]));
        assert(views(out@) =~= start + gather(invs@, i + 1, emit));
        i = i + 1;
    }
}

pub fn apply_static_access(rule: &LoadedRule, file: &str, model: &FileModel, out: &mut Vec<Violation>)
    ensures
        views(final(out)@) == views(old(out)@) + gather_all(model.functions@, static_access_emit(rule, file@)),
{
    let exceptions = property_list(rule, "exceptions");
    let ignore = ignore_pattern(rule, "");
    let ghost emit = static_access_emit(rule, file@);
    let ghost start = views(out@);
    let fs = &model.functions;
    let mut i: usize = 0;
    while i < fs.len()
        invariant
            i <= fs.len(),
            fs == &model.functions,
            emit == static_access_emit(rule, file@),
            texts(exceptions@) == property_list_spec(rule, "exceptions"@),
            pattern_source(ignore) == name_ignore(rule),
            views(out@) == start + gather(fs@, i as int, emit),
        decreases fs.len() - i,
    {
        let f = &fs[i];
        if !ignored_name(&ignore, &f.name) && f.has_body {
            report_accesses(rule, file, f, &exceptions, out);
        }
        assert(views(out@) =~= start + gather(fs@, i + 1, emit));
        i = i + 1;
    }
}

} // verus!
