//! Naming rule handlers.

use vstd::prelude::*;
use crate::text::{decimal, lower, texts};
use crate::report::{chars_of_string, views, FindingView, Violation};
use crate::ruleset::LoadedRule;
use crate::analyze::model::{FileModel, FnModel, NamedBinding, NamedSite, TypeModel};
use crate::analyze::helpers::{
    format_message, format_message_spec, func_finding, func_violation, getter_name,
    is_getter_name, is_pascal_case, is_upper_case, length_without, length_without_spec, listed,
    name_finding, name_violation, number_text, pascal_case, property_bool, property_bool_spec,
    property_list, property_list_spec, property_usize, property_usize_spec, type_finding,
    type_violation, upper_case,
};
use super::{args1, args2, args3, gather, gather_all, one_if, push_finding};

verus! {

pub const DEFAULT_SHORT_NAME: usize = 3;

pub const DEFAULT_LONG_CLASS: usize = 40;

pub const DEFAULT_LONG_VAR: usize = 20;

/// `{0}` name, `{1}` limit.
pub open spec fn limit_message(rule: &LoadedRule, name: Seq<char>, limit: usize) -> Seq<char> {
    format_message_spec(rule.message@, seq![name, decimal(limit as nat)])
}

fn limit_text(rule: &LoadedRule, name: &String, limit: usize) -> (r: String)
    ensures
        r@ == limit_message(rule, name@, limit),
{
    format_message(rule.message.as_str(), &args2(chars_of_string(name), number_text(limit)))
}

// ----- type names ------------------------------------------------------------

pub open spec fn short_class_findings(rule: &LoadedRule, file: Seq<char>, t: TypeModel) -> Seq<FindingView> {
    let minimum = property_usize_spec(rule, "minimum"@, DEFAULT_SHORT_NAME);
    let exceptions = property_list_spec(rule, "exceptions"@);
    one_if(
        t.name@.len() < minimum && !exceptions.contains(t.name@),
        type_finding(rule, file, &t, limit_message(rule, t.name@, minimum)),
    )
}

pub open spec fn short_class_emit(rule: &LoadedRule, file: Seq<char>) -> spec_fn(TypeModel) -> Seq<FindingView> {
    |t: TypeModel| short_class_findings(rule, file, t)
}

pub fn apply_short_class_name(rule: &LoadedRule, file: &str, model: &FileModel, out: &mut Vec<Violation>)
    ensures
        views(final(out)@) == views(old(out)@) + gather_all(model.types@, short_class_emit(rule, file@)),
{
    let minimum = property_usize(rule, "minimum", DEFAULT_SHORT_NAME);
    let exceptions = property_list(rule, "exceptions");
    let ghost emit = short_class_emit(rule, file@);
    let ghost start = views(out@);
    let ts = &model.types;
    let mut i: usize = 0;
    while i < ts.len()
        invariant
            i <= ts.len(),
            ts == &model.types,
            emit == short_class_emit(rule, file@),
            minimum == property_usize_spec(rule, "minimum"@, DEFAULT_SHORT_NAME),
            texts(exceptions@) == property_list_spec(rule, "exceptions"@),
            views(out@) == start + gather(ts@, i as int, emit),
        decreases ts.len() - i,
    {
        let t = &ts[i];
        let len = chars_of_string(&t.name).len();
        if len < minimum && !listed(&exceptions, &t.name) {
            push_finding(out, type_violation(rule, file, t, limit_text(rule, &t.name, minimum)));
        }
        assert(emit(ts@[i as int]) == short_class_findings(rule, file@, ts@[i as int]));
        assert(views(out@) =~= start + gather(ts@, i + 1, emit));
        i = i + 1;
    }
}

pub open spec fn long_class_findings(rule: &LoadedRule, file: Seq<char>, t: TypeModel) -> Seq<FindingView> {
    let maximum = property_usize_spec(rule, "maximum"@, DEFAULT_LONG_CLASS);
    let prefixes = property_list_spec(rule, "subtract-prefixes"@);
    let suffixes = property_list_spec(rule, "subtract-suffixes"@);
    one_if(
        length_without_spec(t.name@, prefixes, suffixes) > maximum,
        type_finding(rule, file, &t, limit_message(rule, t.name@, maximum)),
    )
}

pub open spec fn long_class_emit(rule: &LoadedRule, file: Seq<char>) -> spec_fn(TypeModel) -> Seq<FindingView> {
    |t: TypeModel| long_class_findings(rule, file, t)
}

pub fn apply_long_class_name(rule: &LoadedRule, file: &str, model: &FileModel, out: &mut Vec<Violation>)
    ensures
        views(final(out)@) == views(old(out)@) + gather_all(model.types@, long_class_emit(rule, file@)),
{
    let maximum = property_usize(rule, "maximum", DEFAULT_LONG_CLASS);
    let prefixes = property_list(rule, "subtract-prefixes");
    let suffixes = property_list(rule, "subtract-suffixes");
    let ghost emit = long_class_emit(rule, file@);
    let ghost start = views(out@);
    let ts = &model.types;
    let mut i: usize = 0;
    while i < ts.len()
        invariant
            i <= ts.len(),
            ts == &model.types,
            emit == long_class_emit(rule, file@),
            maximum == property_usize_spec(rule, "maximum"@, DEFAULT_LONG_CLASS),
            texts(prefixes@) == property_list_spec(rule, "subtract-prefixes"@),
            texts(suffixes@) == property_list_spec(rule, "subtract-suffixes"@),
            views(out@) == start + gather(ts@, i as int, emit),
        decreases ts.len() - i,
    {
        let t = &ts[i];
        if length_without(&t.name, &prefixes, &suffixes) > maximum {
            push_finding(out, type_violation(rule, file, t, limit_text(rule, &t.name, maximum)));
        }
        assert(emit(ts@[i as int]) == long_class_findings(rule, file@, ts@[i as int]));
        assert(views(out@) =~= start + gather(ts@, i + 1, emit));
        i = i + 1;
    }
}

// ----- variables -------------------------------------------------------------

pub open spec fn short_variable_findings(rule: &LoadedRule, file: Seq<char>, v: NamedBinding) -> Seq<FindingView> {
    let minimum = property_usize_spec(rule, "minimum"@, DEFAULT_SHORT_NAME);
    let exceptions = property_list_spec(rule, "exceptions"@);
    one_if(
        !v.is_loop_binder && v.name@.len() < minimum && !exceptions.contains(v.name@),
        name_finding(rule, file, v.begin_line, limit_message(rule, v.name@, minimum)),
    )
}

pub open spec fn short_variable_emit(rule: &LoadedRule, file: Seq<char>) -> spec_fn(NamedBinding) -> Seq<FindingView> {
    |v: NamedBinding| short_variable_findings(rule, file, v)
}

pub fn apply_short_variable(rule: &LoadedRule, file: &str, model: &FileModel, out: &mut Vec<Violation>)
    ensures
        views(final(out)@) == views(old(out)@) + gather_all(model.variables@, short_variable_emit(rule, file@)),
{
    let minimum = property_usize(rule, "minimum", DEFAULT_SHORT_NAME);
    let exceptions = property_list(rule, "exceptions");
    let ghost emit = short_variable_emit(rule, file@);
    let ghost start = views(out@);
    let vs = &model.variables;
    let mut i: usize = 0;
    while i < vs.len()
        invariant
            i <= vs.len(),
            vs == &model.variables,
            emit == short_variable_emit(rule, file@),
            minimum == property_usize_spec(rule, "minimum"@, DEFAULT_SHORT_NAME),
            texts(exceptions@) == property_list_spec(rule, "exceptions"@),
            views(out@) == start + gather(vs@, i as int, emit),
        decreases vs.len() - i,
    {
        let v = &vs[i];
        if !v.is_loop_binder && chars_of_string(&v.name).len() < minimum && !listed(
            &exceptions,
            &v.name,
        ) {
            push_finding(
                out,
                name_violation(rule, file, v.begin_line, limit_text(rule, &v.name, minimum)),
            );
        }
        assert(emit(vs@[i as int]) == short_variable_findings(rule, file@, vs@[i as int]));
        assert(views(out@) =~= start + gather(vs@, i + 1, emit));
        i = i + 1;
    }
}

pub open spec fn long_variable_findings(rule: &LoadedRule, file: Seq<char>, v: NamedBinding) -> Seq<FindingView> {
    let maximum = property_usize_spec(rule, "maximum"@, DEFAULT_LONG_VAR);
    let prefixes = property_list_spec(rule, "subtract-prefixes"@);
    let suffixes = property_list_spec(rule, "subtract-suffixes"@);
    one_if(
        !v.is_loop_binder && length_without_spec(v.name@, prefixes, suffixes) > maximum,
        name_finding(rule, file, v.begin_line, limit_message(rule, v.name@, maximum)),
    )
}

pub open spec fn long_variable_emit(rule: &LoadedRule, file: Seq<char>) -> spec_fn(NamedBinding) -> Seq<FindingView> {
    |v: NamedBinding| long_variable_findings(rule, file, v)
}

pub fn apply_long_variable(rule: &LoadedRule, file: &str, model: &FileModel, out: &mut Vec<Violation>)
    ensures
        views(final(out)@) == views(old(out)@) + gather_all(model.variables@, long_variable_emit(rule, file@)),
{
    let maximum = property_usize(rule, "maximum", DEFAULT_LONG_VAR);
    let prefixes = property_list(rule, "subtract-prefixes");
    let suffixes = property_list(rule, "subtract-suffixes");
    let ghost emit = long_variable_emit(rule, file@);
    let ghost start = views(out@);
    let vs = &model.variables;
    let mut i: usize = 0;
    while i < vs.len()
        invariant
            i <= vs.len(),
            vs == &model.variables,
            emit == long_variable_emit(rule, file@),
            maximum == property_usize_spec(rule, "maximum"@, DEFAULT_LONG_VAR),
            texts(prefixes@) == property_list_spec(rule, "subtract-prefixes"@),
            texts(suffixes@) == property_list_spec(rule, "subtract-suffixes"@),
            views(out@) == start + gather(vs@, i as int, emit),
        decreases vs.len() - i,
    {
        let v = &vs[i];
        if !v.is_loop_binder && length_without(&v.name, &prefixes, &suffixes) > maximum {
            push_finding(
                out,
                name_violation(rule, file, v.begin_line, limit_text(rule, &v.name, maximum)),
            );
        }
        assert(emit(vs@[i as int]) == long_variable_findings(rule, file@, vs@[i as int]));
        assert(views(out@) =~= start + gather(vs@, i + 1, emit));
        i = i + 1;
    }
}

// ----- methods -----------------------------------------------------------------

/// The type a method belongs to, empty for a function.
pub open spec fn parent_name(f: &FnModel) -> Seq<char> {
    match f.parent {
        Some(p) => p@,
        None => Seq::<char>::empty(),
    }
}

pub open spec fn short_method_findings(rule: &LoadedRule, file: Seq<char>, f: FnModel) -> Seq<FindingView> {
    let minimum = property_usize_spec(rule, "minimum"@, DEFAULT_SHORT_NAME);
    let exceptions = property_list_spec(rule, "exceptions"@);
    one_if(
        f.name@.len() < minimum && !exceptions.contains(f.name@),
        func_finding(
            rule,
            file,
            &f,
            format_message_spec(
                rule.message@,
                seq![parent_name(&f), f.name@, decimal(minimum as nat)],
            ),
        ),
    )
}

pub open spec fn short_method_emit(rule: &LoadedRule, file: Seq<char>) -> spec_fn(FnModel) -> Seq<FindingView> {
    |f: FnModel| short_method_findings(rule, file, f)
}

pub fn apply_short_method_name(rule: &LoadedRule, file: &str, model: &FileModel, out: &mut Vec<Violation>)
    ensures
        views(final(out)@) == views(old(out)@) + gather_all(model.functions@, short_method_emit(rule, file@)),
{
    let minimum = property_usize(rule, "minimum", DEFAULT_SHORT_NAME);
    let exceptions = property_list(rule, "exceptions");
    let ghost emit = short_method_emit(rule, file@);
    let ghost start = views(out@);
    let fs = &model.functions;
    let mut i: usize = 0;
    while i < fs.len()
        invariant
            i <= fs.len(),
            fs == &model.functions,
            emit == short_method_emit(rule, file@),
            minimum == property_usize_spec(rule, "minimum"@, DEFAULT_SHORT_NAME),
            texts(exceptions@) == property_list_spec(rule, "exceptions"@),
            views(out@) == start + gather(fs@, i as int, emit),
        decreases fs.len() - i,
    {
        let f = &fs[i];
        if chars_of_string(&f.name).len() < minimum && !listed(&exceptions, &f.name) {
            let parent = match &f.parent {
                Some(p) => chars_of_string(p),
                None => Vec::new(),
            };
            assert(parent@ == parent_name(f));
            let text = format_message(
                rule.message.as_str(),
                &args3(parent, chars_of_string(&f.name), number_text(minimum)),
            );
            push_finding(out, func_violation(rule, file, f, text));
        }
        assert(emit(fs@[i as int]) == short_method_findings(rule, file@, fs@[i as int]));
        assert(views(out@) =~= start + gather(fs@, i + 1, emit));
        i = i + 1;
    }
}

// ----- constants -------------------------------------------------------------

/// Whether the rule asks for PascalCase constants (`convention` is
/// `pascal`, in any ASCII case; `upper` otherwise).
pub open spec fn pascal_convention(rule: &LoadedRule) -> bool {
    match rule.property("convention"@) {
        Some(v) => lower(v) == "pascal"@,
        None => false,
    }
}

pub open spec fn constant_findings(rule: &LoadedRule, file: Seq<char>, c: NamedSite) -> Seq<FindingView> {
    let pascal = pascal_convention(rule);
    let ok = if pascal {
        pascal_case(c.name@)
    } else {
        upper_case(c.name@)
    };
    let description = if pascal {
        format_message_spec("Constant {0} should be defined in PascalCase"@, seq![c.name@])
    } else {
        format_message_spec(rule.message@, seq![c.name@])
    };
    one_if(!ok, name_finding(rule, file, c.begin_line, description))
}

pub open spec fn constant_emit(rule: &LoadedRule, file: Seq<char>) -> spec_fn(NamedSite) -> Seq<FindingView> {
    |c: NamedSite| constant_findings(rule, file, c)
}

fn is_pascal_convention(rule: &LoadedRule) -> (b: bool)
    ensures
        b == pascal_convention(rule),
{
    match rule.get_property("convention") {
        Some(v) => {
            let mut l: Vec<char> = Vec::new();
            let c = chars_of_string(v);
            let mut i: usize = 0;
            while i < c.len()
                invariant
                    i <= c.len(),
                    l@ == lower(c@.take(i as int)),
                decreases c.len() - i,
            {
                l.push(crate::text::lower_of(c[i]));
                i = i + 1;
                assert(lower(c@.take(i as int)) =~= lower(c@.take(i - 1)).push(
                    crate::text::lower_char(c@[i - 1]),
                ));
            }
            assert(c@.take(c.len() as int) =~= c@);
            let p = crate::text::chars_of("pascal");
            crate::text::chars_eq(&l, &p)
        },
        None => false,
    }
}

pub fn apply_constant_naming(rule: &LoadedRule, file: &str, model: &FileModel, out: &mut Vec<Violation>)
    ensures
        views(final(out)@) == views(old(out)@) + gather_all(model.constants@, constant_emit(rule, file@)),
{
    let pascal = is_pascal_convention(rule);
    let ghost emit = constant_emit(rule, file@);
    let ghost start = views(out@);
    let cs = &model.constants;
    let mut i: usize = 0;
    while i < cs.len()
        invariant
            i <= cs.len(),
            cs == &model.constants,
            emit == constant_emit(rule, file@),
            pascal == pascal_convention(rule),
            views(out@) == start + gather(cs@, i as int, emit),
        decreases cs.len() - i,
    {
        let c = &cs[i];
        let ok = if pascal {
            is_pascal_case(&c.name)
        } else {
            is_upper_case(&c.name)
        };
        if !ok {
            let description = if pascal {
                format_message(
                    "Constant {0} should be defined in PascalCase",
                    &args1(chars_of_string(&c.name)),
                )
            } else {
                format_message(rule.message.as_str(), &args1(chars_of_string(&c.name)))
            };
            push_finding(out, name_violation(rule, file, c.begin_line, description));
        }
        assert(emit(cs@[i as int]) == constant_findings(rule, file@, cs@[i as int]));
        assert(views(out@) =~= start + gather(cs@, i + 1, emit));
        i = i + 1;
    }
}

// ----- boolean getters -------------------------------------------------------

pub open spec fn boolean_get_findings(rule: &LoadedRule, file: Seq<char>, f: FnModel) -> Seq<FindingView> {
    let check_parameterized = property_bool_spec(rule, "checkParameterizedMethods"@, false);
    one_if(
        getter_name(f.name@) && f.returns_bool && (check_parameterized || f.param_count == 0),
        func_finding(rule, file, &f, format_message_spec(rule.message@, seq![f.name@])),
    )
}

pub open spec fn boolean_get_emit(rule: &LoadedRule, file: Seq<char>) -> spec_fn(FnModel) -> Seq<FindingView> {
    |f: FnModel| boolean_get_findings(rule, file, f)
}

pub fn apply_boolean_get_method_name(rule: &LoadedRule, file: &str, model: &FileModel, out: &mut Vec<Violation>)
    ensures
        views(final(out)@) == views(old(out)@) + gather_all(model.functions@, boolean_get_emit(rule, file@)),
{
    let check_parameterized = property_bool(rule, "checkParameterizedMethods", false);
    let ghost emit = boolean_get_emit(rule, file@);
    let ghost start = views(out@);
    let fs = &model.functions;
    let mut i: usize = 0;
    while i < fs.len()
        invariant
            i <= fs.len(),
            fs == &model.functions,
            emit == boolean_get_emit(rule, file@),
            check_parameterized == property_bool_spec(rule, "checkParameterizedMethods"@, false),
            views(out@) == start + gather(fs@, i as int, emit),
        decreases fs.len() - i,
    {
        let f = &fs[i];
        if is_getter_name(&f.name) && f.returns_bool && (check_parameterized || f.param_count == 0) {
            let text = format_message(rule.message.as_str(), &args1(chars_of_string(&f.name)));
            push_finding(out, func_violation(rule, file, f, text));
        }
        assert(emit(fs@[i as int]) == boolean_get_findings(rule, file@, fs@[i as int]));
        assert(views(out@) =~= start + gather(fs@, i + 1, emit));
        i = i + 1;
    }
}

} // verus!
