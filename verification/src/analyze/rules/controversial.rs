//! Controversial (camel-case) rule handlers.

use vstd::prelude::*;
use crate::report::{chars_of_string, views, FindingView, Violation};
use crate::ruleset::LoadedRule;
use crate::analyze::model::{FieldInfo, FileModel, FnModel, TypeModel};
use crate::analyze::helpers::{
    format_message, format_message_spec, func_finding, func_violation, is_pascal_case,
    is_pascal_case_no_abbrev, is_snake_case, is_tuple_field_name, name_finding, name_violation,
    pascal_case, pascal_case_no_abbrev, property_bool, property_bool_spec, snake_case,
    tuple_field_name, type_finding, type_violation,
};
use super::{args1, gather, gather_all, one_if, push_finding};
use super::unusedcode::{apply_site_check, checked_sites, site_emit, SiteCheck};

verus! {

pub open spec fn camel_class_findings(rule: &LoadedRule, file: Seq<char>, t: TypeModel) -> Seq<FindingView> {
    let strict_abbr = property_bool_spec(rule, "camelcase-abbreviations"@, false);
    let ok = if strict_abbr {
        pascal_case_no_abbrev(t.name@)
    } else {
        pascal_case(t.name@)
    };
    one_if(!ok, type_finding(rule, file, &t, format_message_spec(rule.message@, seq![t.name@])))
}

pub open spec fn camel_class_emit(rule: &LoadedRule, file: Seq<char>) -> spec_fn(TypeModel) -> Seq<FindingView> {
    |t: TypeModel| camel_class_findings(rule, file, t)
}

pub fn apply_camel_case_class_name(rule: &LoadedRule, file: &str, model: &FileModel, out: &mut Vec<Violation>)
    ensures
        views(final(out)@) == views(old(out)@) + gather_all(model.types@, camel_class_emit(rule, file@)),
{
    let strict_abbr = property_bool(rule, "camelcase-abbreviations", false);
    let ghost emit = camel_class_emit(rule, file@);
    let ghost start = views(out@);
    let ts = &model.types;
    let mut i: usize = 0;
    while i < ts.len()
        invariant
            i <= ts.len(),
            ts == &model.types,
            emit == camel_class_emit(rule, file@),
            strict_abbr == property_bool_spec(rule, "camelcase-abbreviations"@, false),
            views(out@) == start + gather(ts@, i as int, emit),
        decreases ts.len() - i,
    {
        let t = &ts[i];
        let ok = if strict_abbr {
            is_pascal_case_no_abbrev(&t.name)
        } else {
            is_pascal_case(&t.name)
        };
        if !ok {
            let text = format_message(rule.message.as_str(), &args1(chars_of_string(&t.name)));
            push_finding(out, type_violation(rule, file, t, text));
        }
        assert(emit(ts@[i as int]) == camel_class_findings(rule, file@, ts@[i as int]));
        assert(views(out@) =~= start + gather(ts@, i + 1, emit));
        i = i + 1;
    }
}

pub open spec fn camel_method_findings(rule: &LoadedRule, file: Seq<char>, f: FnModel) -> Seq<FindingView> {
    one_if(
        f.name@ != "_"@ && !snake_case(f.name@),
        func_finding(rule, file, &f, format_message_spec(rule.message@, seq![f.name@])),
    )
}

pub open spec fn camel_method_emit(rule: &LoadedRule, file: Seq<char>) -> spec_fn(FnModel) -> Seq<FindingView> {
    |f: FnModel| camel_method_findings(rule, file, f)
}

fn is_underscore(name: &String) -> (b: bool)
    ensures
        b == (name@ == "_"@),
{
    let v = chars_of_string(name);
    let u = crate::text::chars_of("_");
    crate::text::chars_eq(&v, &u)
}

pub fn apply_camel_case_method_name(rule: &LoadedRule, file: &str, model: &FileModel, out: &mut Vec<Violation>)
    ensures
        views(final(out)@) == views(old(out)@) + gather_all(model.functions@, camel_method_emit(rule, file@)),
{
    let ghost emit = camel_method_emit(rule, file@);
    let ghost start = views(out@);
    let fs = &model.functions;
    let mut i: usize = 0;
    while i < fs.len()
        invariant
            i <= fs.len(),
            fs == &model.functions,
            emit == camel_method_emit(rule, file@),
            views(out@) == start + gather(fs@, i as int, emit),
        decreases fs.len() - i,
    {
        let f = &fs[i];
        if !is_underscore(&f.name) && !is_snake_case(&f.name) {
            let text = format_message(rule.message.as_str(), &args1(chars_of_string(&f.name)));
            push_finding(out, func_violation(rule, file, f, text));
        }
        assert(emit(fs@[i as int]) == camel_method_findings(rule, file@, fs@[i as int]));
        assert(views(out@) =~= start + gather(fs@, i + 1, emit));
        i = i + 1;
    }
}

pub open spec fn camel_field_findings(rule: &LoadedRule, file: Seq<char>, f: FieldInfo) -> Seq<FindingView> {
    one_if(
        !tuple_field_name(f.name@) && f.name@ != "_"@ && !snake_case(f.name@),
        name_finding(rule, file, f.begin_line, format_message_spec(rule.message@, seq![f.name@])),
    )
}

pub open spec fn camel_field_emit(rule: &LoadedRule, file: Seq<char>) -> spec_fn(FieldInfo) -> Seq<FindingView> {
    |f: FieldInfo| camel_field_findings(rule, file, f)
}

pub open spec fn camel_property_emit(rule: &LoadedRule, file: Seq<char>) -> spec_fn(TypeModel) -> Seq<FindingView> {
    |t: TypeModel| gather_all(t.fields@, camel_field_emit(rule, file))
}

fn check_fields(rule: &LoadedRule, file: &str, t: &TypeModel, out: &mut Vec<Violation>)
    ensures
        views(final(out)@) == views(old(out)@) + gather_all(t.fields@, camel_field_emit(rule, file@)),
{
    let ghost emit = camel_field_emit(rule, file@);
    let ghost start = views(out@);
    let fs = &t.fields;
    let mut i: usize = 0;
    while i < fs.len()
        invariant
            i <= fs.len(),
            fs == &t.fields,
            emit == camel_field_emit(rule, file@),
            views(out@) == start + gather(fs@, i as int, emit),
        decreases fs.len() - i,
    {
        let f = &fs[i];
        if !is_tuple_field_name(&f.name) && !is_underscore(&f.name) && !is_snake_case(&f.name) {
            let text = format_message(rule.message.as_str(), &args1(chars_of_string(&f.name)));
            push_finding(out, name_violation(rule, file, f.begin_line, text));
        }
        assert(emit(fs@[i as int]) == camel_field_findings(rule, file@, fs@[i as int]));
        assert(views(out@) =~= start + gather(fs@, i + 1, emit));
        i = i + 1;
    }
}

pub fn apply_camel_case_property_name(rule: &LoadedRule, file: &str, model: &FileModel, out: &mut Vec<Violation>)
    ensures
        views(final(out)@) == views(old(out)@) + gather_all(model.types@, camel_property_emit(rule, file@)),
{
    let ghost emit = camel_property_emit(rule, file@);
    let ghost start = views(out@);
    let ts = &model.types;
    let mut i: usize = 0;
    while i < ts.len()
        invariant
            i <= ts.len(),
            ts == &model.types,
            emit == camel_property_emit(rule, file@),
            views(out@) == start + gather(ts@, i as int, emit),
        decreases ts.len() - i,
    {
        check_fields(rule, file, &ts[i], out);
        assert(emit(ts@[i as int]) == gather_all(ts@[i as int].fields@, camel_field_emit(rule, file@)));
        assert(views(out@) =~= start + gather(ts@, i + 1, emit));
        i = i + 1;
    }
}

pub fn apply_camel_case_parameter_name(rule: &LoadedRule, file: &str, model: &FileModel, out: &mut Vec<Violation>)
    ensures
        views(final(out)@) == views(old(out)@) + gather_all(
            model.usage.params@,
            site_emit(SiteCheck::CamelCaseParameterName, rule, file@, model),
        ),
{
    apply_site_check(SiteCheck::CamelCaseParameterName, rule, file, model, out)
}

pub fn apply_camel_case_variable_name(rule: &LoadedRule, file: &str, model: &FileModel, out: &mut Vec<Violation>)
    ensures
        views(final(out)@) == views(old(out)@) + gather_all(
            model.usage.locals@,
            site_emit(SiteCheck::CamelCaseVariableName, rule, file@, model),
        ),
{
    apply_site_check(SiteCheck::CamelCaseVariableName, rule, file, model, out)
}

} // verus!
