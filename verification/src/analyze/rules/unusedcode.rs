//! Unused-code rule handlers, and the checks over declared names that the
//! camel-case rules share with them.

use vstd::prelude::*;
use crate::text::texts;
use crate::report::{chars_of_string, views, FindingView, Violation};
use crate::ruleset::LoadedRule;
use crate::analyze::model::{FileModel, NamedSite};
use crate::analyze::helpers::{
    format_message, format_message_spec, is_rust_unused_name, is_snake_case, listed, name_finding,
    name_violation, property_list, property_list_spec, rust_unused_name, snake_case,
};
use super::{args1, gather, gather_all, one_if, push_finding};

verus! {

/// The checks that report declared names one by one.
#[derive(Clone, Copy, PartialEq, Eq, Structural)]
pub enum SiteCheck {
    UnusedLocalVariable,
    UnusedFormalParameter,
    UnusedPrivateField,
    UnusedPrivateMethod,
    CamelCaseParameterName,
    CamelCaseVariableName,
}

/// The declared names a check reads.
pub open spec fn checked_sites(check: SiteCheck, model: &FileModel) -> Seq<NamedSite> {
    match check {
        SiteCheck::UnusedLocalVariable | SiteCheck::CamelCaseVariableName => model.usage.locals@,
        SiteCheck::UnusedFormalParameter | SiteCheck::CamelCaseParameterName => model.usage.params@,
        SiteCheck::UnusedPrivateField => model.usage.private_fields@,
        SiteCheck::UnusedPrivateMethod => model.usage.private_methods@,
    }
}

/// Whether a declared name is reported.
pub open spec fn site_flagged(check: SiteCheck, rule: &LoadedRule, model: &FileModel, name: Seq<char>) -> bool {
    let reads = texts(model.usage.ident_reads@);
    match check {
        SiteCheck::UnusedLocalVariable => !rust_unused_name(name) && !property_list_spec(
            rule,
            "exceptions"@,
        ).contains(name) && !reads.contains(name),
        SiteCheck::UnusedFormalParameter => !rust_unused_name(name) && !reads.contains(name),
        SiteCheck::UnusedPrivateField => !rust_unused_name(name) && !texts(
            model.usage.field_reads@,
        ).contains(name),
        SiteCheck::UnusedPrivateMethod => !rust_unused_name(name) && !texts(
            model.usage.method_calls@,
        ).contains(name) && !reads.contains(name),
        SiteCheck::CamelCaseParameterName | SiteCheck::CamelCaseVariableName => name != "_"@
            && !snake_case(name),
    }
}

pub open spec fn site_findings(check: SiteCheck, rule: &LoadedRule, file: Seq<char>, model: &FileModel, s: NamedSite) -> Seq<FindingView> {
    one_if(
        site_flagged(check, rule, model, s.name@),
        name_finding(rule, file, s.begin_line, format_message_spec(rule.message@, seq![s.name@])),
    )
}

pub open spec fn site_emit(check: SiteCheck, rule: &LoadedRule, file: Seq<char>, model: &FileModel) -> spec_fn(
    NamedSite,
) -> Seq<FindingView> {
    |s: NamedSite| site_findings(check, rule, file, model, s)
}

fn is_underscore(name: &String) -> (b: bool)
    ensures
        b == (name@ == "_"@),
{
    let v = chars_of_string(name);
    let u = crate::text::chars_of("_");
    crate::text::chars_eq(&v, &u)
}

/// Reports the declared names that `check` flags.
pub fn apply_site_check(
    check: SiteCheck,
    rule: &LoadedRule,
    file: &str,
    model: &FileModel,
    out: &mut Vec<Violation>,
)
    ensures
        views(final(out)@) == views(old(out)@) + gather_all(
            checked_sites(check, model),
            site_emit(check, rule, file@, model),
        ),
{
    let exceptions = property_list(rule, "exceptions");
    let sites = match check {
        SiteCheck::UnusedLocalVariable | SiteCheck::CamelCaseVariableName => &model.usage.locals,
        SiteCheck::UnusedFormalParameter | SiteCheck::CamelCaseParameterName => &model.usage.params,
        SiteCheck::UnusedPrivateField => &model.usage.private_fields,
        SiteCheck::UnusedPrivateMethod => &model.usage.private_methods,
    };
    let ghost emit = site_emit(check, rule, file@, model);
    let ghost start = views(out@);
    let mut i: usize = 0;
    while i < sites.len()
        invariant
            i <= sites.len(),
            sites@ == checked_sites(check, model),
            emit == site_emit(check, rule, file@, model),
            texts(exceptions@) == property_list_spec(rule, "exceptions"@),
            views(out@) == start + gather(sites@, i as int, emit),
        decreases sites.len() - i,
    {
        let s = &sites[i];
        let flagged = match check {
            SiteCheck::UnusedLocalVariable => !is_rust_unused_name(&s.name) && !listed(
                &exceptions,
                &s.name,
            ) && !listed(&model.usage.ident_reads, &s.name),
            SiteCheck::UnusedFormalParameter => !is_rust_unused_name(&s.name) && !listed(
                &model.usage.ident_reads,
                &s.name,
            ),
            SiteCheck::UnusedPrivateField => !is_rust_unused_name(&s.name) && !listed(
                &model.usage.field_reads,
                &s.name,
            ),
            SiteCheck::UnusedPrivateMethod => !is_rust_unused_name(&s.name) && !listed(
                &model.usage.method_calls,
                &s.name,
            ) && !listed(&model.usage.ident_reads, &s.name),
            SiteCheck::CamelCaseParameterName | SiteCheck::CamelCaseVariableName => !is_underscore(
                &s.name,
            ) && !is_snake_case(&s.name),
        };
        assert(flagged == site_flagged(check, rule, model, s.name@));
        if flagged {
            let text = format_message(rule.message.as_str(), &args1(chars_of_string(&s.name)));
            push_finding(out, name_violation(rule, file, s.begin_line, text));
        }
        assert(emit(sites@[i as int]) == site_findings(check, rule, file@, model, sites@[i as int]));
        assert(views(out@) =~= start + gather(sites@, i + 1, emit));
        i = i + 1;
    }
}

pub fn apply_unused_local_variable(rule: &LoadedRule, file: &str, model: &FileModel, out: &mut Vec<Violation>)
    ensures
        views(final(out)@) == views(old(out)@) + gather_all(
            model.usage.locals@,
            site_emit(SiteCheck::UnusedLocalVariable, rule, file@, model),
        ),
{
    apply_site_check(SiteCheck::UnusedLocalVariable, rule, file, model, out)
}

pub fn apply_unused_formal_parameter(rule: &LoadedRule, file: &str, model: &FileModel, out: &mut Vec<Violation>)
    ensures
        views(final(out)@) == views(old(out)@) + gather_all(
            model.usage.params@,
            site_emit(SiteCheck::UnusedFormalParameter, rule, file@, model),
        ),
{
    apply_site_check(SiteCheck::UnusedFormalParameter, rule, file, model, out)
}

pub fn apply_unused_private_field(rule: &LoadedRule, file: &str, model: &FileModel, out: &mut Vec<Violation>)
    ensures
        views(final(out)@) == views(old(out)@) + gather_all(
            model.usage.private_fields@,
            site_emit(SiteCheck::UnusedPrivateField, rule, file@, model),
        ),
{
    apply_site_check(SiteCheck::UnusedPrivateField, rule, file, model, out)
}

pub fn apply_unused_private_method(rule: &LoadedRule, file: &str, model: &FileModel, out: &mut Vec<Violation>)
    ensures
        views(final(out)@) == views(old(out)@) + gather_all(
            model.usage.private_methods@,
            site_emit(SiteCheck::UnusedPrivateMethod, rule, file@, model),
        ),
{
    apply_site_check(SiteCheck::UnusedPrivateMethod, rule, file, model, out)
}

} // verus!
