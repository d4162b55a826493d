//! The markup renderers (XML, HTML, Checkstyle), the GitHub annotations, and
//! the pieces of the JSON-shaped formats that are not serialization.

use vstd::prelude::*;
use crate::text::{texts, chars_of, decimal, push_all, push_str, spaces, trim, trim_bounds};
use crate::report::{
    bool_text, chars_of_string, escape_spec, push_bool, push_decimal, push_escaped,
    push_escaped_chars, tool_version, xml_escape, github_escape_data, github_escape_property,
    Escape, ProcessingError, Report, Violation,
};

verus! {

/// The three markup layouts that group findings by file.
#[derive(Clone, Copy, PartialEq, Eq, Structural)]
pub enum Layout {
    Xml,
    Html,
    Checkstyle,
}

/// Whether finding `i` starts a new file group: its file differs from the
/// file of the finding before it (the empty name before the first).
pub open spec fn opens_group(vs: Seq<Violation>, i: int) -> bool {
    if i == 0 {
        vs[0].file@ != Seq::<char>::empty()
    } else {
        vs[i].file@ != vs[i - 1].file@
    }
}

/// Whether a group is open after the first `n` findings.
pub open spec fn any_open(vs: Seq<Violation>, n: int) -> bool
    decreases n,
{
    if n <= 0 {
        false
    } else {
        any_open(vs, n - 1) || opens_group(vs, n - 1)
    }
}

pub open spec fn group_close(l: Layout) -> Seq<char> {
    match l {
        Layout::Html => "</table>\n"@,
        _ => "  </file>\n"@,
    }
}

pub open spec fn group_open(l: Layout, file: Seq<char>) -> Seq<char> {
    match l {
        Layout::Html => "<h2>"@ + xml_escape(file)
            + "</h2>\n<table border=\"1\" cellspacing=\"0\" cellpadding=\"3\">\n"@
            + "<tr><th>Line</th><th>Rule</th><th>Suppressed</th><th>Description</th></tr>\n"@,
        _ => "  <file name=\""@ + xml_escape(file) + "\">\n"@,
    }
}

/// An optional XML attribute: absent when the value is blank.
pub open spec fn optional_attr(name: Seq<char>, value: Seq<char>) -> Seq<char> {
    if trim(value).len() == 0 {
        Seq::<char>::empty()
    } else {
        " "@ + name + "=\""@ + xml_escape(value) + "\""@
    }
}

pub open spec fn checkstyle_severity_spec(priority: u8) -> Seq<char> {
    if priority <= 2 {
        "error"@
    } else if priority == 3 {
        "warning"@
    } else {
        "info"@
    }
}

/// The description, marked when the finding was suppressed.
pub open spec fn described(v: Violation) -> Seq<char> {
    if v.suppressed {
        v.description@ + " [suppressed]"@
    } else {
        v.description@
    }
}

pub open spec fn xml_item_head(v: Violation) -> Seq<char> {
    "    <violation"@ + " beginline=\""@ + decimal(v.begin_line as nat) + "\""@ + " endline=\""@
        + decimal(v.end_line as nat) + "\""@ + " rule=\""@ + xml_escape(v.rule_name@) + "\""@
        + " ruleset=\""@ + xml_escape(v.ruleset_name@) + "\""@
}

pub open spec fn xml_item_attrs(v: Violation) -> Seq<char> {
    optional_attr("package"@, v.package@) + optional_attr(
        "externalInfoUrl"@,
        v.external_info_url@,
    ) + optional_attr("function"@, v.function@) + optional_attr("class"@, v.class@)
        + optional_attr("method"@, v.method@)
}

pub open spec fn xml_item_tail(v: Violation) -> Seq<char> {
    " priority=\""@ + decimal(v.priority as nat) + "\""@ + " suppressed=\""@ + bool_text(
        v.suppressed,
    ) + "\""@ + ">\n"@ + "      "@ + xml_escape(v.description@) + "\n"@
        + "    </violation>\n"@
}

pub open spec fn xml_item(v: Violation) -> Seq<char> {
    xml_item_head(v) + xml_item_attrs(v) + xml_item_tail(v)
}

pub open spec fn html_item(v: Violation) -> Seq<char> {
    "<tr><td>"@ + decimal(v.begin_line as nat) + "</td><td>"@ + xml_escape(v.rule_name@)
        + "</td><td>"@ + bool_text(v.suppressed) + "</td><td>"@ + xml_escape(v.description@)
        + "</td></tr>\n"@
}

pub open spec fn checkstyle_item(v: Violation) -> Seq<char> {
    "    <error line=\""@ + decimal(v.begin_line as nat) + "\" column=\"1\" severity=\""@
        + checkstyle_severity_spec(v.priority) + "\" message=\""@ + xml_escape(described(v))
        + "\" source=\""@ + xml_escape(v.ruleset_name@ + "/"@ + v.rule_name@) + "\"/>\n"@
}

pub open spec fn layout_item(l: Layout, v: Violation) -> Seq<char> {
    match l {
        Layout::Xml => xml_item(v),
        Layout::Html => html_item(v),
        Layout::Checkstyle => checkstyle_item(v),
    }
}

/// What finding `i` adds to the grouped body: the group change, if any,
/// then its own entry.
pub open spec fn group_step(l: Layout, vs: Seq<Violation>, i: int) -> Seq<char> {
    (if opens_group(vs, i) {
        (if any_open(vs, i) {
            group_close(l)
        } else {
            Seq::<char>::empty()
        }) + group_open(l, vs[i].file@)
    } else {
        Seq::<char>::empty()
    }) + layout_item(l, vs[i])
}

/// The grouped body for the first `n` findings, before the last group is
/// closed.
pub open spec fn grouped(l: Layout, vs: Seq<Violation>, n: int) -> Seq<char>
    decreases n,
{
    if n <= 0 {
        Seq::<char>::empty()
    } else {
        grouped(l, vs, n - 1) + group_step(l, vs, n - 1)
    }
}

/// Every finding grouped by runs of equal file names, the last group closed.
pub open spec fn grouped_all(l: Layout, vs: Seq<Violation>) -> Seq<char> {
    grouped(l, vs, vs.len() as int) + if any_open(vs, vs.len() as int) {
        group_close(l)
    } else {
        Seq::<char>::empty()
    }
}

pub open spec fn xml_error_lines(es: Seq<ProcessingError>, n: int) -> Seq<char>
    decreases n,
{
    if n <= 0 {
        Seq::<char>::empty()
    } else {
        xml_error_lines(es, n - 1) + "  <error filename=\""@ + xml_escape(es[n - 1].file@)
            + "\" msg=\""@ + xml_escape(es[n - 1].message@) + "\" />\n"@
    }
}

/// The PMD-style XML report.
pub open spec fn xml_report(r: &Report, timestamp: Seq<char>) -> Seq<char> {
    "<?xml version=\"1.0\" encoding=\"UTF-8\" ?>\n"@ + "<pmd version=\""@ + tool_version()
        + "\" tool=\"messrust\" timestamp=\""@ + xml_escape(timestamp) + "\">\n"@ + grouped_all(
        Layout::Xml,
        r.violations@,
    ) + xml_error_lines(r.errors@, r.errors@.len() as int) + "</pmd>\n"@
}

/// The HTML report.
pub open spec fn html_report(r: &Report) -> Seq<char> {
    "<!DOCTYPE html>\n"@
        + "<html><head><meta charset=\"utf-8\"><title>messrust report</title></head><body>\n"@
        + "<h1>messrust report</h1>\n"@ + grouped_all(Layout::Html, r.violations@)
        + "</body></html>\n"@
}

/// The Checkstyle report.
pub open spec fn checkstyle_report(r: &Report) -> Seq<char> {
    "<?xml version=\"1.0\" encoding=\"UTF-8\"?>\n"@ + "<checkstyle version=\""@ + tool_version()
        + "\">\n"@ + grouped_all(Layout::Checkstyle, r.violations@) + "</checkstyle>\n"@
}

pub fn checkstyle_severity(priority: u8) -> (r: &'static str)
    ensures
        r@ == checkstyle_severity_spec(priority),
{
    if priority <= 2 {
        "error"
    } else if priority == 3 {
        "warning"
    } else {
        "info"
    }
}

/// Whether `v` is empty once trimmed of whitespace.
fn is_blank(v: &Vec<char>) -> (b: bool)
    ensures
        b == (trim(v@).len() == 0),
{
    let (a, z) = trim_bounds(v, 0, v.len());
    assert(v@.subrange(0, v.len() as int) =~= v@);
    a == z
}

fn push_optional_attr(out: &mut Vec<char>, name: &str, value: &String)
    ensures
        final(out)@ == old(out)@ + optional_attr(name@, value@),
{
    let v = chars_of_string(value);
    if !is_blank(&v) {
        let ghost before = out@;
        push_str(out, " ");
        push_str(out, name);
        push_str(out, "=\"");
        push_escaped_chars(out, Escape::Xml, &v);
        push_str(out, "\"");
        assert(out@ =~= before + (" "@ + name@ + "=\""@ + xml_escape(value@) + "\""@));
    } else {
        assert(out@ =~= old(out)@ + Seq::<char>::empty());
    }
}

fn push_xml_item_head(out: &mut Vec<char>, v: &Violation)
    ensures
        final(out)@ == old(out)@ + xml_item_head(*v),
{
    let ghost before = out@;
    push_str(out, "    <violation");
    push_str(out, " beginline=\"");
    push_decimal(out, v.begin_line);
    push_str(out, "\"");
    push_str(out, " endline=\"");
    push_decimal(out, v.end_line);
    push_str(out, "\"");
    push_str(out, " rule=\"");
    push_escaped(out, Escape::Xml, v.rule_name.as_str());
    push_str(out, "\"");
    push_str(out, " ruleset=\"");
    push_escaped(out, Escape::Xml, v.ruleset_name.as_str());
    push_str(out, "\"");
    assert(out@ =~= before + xml_item_head(*v));
}

fn push_xml_item_attrs(out: &mut Vec<char>, v: &Violation)
    ensures
        final(out)@ == old(out)@ + xml_item_attrs(*v),
{
    let ghost before = out@;
    push_optional_attr(out, "package", &v.package);
    push_optional_attr(out, "externalInfoUrl", &v.external_info_url);
    push_optional_attr(out, "function", &v.function);
    push_optional_attr(out, "class", &v.class);
    push_optional_attr(out, "method", &v.method);
    assert(out@ =~= before + xml_item_attrs(*v));
}

fn push_xml_item_tail(out: &mut Vec<char>, v: &Violation)
    ensures
        final(out)@ == old(out)@ + xml_item_tail(*v),
{
    let ghost before = out@;
    push_str(out, " priority=\"");
    push_decimal(out, v.priority as usize);
    push_str(out, "\"");
    push_str(out, " suppressed=\"");
    push_bool(out, v.suppressed);
    push_str(out, "\"");
    push_str(out, ">\n");
    push_str(out, "      ");
    push_escaped(out, Escape::Xml, v.description.as_str());
    push_str(out, "\n");
    push_str(out, "    </violation>\n");
    assert(out@ =~= before + xml_item_tail(*v));
}

fn push_xml_item(out: &mut Vec<char>, v: &Violation)
    ensures
        final(out)@ == old(out)@ + xml_item(*v),
{
    let ghost before = out@;
    push_xml_item_head(out, v);
    push_xml_item_attrs(out, v);
    push_xml_item_tail(out, v);
    assert(out@ =~= before + xml_item(*v));
}

fn push_html_item(out: &mut Vec<char>, v: &Violation)
    ensures
        final(out)@ == old(out)@ + html_item(*v),
{
    let ghost before = out@;
    push_str(out, "<tr><td>");
    push_decimal(out, v.begin_line);
    push_str(out, "</td><td>");
    push_escaped(out, Escape::Xml, v.rule_name.as_str());
    push_str(out, "</td><td>");
    push_bool(out, v.suppressed);
    push_str(out, "</td><td>");
    push_escaped(out, Escape::Xml, v.description.as_str());
    push_str(out, "</td></tr>\n");
    assert(out@ =~= before + html_item(*v));
}

/// The description of `v`, marked when it was suppressed.
pub fn format_description(v: &Violation) -> (r: Vec<char>)
    ensures
        r@ == described(*v),
{
    let mut d = chars_of_string(&v.description);
    if v.suppressed {
        push_str(&mut d, " [suppressed]");
    }
    d
}

fn push_checkstyle_item(out: &mut Vec<char>, v: &Violation)
    ensures
        final(out)@ == old(out)@ + checkstyle_item(*v),
{
    let ghost before = out@;
    push_str(out, "    <error line=\"");
    push_decimal(out, v.begin_line);
    push_str(out, "\" column=\"1\" severity=\"");
    push_str(out, checkstyle_severity(v.priority));
    push_str(out, "\" message=\"");
    let d = format_description(v);
    push_escaped_chars(out, Escape::Xml, &d);
    push_str(out, "\" source=\"");
    let mut source = chars_of_string(&v.ruleset_name);
    push_str(&mut source, "/");
    let rule = chars_of_string(&v.rule_name);
    push_all(&mut source, &rule);
    push_escaped_chars(out, Escape::Xml, &source);
    push_str(out, "\"/>\n");
    assert(out@ =~= before + checkstyle_item(*v));
}

fn push_layout_item(out: &mut Vec<char>, l: Layout, v: &Violation)
    ensures
        final(out)@ == old(out)@ + layout_item(l, *v),
{
    match l {
        Layout::Xml => push_xml_item(out, v),
        Layout::Html => push_html_item(out, v),
        Layout::Checkstyle => push_checkstyle_item(out, v),
    }
}

fn push_group_close(out: &mut Vec<char>, l: Layout)
    ensures
        final(out)@ == old(out)@ + group_close(l),
{
    match l {
        Layout::Html => push_str(out, "</table>\n"),
        _ => push_str(out, "  </file>\n"),
    }
}

fn push_group_open(out: &mut Vec<char>, l: Layout, file: &Vec<char>)
    ensures
        final(out)@ == old(out)@ + group_open(l, file@),
{
    let ghost before = out@;
    match l {
        Layout::Html => {
            push_str(out, "<h2>");
            push_escaped_chars(out, Escape::Xml, file);
            push_str(out, "</h2>\n<table border=\"1\" cellspacing=\"0\" cellpadding=\"3\">\n");
            push_str(
                out,
                "<tr><th>Line</th><th>Rule</th><th>Suppressed</th><th>Description</th></tr>\n",
            );
        },
        _ => {
            push_str(out, "  <file name=\"");
            push_escaped_chars(out, Escape::Xml, file);
            push_str(out, "\">\n");
        },
    }
    assert(out@ =~= before + group_open(l, file@));
}

/// Appends what finding `v` adds to the grouped body; `prev` is the file of
/// the finding before it and `open` whether a group is open.
fn push_group_step(out: &mut Vec<char>, l: Layout, vs: &Vec<Violation>, i: usize, prev: &Vec<char>, open: bool) -> (r: (Vec<char>, bool))
    requires
        i < vs.len(),
        i == 0 ==> prev@ == Seq::<char>::empty(),
        i > 0 ==> prev@ == vs@[i - 1].file@,
        open == any_open(vs@, i as int),
    ensures
        final(out)@ == old(out)@ + group_step(l, vs@, i as int),
        r.0@ == vs@[i as int].file@,
        r.1 == any_open(vs@, i + 1),
{
    let ghost before = out@;
    let file = chars_of_string(&vs[i].file);
    let opens = !crate::text::chars_eq(&file, prev);
    assert(opens == opens_group(vs@, i as int));
    let mut now_open = open;
    if opens {
        if open {
            push_group_close(out, l);
        }
        push_group_open(out, l, &file);
        now_open = true;
    }
    push_layout_item(out, l, &vs[i]);
    assert(out@ =~= before + group_step(l, vs@, i as int));
    (file, now_open)
}

/// Appends the findings of `vs` grouped by file in layout `l`.
#[verifier::rlimit(40)]
pub fn push_grouped(out: &mut Vec<char>, l: Layout, vs: &Vec<Violation>)
    ensures
        final(out)@ == old(out)@ + grouped_all(l, vs@),
{
    let ghost start = old(out)@;
    let mut open = false;
    let mut prev: Vec<char> = Vec::new();
    let mut i: usize = 0;
    assert(start + grouped(l, vs@, 0) =~= start);
    while i < vs.len()
        invariant
            i <= vs.len(),
            out@ == start + grouped(l, vs@, i as int),
            open == any_open(vs@, i as int),
            i == 0 ==> prev@ == Seq::<char>::empty(),
            i > 0 ==> prev@ == vs@[i - 1].file@,
        decreases vs.len() - i,
    {
        let (file, now_open) = push_group_step(out, l, vs, i, &prev, open);
        assert(grouped(l, vs@, i + 1) == grouped(l, vs@, i as int) + group_step(l, vs@, i as int));
        assert(out@ =~= start + grouped(l, vs@, i + 1));
        prev = file;
        open = now_open;
        i = i + 1;
    }
    if open {
        push_group_close(out, l);
    }
    assert(out@ =~= start + grouped_all(l, vs@));
}

/// Renders the PMD-style XML report, stamped with `timestamp`.
pub fn write_xml(report: &Report, timestamp: &str) -> (r: String)
    ensures
        r@ == xml_report(report, timestamp@),
{
    let mut out: Vec<char> = Vec::new();
    push_str(&mut out, "<?xml version=\"1.0\" encoding=\"UTF-8\" ?>\n");
    push_str(&mut out, "<pmd version=\"");
    push_str(&mut out, crate::report::version());
    push_str(&mut out, "\" tool=\"messrust\" timestamp=\"");
    push_escaped(&mut out, Escape::Xml, timestamp);
    push_str(&mut out, "\">\n");
    push_grouped(&mut out, Layout::Xml, &report.violations);
    let ghost head = out@;
    let es = &report.errors;
    let mut j: usize = 0;
    assert(head + xml_error_lines(es@, 0) =~= head);
    while j < es.len()
        invariant
            j <= es.len(),
            es == &report.errors,
            out@ == head + xml_error_lines(es@, j as int),
        decreases es.len() - j,
    {
        push_str(&mut out, "  <error filename=\"");
        push_escaped(&mut out, Escape::Xml, es[j].file.as_str());
        push_str(&mut out, "\" msg=\"");
        push_escaped(&mut out, Escape::Xml, es[j].message.as_str());
        push_str(&mut out, "\" />\n");
        assert(out@ =~= head + xml_error_lines(es@, (j + 1) as int));
        j = j + 1;
    }
    push_str(&mut out, "</pmd>\n");
    assert(out@ =~= xml_report(report, timestamp@));
    crate::text::string_of(&out)
}

/// Renders the HTML report.
pub fn write_html(report: &Report) -> (r: String)
    ensures
        r@ == html_report(report),
{
    let mut out: Vec<char> = Vec::new();
    push_str(&mut out, "<!DOCTYPE html>\n");
    push_str(
        &mut out,
        "<html><head><meta charset=\"utf-8\"><title>messrust report</title></head><body>\n",
    );
    push_str(&mut out, "<h1>messrust report</h1>\n");
    push_grouped(&mut out, Layout::Html, &report.violations);
    push_str(&mut out, "</body></html>\n");
    assert(out@ =~= html_report(report));
    crate::text::string_of(&out)
}

/// Renders the Checkstyle report.
pub fn write_checkstyle(report: &Report) -> (r: String)
    ensures
        r@ == checkstyle_report(report),
{
    let mut out: Vec<char> = Vec::new();
    push_str(&mut out, "<?xml version=\"1.0\" encoding=\"UTF-8\"?>\n");
    push_str(&mut out, "<checkstyle version=\"");
    push_str(&mut out, crate::report::version());
    push_str(&mut out, "\">\n");
    push_grouped(&mut out, Layout::Checkstyle, &report.violations);
    push_str(&mut out, "</checkstyle>\n");
    assert(out@ =~= checkstyle_report(report));
    crate::text::string_of(&out)
}

// ----- GitHub workflow commands -------------------------------------------

pub open spec fn github_warning(v: Violation) -> Seq<char> {
    "::warning file="@ + github_escape_property(v.file@) + ",line="@ + decimal(
        v.begin_line as nat,
    ) + ",col=1::"@ + github_escape_data(v.description@) + " ("@ + github_escape_data(
        v.rule_name@,
    ) + (if v.suppressed {
        ", suppressed"@
    } else {
        Seq::<char>::empty()
    }) + ")\n"@
}

pub open spec fn github_error(e: ProcessingError) -> Seq<char> {
    "::error file="@ + github_escape_property(e.file@) + "::"@ + github_escape_data(e.message@)
        + "\n"@
}

pub open spec fn github_warnings(vs: Seq<Violation>, n: int) -> Seq<char>
    decreases n,
{
    if n <= 0 {
        Seq::<char>::empty()
    } else {
        github_warnings(vs, n - 1) + github_warning(vs[n - 1])
    }
}

pub open spec fn github_errors(es: Seq<ProcessingError>, n: int) -> Seq<char>
    decreases n,
{
    if n <= 0 {
        Seq::<char>::empty()
    } else {
        github_errors(es, n - 1) + github_error(es[n - 1])
    }
}

/// One warning command per finding, then one error command per error.
pub open spec fn github_report(r: &Report) -> Seq<char> {
    github_warnings(r.violations@, r.violations@.len() as int) + github_errors(
        r.errors@,
        r.errors@.len() as int,
    )
}

fn push_github_warning(out: &mut Vec<char>, v: &Violation)
    ensures
        final(out)@ == old(out)@ + github_warning(*v),
{
    let ghost before = out@;
    push_str(out, "::warning file=");
    push_escaped(out, Escape::GithubProperty, v.file.as_str());
    push_str(out, ",line=");
    push_decimal(out, v.begin_line);
    push_str(out, ",col=1::");
    push_escaped(out, Escape::GithubData, v.description.as_str());
    push_str(out, " (");
    push_escaped(out, Escape::GithubData, v.rule_name.as_str());
    if v.suppressed {
        push_str(out, ", suppressed");
    }
    push_str(out, ")\n");
    assert(out@ =~= before + github_warning(*v));
}

/// Renders the GitHub Actions workflow commands.
pub fn write_github(report: &Report) -> (r: String)
    ensures
        r@ == github_report(report),
{
    let mut out: Vec<char> = Vec::new();
    let vs = &report.violations;
    let mut i: usize = 0;
    while i < vs.len()
        invariant
            i <= vs.len(),
            vs == &report.violations,
            out@ == github_warnings(vs@, i as int),
        decreases vs.len() - i,
    {
        push_github_warning(&mut out, &vs[i]);
        i = i + 1;
    }
    let ghost head = out@;
    let es = &report.errors;
    let mut j: usize = 0;
    assert(head + github_errors(es@, 0) =~= head);
    while j < es.len()
        invariant
            j <= es.len(),
            es == &report.errors,
            out@ == head + github_errors(es@, j as int),
        decreases es.len() - j,
    {
        let ghost before = out@;
        push_str(&mut out, "::error file=");
        push_escaped(&mut out, Escape::GithubProperty, es[j].file.as_str());
        push_str(&mut out, "::");
        push_escaped(&mut out, Escape::GithubData, es[j].message.as_str());
        push_str(&mut out, "\n");
        assert(out@ =~= before + github_error(es@[j as int]));
        assert(out@ =~= head + github_errors(es@, (j + 1) as int));
        j = j + 1;
    }
    crate::text::string_of(&out)
}

// ----- GitLab Code Quality and SARIF pieces -----------------------------

pub open spec fn gitlab_severity_spec(priority: u8) -> Seq<char> {
    if priority == 1 {
        "blocker"@
    } else if priority == 2 {
        "critical"@
    } else if priority == 3 {
        "major"@
    } else if priority == 4 {
        "minor"@
    } else {
        "info"@
    }
}

/// The GitLab severity of a rule priority.
pub fn gitlab_severity(priority: u8) -> (r: &'static str)
    ensures
        r@ == gitlab_severity_spec(priority),
{
    match priority {
        1 => "blocker",
        2 => "critical",
        3 => "major",
        4 => "minor",
        _ => "info",
    }
}

pub open spec fn sarif_level_spec(priority: u8) -> Seq<char> {
    if priority <= 2 {
        "error"@
    } else {
        "warning"@
    }
}

/// The SARIF result level of a rule priority.
pub fn sarif_level(priority: u8) -> (r: &'static str)
    ensures
        r@ == sarif_level_spec(priority),
{
    if priority <= 2 {
        "error"
    } else {
        "warning"
    }
}

pub open spec fn hex_digit(d: nat) -> char {
    if d < 10 {
        ((d + 48) as u32) as char
    } else {
        ((d + 87) as u32) as char
    }
}

/// A byte as two lowercase hexadecimal digits.
pub open spec fn hex_byte(b: nat) -> Seq<char> {
    seq![hex_digit(b / 16), hex_digit(b % 16)]
}

/// The UTF-8 encoding of `c`, each byte as two hexadecimal digits.
pub open spec fn hex_char(c: char) -> Seq<char> {
    let u = c as nat;
    if u < 0x80 {
        hex_byte(u)
    } else if u < 0x800 {
        hex_byte(0xC0 + u / 64) + hex_byte(0x80 + u % 64)
    } else if u < 0x10000 {
        hex_byte(0xE0 + u / 4096) + hex_byte(0x80 + (u / 64) % 64) + hex_byte(0x80 + u % 64)
    } else {
        hex_byte(0xF0 + u / 262144) + hex_byte(0x80 + (u / 4096) % 64) + hex_byte(
            0x80 + (u / 64) % 64,
        ) + hex_byte(0x80 + u % 64)
    }
}

/// The lowercase hexadecimal of the UTF-8 bytes of `s`.
pub open spec fn hex_utf8(s: Seq<char>) -> Seq<char> {
    s.flat_map(|c: char| hex_char(c))
}

/// The fingerprint GitLab uses to follow a finding across runs.
pub open spec fn fingerprint_spec(v: Violation) -> Seq<char> {
    hex_utf8(v.file@ + ":"@ + decimal(v.begin_line as nat) + ":"@ + v.rule_name@)
}

fn hex_digit_of(d: u32) -> (c: char)
    requires
        d < 16,
    ensures
        c == hex_digit(d as nat),
{
    if d < 10 {
        let b: u8 = d as u8;
        (b + 48) as char
    } else {
        let b: u8 = d as u8;
        (b + 87) as char
    }
}

fn push_hex_byte(out: &mut Vec<char>, b: u32)
    requires
        b < 256,
    ensures
        final(out)@ == old(out)@ + hex_byte(b as nat),
{
    out.push(hex_digit_of(b / 16));
    out.push(hex_digit_of(b % 16));
    assert(out@ =~= old(out)@ + hex_byte(b as nat));
}

fn push_hex_char(out: &mut Vec<char>, c: char)
    ensures
        final(out)@ == old(out)@ + hex_char(c),
{
    let ghost before = out@;
    let u = c as u32;
    if u < 0x80 {
        push_hex_byte(out, u);
    } else if u < 0x800 {
        push_hex_byte(out, 0xC0 + u / 64);
        push_hex_byte(out, 0x80 + u % 64);
    } else if u < 0x10000 {
        push_hex_byte(out, 0xE0 + u / 4096);
        push_hex_byte(out, 0x80 + (u / 64) % 64);
        push_hex_byte(out, 0x80 + u % 64);
    } else {
        push_hex_byte(out, 0xF0 + u / 262144);
        push_hex_byte(out, 0x80 + (u / 4096) % 64);
        push_hex_byte(out, 0x80 + (u / 64) % 64);
        push_hex_byte(out, 0x80 + u % 64);
    }
    assert(out@ =~= before + hex_char(c));
}

/// The GitLab fingerprint of `v`: the hexadecimal UTF-8 bytes of
/// `file:line:rule`.
pub fn gitlab_fingerprint(v: &Violation) -> (r: String)
    ensures
        r@ == fingerprint_spec(*v),
{
    let mut raw = chars_of_string(&v.file);
    push_str(&mut raw, ":");
    push_decimal(&mut raw, v.begin_line);
    push_str(&mut raw, ":");
    let rule = chars_of_string(&v.rule_name);
    push_all(&mut raw, &rule);
    let mut out: Vec<char> = Vec::new();
    let mut i: usize = 0;
    assert(raw@.take(0) =~= Seq::<char>::empty());
    while i < raw.len()
        invariant
            i <= raw.len(),
            out@ == hex_utf8(raw@.take(i as int)),
        decreases raw.len() - i,
    {
        proof {
            raw@.take(i as int).lemma_flat_map_push(|c: char| hex_char(c), raw@[i as int]);
            assert(raw@.take(i as int).push(raw@[i as int]) =~= raw@.take(i + 1));
        }
        push_hex_char(&mut out, raw[i]);
        i = i + 1;
    }
    assert(raw@.take(raw.len() as int) =~= raw@);
    assert(raw@ =~= v.file@ + ":"@ + decimal(v.begin_line as nat) + ":"@ + v.rule_name@);
    crate::text::string_of(&out)
}

// ----- JSON framing ------------------------------------------------------

/// The index of the first line feed at or after `i` (the length if none).
pub open spec fn next_newline(s: Seq<char>, i: int) -> int
    decreases s.len() - i,
{
    if i >= s.len() {
        s.len() as int
    } else if s[i] == '\n' {
        i
    } else {
        next_newline(s, i + 1)
    }
}

/// Where the line starting at `i` ends, before its line feed and before a
/// carriage return that precedes that line feed (`str::lines`).
pub open spec fn line_end(s: Seq<char>, i: int) -> int {
    let j = next_newline(s, i);
    if j < s.len() && j > i && s[j - 1] == '\r' {
        j - 1
    } else {
        j
    }
}

/// The first index in `i..e` that is not a space (`e` if none).
pub open spec fn first_non_space(s: Seq<char>, i: int, e: int) -> int
    decreases e - i,
{
    if i < e && s[i] == ' ' {
        first_non_space(s, i + 1, e)
    } else {
        i
    }
}

/// Every line from `i` on with its leading spaces doubled, each ended by a
/// line feed.
pub open spec fn reindented_from(s: Seq<char>, i: int) -> Seq<char>
    decreases s.len() + 1 - i,
{
    if i < 0 || i >= s.len() {
        Seq::<char>::empty()
    } else {
        let j = next_newline(s, i);
        let e = line_end(s, i);
        let a = first_non_space(s, i, e);
        proof {
            lemma_next_newline(s, i);
        }
        spaces((2 * (a - i)) as nat) + s.subrange(a, e) + "\n"@ + reindented_from(s, j + 1)
    }
}

/// Two-space-indented JSON re-indented with four spaces, without the final
/// line feed.
pub open spec fn reindent_spec(s: Seq<char>) -> Seq<char> {
    let body = reindented_from(s, 0);
    if body.len() > 0 {
        body.drop_last()
    } else {
        body
    }
}

pub proof fn lemma_next_newline(s: Seq<char>, i: int)
    requires
        0 <= i <= s.len(),
    ensures
        i <= next_newline(s, i) <= s.len(),
        next_newline(s, i) < s.len() ==> s[next_newline(s, i)] == '\n',
        forall|k: int| i <= k < next_newline(s, i) ==> s[k] != '\n',
    decreases s.len() - i,
{
    if i < s.len() && s[i] != '\n' {
        lemma_next_newline(s, i + 1);
    }
}

proof fn lemma_first_non_space(s: Seq<char>, i: int, e: int)
    requires
        0 <= i <= e <= s.len(),
    ensures
        i <= first_non_space(s, i, e) <= e,
        first_non_space(s, i, e) < e ==> s[first_non_space(s, i, e)] != ' ',
        forall|k: int| i <= k < first_non_space(s, i, e) ==> s[k] == ' ',
    decreases e - i,
{
    if i < e && s[i] == ' ' {
        lemma_first_non_space(s, i + 1, e);
    }
}

/// Re-indents two-space pretty JSON with four spaces per level.
pub fn reindent_json(s: &str) -> (r: String)
    requires
        2 * s@.len() <= usize::MAX,
    ensures
        r@ == reindent_spec(s@),
{
    let v = chars_of(s);
    let n = v.len();
    let mut out: Vec<char> = Vec::new();
    let mut i: usize = 0;
    while i < n
        invariant
            n == v.len(),
            v@ == s@,
            2 * n <= usize::MAX,
            i <= n,
            reindented_from(s@, 0) == out@ + reindented_from(s@, i as int),
        decreases n - i,
    {
        let ghost before = out@;
        let mut j: usize = i;
        while j < n && v[j] != '\n'
            invariant
                i <= j <= n,
                n == v.len(),
                next_newline(v@, i as int) == next_newline(v@, j as int),
            decreases n - j,
        {
            j = j + 1;
        }
        let e: usize = if j < n && j > i && v[j - 1] == '\r' {
            j - 1
        } else {
            j
        };
        let mut a: usize = i;
        while a < e && v[a] == ' '
            invariant
                i <= a <= e <= n,
                n == v.len(),
                first_non_space(v@, i as int, e as int) == first_non_space(v@, a as int, e as int),
            decreases e - a,
        {
            a = a + 1;
        }
        crate::text::push_spaces(&mut out, 2 * (a - i));
        let mut k: usize = a;
        let ghost mid = out@;
        while k < e
            invariant
                a <= k <= e <= n,
                n == v.len(),
                out@ == mid + v@.subrange(a as int, k as int),
            decreases e - k,
        {
            out.push(v[k]);
            k = k + 1;
            assert(v@.subrange(a as int, k as int) =~= v@.subrange(a as int, k - 1).push(v@[k - 1]));
        }
        out.push('\n');
        proof {
            reveal_strlit("\n");
        }
        assert(next_newline(v@, i as int) == j);
        assert(line_end(v@, i as int) == e);
        assert(first_non_space(v@, i as int, e as int) == a);
        assert(reindented_from(s@, i as int) == spaces((2 * (a - i)) as nat) + v@.subrange(
            a as int,
            e as int,
        ) + "\n"@ + reindented_from(s@, j + 1));
        assert(out@ =~= before + (spaces((2 * (a - i)) as nat) + v@.subrange(a as int, e as int)
            + "\n"@));
        if j + 1 > n {
            assert(reindented_from(s@, j + 1) == Seq::<char>::empty());
            assert(reindented_from(s@, 0) =~= out@);
            i = n;
        } else {
            assert(reindented_from(s@, 0) =~= out@ + reindented_from(s@, j + 1));
            i = j + 1;
        }
    }
    assert(reindented_from(s@, 0) =~= out@);
    if out.len() > 0 {
        out.pop();
    }
    crate::text::string_of(&out)
}

/// The text of `format`'s report. The JSON-shaped formats take their
/// document already serialized as two-space pretty JSON in `document`; the
/// XML report is stamped with `timestamp`.
pub open spec fn render_spec(
    format: crate::report::ReportFormat,
    r: &Report,
    color: bool,
    timestamp: Seq<char>,
    document: Seq<char>,
) -> Seq<char> {
    match format {
        crate::report::ReportFormat::Text => crate::report::text_report(r, color),
        crate::report::ReportFormat::Ansi => crate::report::text_report(r, true),
        crate::report::ReportFormat::Xml => xml_report(r, timestamp),
        crate::report::ReportFormat::Html => html_report(r),
        crate::report::ReportFormat::Github => github_report(r),
        crate::report::ReportFormat::Checkstyle => checkstyle_report(r),
        crate::report::ReportFormat::Json => reindent_spec(document) + "\n"@,
        crate::report::ReportFormat::Gitlab => reindent_spec(document) + "\n"@,
        crate::report::ReportFormat::Sarif => document + "\n"@,
    }
}

/// Whether the texts of a report are short enough to render: every
/// finding's location and rule label, and the prepared document.
pub open spec fn render_fits_spec(report: &Report, document: Seq<char>) -> bool {
    &&& forall|i: int|
        0 <= i < report.violations@.len() ==> 4 * crate::report::location(#[trigger] report.violations@[i]).len() + 2
            <= usize::MAX && 4 * crate::report::rule_label(report.violations@[i]).len() + 2 <= usize::MAX
    &&& 2 * document.len() <= usize::MAX
}

/// Whether `report` and `document` are short enough to render.
pub fn render_fits(report: &Report, document: &str) -> (b: bool)
    ensures
        b == render_fits_spec(report, document@),
{
    let vs = &report.violations;
    let mut i: usize = 0;
    while i < vs.len()
        invariant
            i <= vs.len(),
            vs == &report.violations,
            forall|k: int|
                0 <= k < i ==> 4 * crate::report::location(#[trigger] vs@[k]).len() + 2 <= usize::MAX && 4
                    * crate::report::rule_label(vs@[k]).len() + 2 <= usize::MAX,
        decreases vs.len() - i,
    {
        let l = crate::report::location_of(&vs[i]).len();
        let r = crate::report::rule_label_of(&vs[i]).len();
        if l > (usize::MAX - 2) / 4 || r > (usize::MAX - 2) / 4 {
            return false;
        }
        i = i + 1;
    }
    crate::text::chars_of(document).len() <= usize::MAX / 2
}

/// Renders `report` in `format`.
pub fn render(
    format: crate::report::ReportFormat,
    report: &Report,
    color: bool,
    timestamp: &str,
    document: &str,
) -> (r: String)
    requires
        forall|i: int|
            0 <= i < report.violations@.len() ==> 4 * crate::report::location(
                #[trigger] report.violations@[i],
            ).len() + 2 <= usize::MAX && 4 * crate::report::rule_label(report.violations@[i]).len()
                + 2 <= usize::MAX,
        2 * document@.len() <= usize::MAX,
    ensures
        r@ == render_spec(format, report, color, timestamp@, document@),
{
    match format {
        crate::report::ReportFormat::Text => crate::report::write_text(report, color),
        crate::report::ReportFormat::Ansi => crate::report::write_text(report, true),
        crate::report::ReportFormat::Xml => write_xml(report, timestamp),
        crate::report::ReportFormat::Html => write_html(report),
        crate::report::ReportFormat::Github => write_github(report),
        crate::report::ReportFormat::Checkstyle => write_checkstyle(report),
        crate::report::ReportFormat::Json | crate::report::ReportFormat::Gitlab => {
            let body = reindent_json(document);
            let mut out = chars_of_string(&body);
            out.push('\n');
            proof {
                reveal_strlit("\n");
            }
            crate::text::string_of(&out)
        },
        crate::report::ReportFormat::Sarif => {
            let mut out = chars_of(document);
            out.push('\n');
            proof {
                reveal_strlit("\n");
            }
            crate::text::string_of(&out)
        },
    }
}


// ----- first-seen groups -------------------------------------------------------

/// The different texts of `keys`, in the order each first occurs.
pub open spec fn first_seen(keys: Seq<Seq<char>>) -> Seq<Seq<char>>
    decreases keys.len(),
{
    if keys.len() == 0 {
        Seq::empty()
    } else {
        let before = first_seen(keys.drop_last());
        if before.contains(keys.last()) {
            before
        } else {
            before.push(keys.last())
        }
    }
}

/// The positions in `keys` that hold `key`, rising.
pub open spec fn positions(keys: Seq<Seq<char>>, key: Seq<char>) -> Seq<usize>
    decreases keys.len(),
{
    if keys.len() == 0 {
        Seq::empty()
    } else {
        let before = positions(keys.drop_last(), key);
        if keys.last() == key {
            before.push((keys.len() - 1) as usize)
        } else {
            before
        }
    }
}

proof fn lemma_first_seen_contains(s: Seq<Seq<char>>, x: Seq<char>)
    ensures
        first_seen(s).contains(x) == s.contains(x),
    decreases s.len(),
{
    if s.len() > 0 {
        let init = s.drop_last();
        lemma_first_seen_contains(init, x);
        let before = first_seen(init);
        assert(s.contains(x) == (init.contains(x) || s.last() == x)) by {
            if s.contains(x) {
                let k = choose|k: int| 0 <= k < s.len() && s[k] == x;
                if k < s.len() - 1 {
                    assert(init[k] == x);
                }
            }
            if init.contains(x) {
                let k = choose|k: int| 0 <= k < init.len() && init[k] == x;
                assert(s[k] == x);
            }
            if s.last() == x {
                assert(s[s.len() - 1] == x);
            }
        }
        if !before.contains(s.last()) {
            let p = before.push(s.last());
            assert(p.contains(x) == (before.contains(x) || s.last() == x)) by {
                if p.contains(x) {
                    let k = choose|k: int| 0 <= k < p.len() && p[k] == x;
                    if k < before.len() {
                        assert(before[k] == x);
                    }
                }
                if before.contains(x) {
                    let k = choose|k: int| 0 <= k < before.len() && before[k] == x;
                    assert(p[k] == x);
                }
                if s.last() == x {
                    assert(p[before.len() as int] == x);
                }
            }
        }
    }
}

proof fn lemma_positions_absent(s: Seq<Seq<char>>, x: Seq<char>)
    requires
        !s.contains(x),
    ensures
        positions(s, x) == Seq::<usize>::empty(),
    decreases s.len(),
{
    if s.len() > 0 {
        if s.drop_last().contains(x) {
            let k = choose|k: int| 0 <= k < s.drop_last().len() && s.drop_last()[k] == x;
            assert(s[k] == x);
        }
        assert(s[s.len() - 1] == s.last());
        lemma_positions_absent(s.drop_last(), x);
    }
}

/// The different texts of `keys` in first-seen order, each with the
/// positions that hold it: how the JSON report groups findings by file and
/// the SARIF report lists each rule once.
pub fn group_positions(keys: &Vec<String>) -> (r: (Vec<String>, Vec<Vec<usize>>))
    ensures
        texts(r.0@) == first_seen(texts(keys@)),
        r.1@.len() == r.0@.len(),
        forall|k: int| 0 <= k < r.1@.len() ==> (#[trigger] r.1@[k])@ == positions(texts(keys@), r.0@[k]@),
{
    let ghost all = texts(keys@);
    let mut names: Vec<String> = Vec::new();
    let mut lists: Vec<Vec<usize>> = Vec::new();
    let mut i: usize = 0;
    assert(all.take(0) =~= Seq::<Seq<char>>::empty());
    assert(texts(names@) =~= Seq::<Seq<char>>::empty());
    while i < keys.len()
        invariant
            i <= keys.len(),
            all == texts(keys@),
            texts(names@) == first_seen(all.take(i as int)),
            lists@.len() == names@.len(),
            forall|a: int, b: int| 0 <= a < b < names@.len() ==> names@[a]@ != names@[b]@,
            forall|k: int| 0 <= k < lists@.len() ==> (#[trigger] lists@[k])@ == positions(all.take(i as int), names@[k]@),
        decreases keys.len() - i,
    {
        let ghost pre = all.take(i as int);
        let ghost next = all.take(i + 1);
        assert(next.drop_last() =~= pre);
        assert(next.last() == keys@[i as int]@);
        let key = crate::report::chars_of_string(&keys[i]);
        let mut j: usize = 0;
        while j < names.len()
            invariant
                j <= names.len(),
                key@ == keys@[i as int]@,
                forall|k: int| 0 <= k < j ==> names@[k]@ != key@,
            ensures
                j <= names.len(),
                forall|k: int| 0 <= k < j ==> names@[k]@ != key@,
                j < names.len() ==> names@[j as int]@ == key@,
            decreases names.len() - j,
        {
            if crate::text::chars_eq(&crate::report::chars_of_string(&names[j]), &key) {
                break;
            }
            j = j + 1;
        }
        let ghost old_lists = lists@;
        let ghost old_names = names@;
        if j < names.len() {
            assert(first_seen(pre).contains(key@)) by {
                assert(texts(names@)[j as int] == key@);
            }
            let mut l: Vec<usize> = Vec::new();
            std::mem::swap(&mut l, &mut lists[j]);
            l.push(i);
            lists.set(j, l);
        } else {
            assert(!first_seen(pre).contains(key@)) by {
                if first_seen(pre).contains(key@) {
                    let k = choose|k: int| 0 <= k < first_seen(pre).len() && first_seen(pre)[k] == key@;
                    assert(texts(names@)[k] == names@[k]@);
                }
            }
            proof {
                lemma_first_seen_contains(pre, key@);
                lemma_positions_absent(pre, key@);
            }
            names.push(keys[i].clone());
            let mut l: Vec<usize> = Vec::new();
            l.push(i);
            lists.push(l);
        }
        proof {
            assert(texts(names@) =~= first_seen(next));
            assert forall|k: int| 0 <= k < lists@.len() implies (#[trigger] lists@[k])@ == positions(next, names@[k]@) by {
                if k < old_lists.len() {
                    assert(names@[k] == old_names[k]);
                    if k != j {
                        assert(lists@[k] == old_lists[k]);
                        assert(names@[k]@ != key@);
                    } else {
                        assert(names@[k]@ == key@);
                    }
                } else {
                    assert(names@[k]@ == key@);
                }
            }
        }
        i = i + 1;
    }
    assert(all.take(i as int) =~= all);
    (names, lists)
}


// ----- what the documents say ------------------------------------------------------

/// Whether `piece` occurs in `doc`.
pub open spec fn occurs_in(piece: Seq<char>, doc: Seq<char>) -> bool {
    exists|a: Seq<char>, b: Seq<char>| #[trigger] (a + piece + b) == doc
}

proof fn lemma_occurs_within(piece: Seq<char>, doc: Seq<char>, before: Seq<char>, after: Seq<char>)
    requires
        occurs_in(piece, doc),
    ensures
        occurs_in(piece, before + doc + after),
{
    let (a, b) = choose|a: Seq<char>, b: Seq<char>| #[trigger] (a + piece + b) == doc;
    assert((before + a) + piece + (b + after) == before + doc + after);
}

proof fn lemma_occurs_grouped(l: Layout, vs: Seq<Violation>, n: int, i: int, piece: Seq<char>)
    requires
        0 <= i < n <= vs.len(),
        occurs_in(piece, layout_item(l, vs[i])),
    ensures
        occurs_in(piece, grouped(l, vs, n)),
    decreases n,
{
    if i < n - 1 {
        lemma_occurs_grouped(l, vs, n - 1, i, piece);
        lemma_occurs_within(piece, grouped(l, vs, n - 1), Seq::<char>::empty(), group_step(l, vs, n - 1));
        assert(Seq::<char>::empty() + grouped(l, vs, n - 1) + group_step(l, vs, n - 1) == grouped(l, vs, n));
    } else {
        let head = if opens_group(vs, i) {
            (if any_open(vs, i) {
                group_close(l)
            } else {
                Seq::<char>::empty()
            }) + group_open(l, vs[i].file@)
        } else {
            Seq::<char>::empty()
        };
        lemma_occurs_within(piece, layout_item(l, vs[i]), grouped(l, vs, i) + head, Seq::<char>::empty());
        assert((grouped(l, vs, i) + head) + layout_item(l, vs[i]) + Seq::<char>::empty() == grouped(l, vs, n));
    }
}

/// In the XML report, the element of every finding says whether the
/// finding was suppressed: its `suppressed` attribute is `true` exactly for
/// a suppressed finding, and the element goes on with the finding's
/// description.
#[verifier::spinoff_prover]
#[verifier::rlimit(40)]
pub proof fn law_xml_marks_suppressed_findings(r: &Report, timestamp: Seq<char>, i: int)
    requires
        0 <= i < r.violations@.len(),
    ensures
        occurs_in(
            " suppressed=\""@ + bool_text(r.violations@[i].suppressed) + "\""@ + ">\n"@ + "      "@
                + xml_escape(r.violations@[i].description@) + "\n"@ + "    </violation>\n"@,
            xml_report(r, timestamp),
        ),
{
    let v = r.violations@[i];
    let piece = " suppressed=\""@ + bool_text(v.suppressed) + "\""@ + ">\n"@ + "      "@ + xml_escape(
        v.description@,
    ) + "\n"@ + "    </violation>\n"@;
    let front = xml_item_head(v) + xml_item_attrs(v) + " priority=\""@ + decimal(v.priority as nat) + "\""@;
    assert(front + piece + Seq::<char>::empty() =~= xml_item(v));
    lemma_occurs_grouped(Layout::Xml, r.violations@, r.violations@.len() as int, i, piece);
    let vs = r.violations@;
    let top = "<?xml version=\"1.0\" encoding=\"UTF-8\" ?>\n"@ + "<pmd version=\""@ + tool_version()
        + "\" tool=\"messrust\" timestamp=\""@ + xml_escape(timestamp) + "\">\n"@;
    let close = if any_open(vs, vs.len() as int) {
        group_close(Layout::Xml)
    } else {
        Seq::<char>::empty()
    };
    let bottom = close + xml_error_lines(r.errors@, r.errors@.len() as int) + "</pmd>\n"@;
    lemma_occurs_within(piece, grouped(Layout::Xml, vs, vs.len() as int), top, bottom);
    assert(top + grouped(Layout::Xml, vs, vs.len() as int) + bottom == xml_report(r, timestamp));
}

} // verus!
