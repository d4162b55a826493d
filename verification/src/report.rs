//! Report model and the family report renderers.
//!
//! Renderers build the whole document as text; the JSON-shaped formats
//! (`json`, `gitlab`, `sarif`) take the serialized document body and frame
//! it.

use vstd::prelude::*;
use crate::text::{
    chars_of, decimal, decimal_of, push_all, push_spaces, push_str, spaces, string_of,
};

verus! {

broadcast use vstd::seq_lib::group_seq_properties;

/// Process exit codes (PHPMD family).
pub const EXIT_SUCCESS: i32 = 0;

pub const EXIT_ERROR: i32 = 1;

pub const EXIT_VIOLATION: i32 = 2;

#[derive(Debug, Clone)]
pub struct Violation {
    pub file: String,
    pub begin_line: usize,
    pub end_line: usize,
    pub rule_name: String,
    pub ruleset_name: String,
    pub description: String,
    pub priority: u8,
    pub package: String,
    pub function: String,
    pub class: String,
    pub method: String,
    pub external_info_url: String,
    pub suppressed: bool,
}

/// A finding as values: what a [`Violation`] says.
pub struct FindingView {
    pub file: Seq<char>,
    pub begin_line: usize,
    pub end_line: usize,
    pub rule_name: Seq<char>,
    pub ruleset_name: Seq<char>,
    pub description: Seq<char>,
    pub priority: u8,
    pub package: Seq<char>,
    pub function: Seq<char>,
    pub class: Seq<char>,
    pub method: Seq<char>,
    pub external_info_url: Seq<char>,
    pub suppressed: bool,
}

impl View for Violation {
    type V = FindingView;

    open spec fn view(&self) -> FindingView {
        FindingView {
            file: self.file@,
            begin_line: self.begin_line,
            end_line: self.end_line,
            rule_name: self.rule_name@,
            ruleset_name: self.ruleset_name@,
            description: self.description@,
            priority: self.priority,
            package: self.package@,
            function: self.function@,
            class: self.class@,
            method: self.method@,
            external_info_url: self.external_info_url@,
            suppressed: self.suppressed,
        }
    }
}

/// The findings of `vs`, as values.
pub open spec fn views(vs: Seq<Violation>) -> Seq<FindingView> {
    vs.map_values(|v: Violation| v@)
}

pub proof fn lemma_views_push(vs: Seq<Violation>, v: Violation)
    ensures
        views(vs.push(v)) == views(vs).push(v@),
{
    assert(views(vs.push(v)) =~= views(vs).push(v@));
}

#[derive(Debug, Clone)]
pub struct ProcessingError {
    pub file: String,
    pub message: String,
}

#[derive(Debug)]
pub struct Report {
    pub violations: Vec<Violation>,
    pub errors: Vec<ProcessingError>,
}

impl Report {
    pub fn new() -> (r: Report)
        ensures
            r.violations@.len() == 0,
            r.errors@.len() == 0,
    {
        Report { violations: Vec::new(), errors: Vec::new() }
    }
}

/// The exit code of a run that produced `report`: errors first, then
/// findings, each unless ignored.
pub open spec fn exit_code_spec(report: &Report, ignore_errors: bool, ignore_violations: bool) -> i32 {
    if report.errors@.len() > 0 && !ignore_errors {
        EXIT_ERROR
    } else if report.violations@.len() > 0 && !ignore_violations {
        EXIT_VIOLATION
    } else {
        EXIT_SUCCESS
    }
}

pub fn exit_code_for(report: &Report, ignore_errors: bool, ignore_violations: bool) -> (code: i32)
    ensures
        code == exit_code_spec(report, ignore_errors, ignore_violations),
{
    if report.errors.len() > 0 && !ignore_errors {
        return EXIT_ERROR;
    }
    if report.violations.len() > 0 && !ignore_violations {
        return EXIT_VIOLATION;
    }
    EXIT_SUCCESS
}

// ----- formats -------------------------------------------------------------

#[derive(Clone, Copy, Debug, PartialEq, Eq, Structural)]
pub enum ReportFormat {
    Text,
    Ansi,
    Json,
    Xml,
    Html,
    Github,
    Gitlab,
    Checkstyle,
    Sarif,
}

pub open spec fn format_name(f: ReportFormat) -> Seq<char> {
    match f {
        ReportFormat::Text => "text"@,
        ReportFormat::Ansi => "ansi"@,
        ReportFormat::Json => "json"@,
        ReportFormat::Xml => "xml"@,
        ReportFormat::Html => "html"@,
        ReportFormat::Github => "github"@,
        ReportFormat::Gitlab => "gitlab"@,
        ReportFormat::Checkstyle => "checkstyle"@,
        ReportFormat::Sarif => "sarif"@,
    }
}

/// Every format, in the order the usage text lists them.
pub open spec fn all_formats() -> Seq<ReportFormat> {
    seq![
        ReportFormat::Text,
        ReportFormat::Xml,
        ReportFormat::Json,
        ReportFormat::Html,
        ReportFormat::Ansi,
        ReportFormat::Github,
        ReportFormat::Gitlab,
        ReportFormat::Checkstyle,
        ReportFormat::Sarif,
    ]
}

/// The first format of `fs` named `name`.
pub open spec fn find_format(fs: Seq<ReportFormat>, name: Seq<char>) -> Option<ReportFormat>
    decreases fs.len(),
{
    if fs.len() == 0 {
        None
    } else if format_name(fs[0]) == name {
        Some(fs[0])
    } else {
        find_format(fs.drop_first(), name)
    }
}

pub open spec fn uses_color_spec(f: ReportFormat, color: bool) -> bool {
    match f {
        ReportFormat::Ansi => true,
        ReportFormat::Text => color,
        _ => false,
    }
}

impl ReportFormat {
    pub fn name(&self) -> (r: &'static str)
        ensures
            r@ == format_name(*self),
    {
        match self {
            ReportFormat::Text => "text",
            ReportFormat::Ansi => "ansi",
            ReportFormat::Json => "json",
            ReportFormat::Xml => "xml",
            ReportFormat::Html => "html",
            ReportFormat::Github => "github",
            ReportFormat::Gitlab => "gitlab",
            ReportFormat::Checkstyle => "checkstyle",
            ReportFormat::Sarif => "sarif",
        }
    }

    pub fn all() -> (v: Vec<ReportFormat>)
        ensures
            v@ == all_formats(),
    {
        let v = vec![
            ReportFormat::Text,
            ReportFormat::Xml,
            ReportFormat::Json,
            ReportFormat::Html,
            ReportFormat::Ansi,
            ReportFormat::Github,
            ReportFormat::Gitlab,
            ReportFormat::Checkstyle,
            ReportFormat::Sarif,
        ];
        assert(v@ =~= all_formats());
        v
    }

    /// The format named `name`, if any.
    pub fn parse(name: &str) -> (r: Option<ReportFormat>)
        ensures
            r == find_format(all_formats(), name@),
    {
        let all = Self::all();
        let wanted = chars_of(name);
        let mut i: usize = 0;
        while i < all.len()
            invariant
                i <= all.len(),
                all@ == all_formats(),
                wanted@ == name@,
                find_format(all_formats(), name@) == find_format(all@.skip(i as int), name@),
            decreases all.len() - i,
        {
            let candidate = chars_of(all[i].name());
            assert(all@.skip(i as int)[0] == all@[i as int]);
            assert(all@.skip(i as int).drop_first() =~= all@.skip(i + 1));
            if crate::text::chars_eq(&candidate, &wanted) {
                return Some(all[i]);
            }
            i = i + 1;
        }
        None
    }

    pub fn uses_color(&self, color: bool) -> (b: bool)
        ensures
            b == uses_color_spec(*self, color),
    {
        match self {
            ReportFormat::Ansi => true,
            ReportFormat::Text => color,
            _ => false,
        }
    }
}

/// The names of every format, in the order of [`ReportFormat::all`].
pub fn formats() -> (v: Vec<String>)
    ensures
        v@.len() == all_formats().len(),
        forall|i: int| 0 <= i < v@.len() ==> #[trigger] v@[i]@ == format_name(all_formats()[i]),
{
    let all = ReportFormat::all();
    let mut out: Vec<String> = Vec::new();
    let mut i: usize = 0;
    while i < all.len()
        invariant
            i <= all.len(),
            all@ == all_formats(),
            out@.len() == i,
            forall|k: int| 0 <= k < i ==> #[trigger] out@[k]@ == format_name(all_formats()[k]),
        decreases all.len() - i,
    {
        let name = chars_of(all[i].name());
        out.push(string_of(&name));
        i = i + 1;
    }
    out
}

pub fn is_known_format(name: &str) -> (b: bool)
    ensures
        b == (find_format(all_formats(), name@) is Some),
{
    ReportFormat::parse(name).is_some()
}

proof fn lemma_name_letters(f: ReportFormat)
    ensures
        format_name(f).len() >= 3,
        format_name(f)[0] == (match f {
            ReportFormat::Text => 't',
            ReportFormat::Xml => 'x',
            ReportFormat::Json => 'j',
            ReportFormat::Html => 'h',
            ReportFormat::Ansi => 'a',
            ReportFormat::Github => 'g',
            ReportFormat::Gitlab => 'g',
            ReportFormat::Checkstyle => 'c',
            ReportFormat::Sarif => 's',
        }),
        f == ReportFormat::Github ==> format_name(f)[3] == 'h',
        f == ReportFormat::Gitlab ==> format_name(f)[3] == 'l',
{
    reveal_strlit("text");
    reveal_strlit("ansi");
    reveal_strlit("json");
    reveal_strlit("xml");
    reveal_strlit("html");
    reveal_strlit("github");
    reveal_strlit("gitlab");
    reveal_strlit("checkstyle");
    reveal_strlit("sarif");
}

/// Every format is found again from its own name.
pub proof fn law_format_names_round_trip(f: ReportFormat)
    ensures
        find_format(all_formats(), format_name(f)) == Some(f),
{
    let n = format_name(f);
    assert forall|g: ReportFormat| g != f implies format_name(g) != n by {
        lemma_name_letters(f);
        lemma_name_letters(g);
        if format_name(g) == n {
            assert(format_name(g)[0] == n[0]);
            if f == ReportFormat::Github || f == ReportFormat::Gitlab {
                assert(format_name(g)[3] == n[3]);
            }
        }
    }
    let fs = all_formats();
    let k: int = match f {
        ReportFormat::Text => 0,
        ReportFormat::Xml => 1,
        ReportFormat::Json => 2,
        ReportFormat::Html => 3,
        ReportFormat::Ansi => 4,
        ReportFormat::Github => 5,
        ReportFormat::Gitlab => 6,
        ReportFormat::Checkstyle => 7,
        ReportFormat::Sarif => 8,
    };
    assert(fs[k] == f);
    assert forall|i: int| 0 <= i < k implies format_name(#[trigger] fs[i]) != n by {
        assert(fs[i] != f);
    }
    lemma_find_at(fs, n, k);
}

/// `find_format` returns the element at `k` when it is the first with that name.
proof fn lemma_find_at(fs: Seq<ReportFormat>, n: Seq<char>, k: int)
    requires
        0 <= k < fs.len(),
        format_name(fs[k]) == n,
        forall|i: int| 0 <= i < k ==> format_name(#[trigger] fs[i]) != n,
    ensures
        find_format(fs, n) == Some(fs[k]),
    decreases k,
{
    if k > 0 {
        let rest = fs.drop_first();
        assert forall|i: int| 0 <= i < k - 1 implies format_name(#[trigger] rest[i]) != n by {
            assert(rest[i] == fs[i + 1]);
        }
        lemma_find_at(rest, n, k - 1);
        assert(format_name(fs[0]) != n);
    }
}

// ----- escaping ------------------------------------------------------------

pub open spec fn xml_escape_char(c: char) -> Seq<char> {
    if c == '&' {
        "&amp;"@
    } else if c == '<' {
        "&lt;"@
    } else if c == '>' {
        "&gt;"@
    } else if c == '"' {
        "&quot;"@
    } else if c == '\'' {
        "&#039;"@
    } else {
        seq![c]
    }
}

/// `s` with `&`, `<`, `>`, `"` and `'` written as XML entities.
pub open spec fn xml_escape(s: Seq<char>) -> Seq<char> {
    s.flat_map(|c: char| xml_escape_char(c))
}

pub open spec fn github_data_char(c: char) -> Seq<char> {
    if c == '%' {
        "%25"@
    } else if c == '\r' {
        "%0D"@
    } else if c == '\n' {
        "%0A"@
    } else {
        seq![c]
    }
}

pub open spec fn github_property_char(c: char) -> Seq<char> {
    if c == ':' {
        "%3A"@
    } else if c == ',' {
        "%2C"@
    } else {
        github_data_char(c)
    }
}

/// A GitHub workflow command message: `%`, CR and LF percent-encoded.
pub open spec fn github_escape_data(s: Seq<char>) -> Seq<char> {
    s.flat_map(|c: char| github_data_char(c))
}

/// A GitHub workflow command property: also `:` and `,` percent-encoded.
pub open spec fn github_escape_property(s: Seq<char>) -> Seq<char> {
    s.flat_map(|c: char| github_property_char(c))
}

#[derive(Clone, Copy, PartialEq, Eq, Structural)]
pub enum Escape {
    Xml,
    GithubData,
    GithubProperty,
}

pub open spec fn escape_spec(kind: Escape, s: Seq<char>) -> Seq<char> {
    match kind {
        Escape::Xml => xml_escape(s),
        Escape::GithubData => github_escape_data(s),
        Escape::GithubProperty => github_escape_property(s),
    }
}

pub open spec fn escape_char_spec(kind: Escape, c: char) -> Seq<char> {
    match kind {
        Escape::Xml => xml_escape_char(c),
        Escape::GithubData => github_data_char(c),
        Escape::GithubProperty => github_property_char(c),
    }
}

proof fn lemma_escape_push(kind: Escape, s: Seq<char>, c: char)
    ensures
        escape_spec(kind, s.push(c)) == escape_spec(kind, s) + escape_char_spec(kind, c),
{
    match kind {
        Escape::Xml => {
            s.lemma_flat_map_push(|c: char| xml_escape_char(c), c);
        },
        Escape::GithubData => {
            s.lemma_flat_map_push(|c: char| github_data_char(c), c);
        },
        Escape::GithubProperty => {
            s.lemma_flat_map_push(|c: char| github_property_char(c), c);
        },
    }
}

fn push_escaped_char(out: &mut Vec<char>, kind: Escape, c: char)
    ensures
        final(out)@ == old(out)@ + escape_char_spec(kind, c),
{
    match kind {
        Escape::Xml => {
            if c == '&' {
                push_str(out, "&amp;");
            } else if c == '<' {
                push_str(out, "&lt;");
            } else if c == '>' {
                push_str(out, "&gt;");
            } else if c == '"' {
                push_str(out, "&quot;");
            } else if c == '\'' {
                push_str(out, "&#039;");
            } else {
                out.push(c);
            }
        },
        _ => {
            if kind == Escape::GithubProperty && c == ':' {
                push_str(out, "%3A");
            } else if kind == Escape::GithubProperty && c == ',' {
                push_str(out, "%2C");
            } else if c == '%' {
                push_str(out, "%25");
            } else if c == '\r' {
                push_str(out, "%0D");
            } else if c == '\n' {
                push_str(out, "%0A");
            } else {
                out.push(c);
            }
        },
    }
}

/// Appends `v` escaped as `kind` to `out`.
pub fn push_escaped_chars(out: &mut Vec<char>, kind: Escape, v: &Vec<char>)
    ensures
        final(out)@ == old(out)@ + escape_spec(kind, v@),
{
    let ghost start = old(out)@;
    let mut i: usize = 0;
    assert(v@.take(0) =~= Seq::<char>::empty());
    assert(escape_spec(kind, Seq::<char>::empty()) =~= Seq::<char>::empty()) by {
        match kind {
            Escape::Xml => {},
            Escape::GithubData => {},
            Escape::GithubProperty => {},
        }
    }
    while i < v.len()
        invariant
            i <= v.len(),
            out@ == start + escape_spec(kind, v@.take(i as int)),
        decreases v.len() - i,
    {
        proof {
            lemma_escape_push(kind, v@.take(i as int), v@[i as int]);
            assert(v@.take(i as int).push(v@[i as int]) =~= v@.take(i + 1));
        }
        push_escaped_char(out, kind, v[i]);
        i = i + 1;
    }
    assert(v@.take(v.len() as int) =~= v@);
}

/// Appends `s` escaped as `kind` to `out`.
pub fn push_escaped(out: &mut Vec<char>, kind: Escape, s: &str)
    ensures
        final(out)@ == old(out)@ + escape_spec(kind, s@),
{
    let v = chars_of(s);
    push_escaped_chars(out, kind, &v);
}

/// `s` escaped as `kind`.
pub fn escaped(kind: Escape, s: &str) -> (r: String)
    ensures
        r@ == escape_spec(kind, s@),
{
    let mut out: Vec<char> = Vec::new();
    push_escaped(&mut out, kind, s);
    assert(Seq::<char>::empty() + escape_spec(kind, s@) =~= escape_spec(kind, s@));
    string_of(&out)
}

// ----- shared pieces -------------------------------------------------------

pub open spec fn tool_version() -> Seq<char> {
    "0.1.0"@
}

pub fn version() -> (r: &'static str)
    ensures
        r@ == tool_version(),
{
    "0.1.0"
}

pub open spec fn bool_text(b: bool) -> Seq<char> {
    if b {
        "true"@
    } else {
        "false"@
    }
}

pub fn push_bool(out: &mut Vec<char>, b: bool)
    ensures
        final(out)@ == old(out)@ + bool_text(b),
{
    if b {
        push_str(out, "true");
    } else {
        push_str(out, "false");
    }
}

pub fn push_decimal(out: &mut Vec<char>, n: usize)
    ensures
        final(out)@ == old(out)@ + decimal(n as nat),
{
    let d = decimal_of(n);
    push_all(out, &d);
}

/// `char::len_utf8`.
pub open spec fn utf8_len(c: char) -> nat {
    if (c as u32) < 0x80 {
        1
    } else if (c as u32) < 0x800 {
        2
    } else if (c as u32) < 0x10000 {
        3
    } else {
        4
    }
}

/// The length of `s` in UTF-8 bytes (`str::len`).
pub open spec fn byte_len(s: Seq<char>) -> nat
    decreases s.len(),
{
    if s.len() == 0 {
        0
    } else {
        byte_len(s.drop_last()) + utf8_len(s.last())
    }
}

proof fn lemma_byte_len_bound(s: Seq<char>)
    ensures
        byte_len(s) <= 4 * s.len(),
    decreases s.len(),
{
    if s.len() > 0 {
        lemma_byte_len_bound(s.drop_last());
    }
}

fn byte_len_of(v: &Vec<char>) -> (n: usize)
    requires
        4 * v.len() <= usize::MAX,
    ensures
        n == byte_len(v@),
{
    let mut n: usize = 0;
    let mut i: usize = 0;
    while i < v.len()
        invariant
            i <= v.len(),
            4 * v.len() <= usize::MAX,
            n == byte_len(v@.take(i as int)),
            n <= 4 * i,
        decreases v.len() - i,
    {
        let c = v[i];
        let w: usize = if (c as u32) < 0x80 {
            1
        } else if (c as u32) < 0x800 {
            2
        } else if (c as u32) < 0x10000 {
            3
        } else {
            4
        };
        assert(v@.take(i + 1).drop_last() =~= v@.take(i as int));
        n = n + w;
        i = i + 1;
    }
    assert(v@.take(v.len() as int) =~= v@);
    n
}

// ----- text ------------------------------------------------------------------

pub open spec fn location(v: Violation) -> Seq<char> {
    v.file@ + ":"@ + decimal(v.begin_line as nat)
}

pub open spec fn rule_label(v: Violation) -> Seq<char> {
    if v.suppressed {
        v.rule_name@ + " [suppressed]"@
    } else {
        v.rule_name@
    }
}

pub open spec fn colorize(s: Seq<char>, code: Seq<char>, colored: bool) -> Seq<char> {
    if colored {
        "\x1b["@ + code + "m"@ + s + "\x1b[0m"@
    } else {
        s
    }
}

pub open spec fn max_nat(a: nat, b: nat) -> nat {
    if a >= b {
        a
    } else {
        b
    }
}

/// The widest location among the first `n` findings, in bytes.
pub open spec fn location_width(vs: Seq<Violation>, n: int) -> nat
    decreases n,
{
    if n <= 0 {
        0
    } else {
        max_nat(location_width(vs, n - 1), byte_len(location(vs[n - 1])))
    }
}

/// The widest rule label among the first `n` findings, in bytes.
pub open spec fn label_width(vs: Seq<Violation>, n: int) -> nat
    decreases n,
{
    if n <= 0 {
        0
    } else {
        max_nat(label_width(vs, n - 1), byte_len(rule_label(vs[n - 1])))
    }
}

pub open spec fn text_line(v: Violation, loc_w: nat, rule_w: nat, colored: bool) -> Seq<char> {
    location(v) + spaces((loc_w - byte_len(location(v)) + 2) as nat) + colorize(
        rule_label(v),
        "33"@,
        colored,
    ) + spaces((rule_w - byte_len(rule_label(v)) + 2) as nat) + colorize(
        v.description@,
        "31"@,
        colored,
    ) + "\n"@
}

pub open spec fn text_lines(vs: Seq<Violation>, n: int, loc_w: nat, rule_w: nat, colored: bool) -> Seq<
    char,
>
    decreases n,
{
    if n <= 0 {
        Seq::<char>::empty()
    } else {
        text_lines(vs, n - 1, loc_w, rule_w, colored) + text_line(vs[n - 1], loc_w, rule_w, colored)
    }
}

pub open spec fn text_error_lines(es: Seq<ProcessingError>, n: int) -> Seq<char>
    decreases n,
{
    if n <= 0 {
        Seq::<char>::empty()
    } else {
        text_error_lines(es, n - 1) + es[n - 1].file@ + "\t-\t"@ + es[n - 1].message@ + "\n"@
    }
}

/// The text report: one aligned line per finding, then one line per error.
pub open spec fn text_report(r: &Report, colored: bool) -> Seq<char> {
    let vs = r.violations@;
    text_lines(vs, vs.len() as int, location_width(vs, vs.len() as int), label_width(vs, vs.len() as int), colored)
        + text_error_lines(r.errors@, r.errors@.len() as int)
}

/// The characters of a `String`.
pub fn chars_of_string(s: &String) -> (v: Vec<char>)
    ensures
        v@ == s@,
{
    chars_of(s.as_str())
}

pub(crate) fn location_of(v: &Violation) -> (out: Vec<char>)
    ensures
        out@ == location(*v),
{
    let mut out = chars_of_string(&v.file);
    push_str(&mut out, ":");
    push_decimal(&mut out, v.begin_line);
    out
}

pub(crate) fn rule_label_of(v: &Violation) -> (out: Vec<char>)
    ensures
        out@ == rule_label(*v),
{
    let mut out = chars_of_string(&v.rule_name);
    if v.suppressed {
        push_str(&mut out, " [suppressed]");
    }
    out
}

fn push_colorized(out: &mut Vec<char>, s: &Vec<char>, code: &str, colored: bool)
    ensures
        final(out)@ == old(out)@ + colorize(s@, code@, colored),
{
    if colored {
        push_str(out, "\x1b[");
        push_str(out, code);
        push_str(out, "m");
        push_all(out, s);
        push_str(out, "\x1b[0m");
        assert(old(out)@ + "\x1b["@ + code@ + "m"@ + s@ + "\x1b[0m"@ =~= old(out)@ + ("\x1b["@
            + code@ + "m"@ + s@ + "\x1b[0m"@));
    } else {
        push_all(out, s);
    }
}

/// Renders the text report (`colored` wraps labels in ANSI colors).
#[verifier::spinoff_prover]
#[verifier::rlimit(40)]
pub fn write_text(report: &Report, colored: bool) -> (r: String)
    requires
        forall|i: int|
            0 <= i < report.violations@.len() ==> 4 * location(
                #[trigger] report.violations@[i],
            ).len() + 2 <= usize::MAX && 4 * rule_label(report.violations@[i]).len() + 2
                <= usize::MAX,
    ensures
        r@ == text_report(report, colored),
{
    let vs = &report.violations;
    let mut loc_w: usize = 0;
    let mut rule_w: usize = 0;
    let mut i: usize = 0;
    while i < vs.len()
        invariant
            i <= vs.len(),
            vs == &report.violations,
            forall|k: int|
                0 <= k < report.violations@.len() ==> 4 * location(
                    #[trigger] report.violations@[k],
                ).len() + 2 <= usize::MAX && 4 * rule_label(report.violations@[k]).len() + 2
                    <= usize::MAX,
            loc_w == location_width(vs@, i as int),
            rule_w == label_width(vs@, i as int),
            loc_w + 2 <= usize::MAX,
            rule_w + 2 <= usize::MAX,
        decreases vs.len() - i,
    {
        let loc = location_of(&vs[i]);
        let label = rule_label_of(&vs[i]);
        proof {
            lemma_byte_len_bound(loc@);
            lemma_byte_len_bound(label@);
        }
        let a = byte_len_of(&loc);
        let b = byte_len_of(&label);
        if a > loc_w {
            loc_w = a;
        }
        if b > rule_w {
            rule_w = b;
        }
        i = i + 1;
    }
    let mut out: Vec<char> = Vec::new();
    let mut i: usize = 0;
    proof {
        lemma_widths(vs@, vs@.len() as int);
    }
    while i < vs.len()
        invariant
            i <= vs.len(),
            vs == &report.violations,
            forall|k: int|
                0 <= k < report.violations@.len() ==> 4 * location(
                    #[trigger] report.violations@[k],
                ).len() + 2 <= usize::MAX && 4 * rule_label(report.violations@[k]).len() + 2
                    <= usize::MAX,
            loc_w == location_width(vs@, vs@.len() as int),
            rule_w == label_width(vs@, vs@.len() as int),
            loc_w + 2 <= usize::MAX,
            rule_w + 2 <= usize::MAX,
            forall|k: int|
                0 <= k < vs@.len() ==> byte_len(location(#[trigger] vs@[k])) <= loc_w
                    && byte_len(rule_label(vs@[k])) <= rule_w,
            out@ == text_lines(vs@, i as int, loc_w as nat, rule_w as nat, colored),
        decreases vs.len() - i,
    {
        let v = &vs[i];
        let loc = location_of(v);
        let label = rule_label_of(v);
        proof {
            lemma_byte_len_bound(loc@);
            lemma_byte_len_bound(label@);
        }
        let a = byte_len_of(&loc);
        let b = byte_len_of(&label);
        let ghost before = out@;
        push_all(&mut out, &loc);
        push_spaces(&mut out, loc_w - a + 2);
        push_colorized(&mut out, &label, "33", colored);
        push_spaces(&mut out, rule_w - b + 2);
        let desc = chars_of_string(&v.description);
        push_colorized(&mut out, &desc, "31", colored);
        push_str(&mut out, "\n");
        assert(out@ =~= before + text_line(*v, loc_w as nat, rule_w as nat, colored));
        i = i + 1;
    }
    let es = &report.errors;
    let mut j: usize = 0;
    let ghost lines_part = out@;
    assert(lines_part + text_error_lines(es@, 0) =~= lines_part);
    while j < es.len()
        invariant
            j <= es.len(),
            es == &report.errors,
            out@ == lines_part + text_error_lines(es@, j as int),
        decreases es.len() - j,
    {
        let e = &es[j];
        let ghost before = out@;
        let f = chars_of_string(&e.file);
        push_all(&mut out, &f);
        push_str(&mut out, "\t-\t");
        let m = chars_of_string(&e.message);
        push_all(&mut out, &m);
        push_str(&mut out, "\n");
        assert(out@ =~= lines_part + text_error_lines(es@, (j + 1) as int));
        j = j + 1;
    }
    string_of(&out)
}

proof fn lemma_widths(vs: Seq<Violation>, n: int)
    requires
        0 <= n <= vs.len(),
    ensures
        forall|k: int|
            0 <= k < n ==> byte_len(location(#[trigger] vs[k])) <= location_width(vs, n)
                && byte_len(rule_label(vs[k])) <= label_width(vs, n),
    decreases n,
{
    if n > 0 {
        lemma_widths(vs, n - 1);
    }
}

} // verus!
