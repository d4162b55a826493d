//! Shared helpers for rule handlers: properties, messages, naming checks and
//! the construction of findings.

use vstd::prelude::*;
use crate::text::{
    chars_of, decimal, decimal_of, is_ascii_digit, is_ascii_lower, is_ascii_upper, list_items,
    lower, lower_of, parse_unsigned, parse_unsigned_of, push_all, push_str, replace_all,
    replace_chars, split_list, string_of, texts,
};
use crate::report::{chars_of_string, FindingView, Violation};
use crate::ruleset::LoadedRule;
use crate::analyze::model::{FnModel, TypeModel};

verus! {

// ----- outside calls ---------------------------------------------------------

#[verifier::external_type_specification]
#[verifier::external_body]
pub struct ExRegex(regex::Regex);

/// Whether `regex::Regex::new` accepts `pattern`.
pub uninterp spec fn regex_compiles(pattern: Seq<char>) -> bool;

/// Whether the regex compiled from `pattern` matches somewhere in `haystack`.
pub uninterp spec fn regex_matches(pattern: Seq<char>, haystack: Seq<char>) -> bool;

/// Whether `c` has the Unicode `Uppercase` property.
pub uninterp spec fn unicode_uppercase(c: char) -> bool;

/// A compiled name pattern, with the regex source it was compiled from.
pub struct PhpmdPattern {
    source: String,
    regex: regex::Regex,
}

impl PhpmdPattern {
    /// The regex source the pattern was compiled from.
    pub closed spec fn source(&self) -> Seq<char> {
        self.source@
    }
}

/// `regex::Regex::new`: `Some` exactly when the pattern compiles; the
/// pattern keeps the source it was compiled from.
#[verifier::external_body]
pub(crate) fn compile_regex(pattern: String) -> (r: Option<PhpmdPattern>)
    ensures
        r is Some <==> regex_compiles(pattern@),
        r matches Some(p) ==> p.source() == pattern@,
{
    match regex::Regex::new(&pattern) {
        Ok(regex) => Some(PhpmdPattern { source: pattern, regex }),
        Err(_) => None,
    }
}

/// The first capture group of every match of the compiled `pattern` in
/// `haystack`, in order.
pub uninterp spec fn regex_first_groups(pattern: Seq<char>, haystack: Seq<char>) -> Seq<Seq<char>>;

/// `regex::Regex::captures_iter` on the compiled format-capture pattern,
/// each match taken by its first group, which that pattern's every match
/// has.
#[verifier::external_body]
pub(crate) fn first_groups(p: &PhpmdPattern, haystack: &str) -> (r: Vec<String>)
    requires
        p.source() == crate::analyze::uses::FORMAT_CAPTURE@,
    ensures
        texts(r@) == regex_first_groups(p.source(), haystack@),
{
    p.regex.captures_iter(haystack).map(|c| c[1].to_string()).collect()
}

/// `regex::Regex::is_match` on the compiled pattern.
#[verifier::external_body]
fn pattern_matches(p: &PhpmdPattern, haystack: &str) -> (b: bool)
    ensures
        b == regex_matches(p.source(), haystack@),
{
    p.regex.is_match(haystack)
}

/// `char::is_uppercase`: the Unicode `Uppercase` property, which among
/// ASCII characters exactly `A` to `Z` have.
#[verifier::external_body]
fn is_uppercase_char(c: char) -> (b: bool)
    ensures
        b == unicode_uppercase(c),
        (c as u32) < 128 ==> (b == is_ascii_upper(c)),
{
    c.is_uppercase()
}

// ----- findings ------------------------------------------------------------

/// A finding of `rule` in `file` at `line`, with the given owners.
pub open spec fn finding(
    rule: &LoadedRule,
    file: Seq<char>,
    line: usize,
    description: Seq<char>,
    function: Seq<char>,
    class: Seq<char>,
    method: Seq<char>,
) -> FindingView {
    FindingView {
        file: file,
        begin_line: line,
        end_line: line,
        rule_name: rule.name@,
        ruleset_name: rule.ruleset_name@,
        description: description,
        priority: rule.priority,
        package: Seq::<char>::empty(),
        function: function,
        class: class,
        method: method,
        external_info_url: Seq::<char>::empty(),
        suppressed: false,
    }
}

/// The finding for a function: a method names its type as class.
pub open spec fn func_finding(rule: &LoadedRule, file: Seq<char>, f: &FnModel, d: Seq<char>) -> FindingView {
    match f.parent {
        Some(class) => finding(rule, file, f.begin_line, d, Seq::<char>::empty(), class@, f.name@),
        None => finding(
            rule,
            file,
            f.begin_line,
            d,
            f.name@,
            Seq::<char>::empty(),
            Seq::<char>::empty(),
        ),
    }
}

pub open spec fn type_finding(rule: &LoadedRule, file: Seq<char>, t: &TypeModel, d: Seq<char>) -> FindingView {
    finding(rule, file, t.begin_line, d, Seq::<char>::empty(), t.name@, Seq::<char>::empty())
}

pub open spec fn name_finding(rule: &LoadedRule, file: Seq<char>, line: usize, d: Seq<char>) -> FindingView {
    finding(
        rule,
        file,
        line,
        d,
        Seq::<char>::empty(),
        Seq::<char>::empty(),
        Seq::<char>::empty(),
    )
}

fn violation(
    rule: &LoadedRule,
    file: &str,
    line: usize,
    description: String,
    function: String,
    class: String,
    method: String,
) -> (v: Violation)
    ensures
        v@ == finding(rule, file@, line, description@, function@, class@, method@),
{
    Violation {
        file: string_of(&chars_of(file)),
        begin_line: line,
        end_line: line,
        rule_name: rule.name.clone(),
        ruleset_name: rule.ruleset_name.clone(),
        description,
        priority: rule.priority,
        package: String::new(),
        function,
        class,
        method,
        external_info_url: String::new(),
        suppressed: false,
    }
}

/// The finding for a function or method.
pub fn func_violation(rule: &LoadedRule, file: &str, f: &FnModel, description: String) -> (v: Violation)
    ensures
        v@ == func_finding(rule, file@, f, description@),
{
    match &f.parent {
        Some(class) => violation(
            rule,
            file,
            f.begin_line,
            description,
            String::new(),
            class.clone(),
            f.name.clone(),
        ),
        None => violation(
            rule,
            file,
            f.begin_line,
            description,
            f.name.clone(),
            String::new(),
            String::new(),
        ),
    }
}

/// The finding for a type.
pub fn type_violation(rule: &LoadedRule, file: &str, t: &TypeModel, description: String) -> (v: Violation)
    ensures
        v@ == type_finding(rule, file@, t, description@),
{
    violation(rule, file, t.begin_line, description, String::new(), t.name.clone(), String::new())
}

/// The finding for a name at a line.
pub fn name_violation(rule: &LoadedRule, file: &str, begin_line: usize, description: String) -> (v: Violation)
    ensures
        v@ == name_finding(rule, file@, begin_line, description@),
{
    violation(rule, file, begin_line, description, String::new(), String::new(), String::new())
}

// ----- messages --------------------------------------------------------------

/// `{i}`.
pub open spec fn placeholder(i: nat) -> Seq<char> {
    "{"@ + decimal(i) + "}"@
}

/// `template` with `{0}`, `{1}`, ... replaced by the first `n` arguments,
/// in turn.
pub open spec fn format_message_n(template: Seq<char>, args: Seq<Seq<char>>, n: int) -> Seq<char>
    decreases n,
{
    if n <= 0 {
        template
    } else {
        replace_all(format_message_n(template, args, n - 1), placeholder((n - 1) as nat), args[n - 1])
    }
}

pub open spec fn format_message_spec(template: Seq<char>, args: Seq<Seq<char>>) -> Seq<char> {
    format_message_n(template, args, args.len() as int)
}

/// The texts of message arguments.
pub open spec fn arg_texts(args: Seq<Vec<char>>) -> Seq<Seq<char>> {
    args.map_values(|a: Vec<char>| a@)
}

/// Fills the `{i}` placeholders of a message template.
pub fn format_message(template: &str, args: &Vec<Vec<char>>) -> (r: String)
    ensures
        r@ == format_message_spec(template@, arg_texts(args@)),
{
    let ghost views = arg_texts(args@);
    let mut out = chars_of(template);
    let mut i: usize = 0;
    while i < args.len()
        invariant
            i <= args.len(),
            views == arg_texts(args@),
            out@ == format_message_n(template@, views, i as int),
        decreases args.len() - i,
    {
        let mut pat: Vec<char> = Vec::new();
        push_str(&mut pat, "{");
        let digits = decimal_of(i);
        push_all(&mut pat, &digits);
        push_str(&mut pat, "}");
        assert(pat@ =~= placeholder(i as nat));
        out = replace_chars(&out, &pat, &args[i]);
        i = i + 1;
    }
    string_of(&out)
}

/// A number as message text.
pub fn number_text(n: usize) -> (r: Vec<char>)
    ensures
        r@ == decimal(n as nat),
{
    decimal_of(n)
}

// ----- properties ------------------------------------------------------------

/// `property` parsed as a `usize`, or `default`.
pub open spec fn property_usize_spec(rule: &LoadedRule, key: Seq<char>, default: usize) -> usize {
    match rule.property(key) {
        Some(v) => match parse_unsigned(v, usize::MAX as nat) {
            Some(n) => n as usize,
            None => default,
        },
        None => default,
    }
}

pub fn property_usize(rule: &LoadedRule, key: &str, default: usize) -> (r: usize)
    ensures
        r == property_usize_spec(rule, key@, default),
{
    match rule.get_property(key) {
        Some(v) => match parse_unsigned_of(v.as_str(), usize::MAX as u64) {
            Some(n) => n as usize,
            None => default,
        },
        None => default,
    }
}

/// Whether a property value reads as true: `true`, `1` or `yes`, in any
/// ASCII case.
pub open spec fn truthy(v: Seq<char>) -> bool {
    lower(v) == "true"@ || lower(v) == "1"@ || lower(v) == "yes"@
}

pub open spec fn property_bool_spec(rule: &LoadedRule, key: Seq<char>, default: bool) -> bool {
    match rule.property(key) {
        Some(v) => truthy(v),
        None => default,
    }
}

fn lower_vec(v: &Vec<char>) -> (r: Vec<char>)
    ensures
        r@ == lower(v@),
{
    let mut out: Vec<char> = Vec::new();
    let mut i: usize = 0;
    while i < v.len()
        invariant
            i <= v.len(),
            out@ == lower(v@.take(i as int)),
        decreases v.len() - i,
    {
        out.push(lower_of(v[i]));
        i = i + 1;
        assert(lower(v@.take(i as int)) =~= lower(v@.take(i - 1)).push(crate::text::lower_char(v@[i - 1])));
    }
    assert(v@.take(v.len() as int) =~= v@);
    out
}

fn equals_str(v: &Vec<char>, s: &str) -> (b: bool)
    ensures
        b == (v@ == s@),
{
    let w = chars_of(s);
    crate::text::chars_eq(v, &w)
}

pub fn property_bool(rule: &LoadedRule, key: &str, default: bool) -> (r: bool)
    ensures
        r == property_bool_spec(rule, key@, default),
{
    match rule.get_property(key) {
        Some(v) => {
            let l = lower_vec(&chars_of_string(v));
            equals_str(&l, "true") || equals_str(&l, "1") || equals_str(&l, "yes")
        },
        None => default,
    }
}

pub open spec fn property_list_spec(rule: &LoadedRule, key: Seq<char>) -> Seq<Seq<char>> {
    match rule.property(key) {
        Some(v) => list_items(v),
        None => Seq::<Seq<char>>::empty(),
    }
}

/// A comma-separated property as its trimmed, non-empty items.
pub fn property_list(rule: &LoadedRule, key: &str) -> (r: Vec<String>)
    ensures
        texts(r@) == property_list_spec(rule, key@),
{
    match rule.get_property(key) {
        Some(v) => split_list(v.as_str()),
        None => {
            let r: Vec<String> = Vec::new();
            assert(texts(r@) =~= Seq::<Seq<char>>::empty());
            r
        },
    }
}

/// Whether `name` is one of `list`.
pub fn listed(list: &Vec<String>, name: &String) -> (b: bool)
    ensures
        b == texts(list@).contains(name@),
{
    let n = chars_of_string(name);
    let mut i: usize = 0;
    while i < list.len()
        invariant
            i <= list.len(),
            n@ == name@,
            forall|k: int| 0 <= k < i ==> list@[k]@ != name@,
        decreases list.len() - i,
    {
        let item = chars_of_string(&list[i]);
        if crate::text::chars_eq(&item, &n) {
            assert(texts(list@)[i as int] == name@);
            return true;
        }
        i = i + 1;
    }
    assert(!texts(list@).contains(name@)) by {
        if texts(list@).contains(name@) {
            let k = choose|k: int| 0 <= k < texts(list@).len() && texts(list@)[k] == name@;
            assert(list@[k]@ == name@);
        }
    }
    false
}

// ----- names -----------------------------------------------------------------

/// The length of the first of `ps` that `name` starts with (0 if none).
pub open spec fn prefix_cut(name: Seq<char>, ps: Seq<Seq<char>>, j: int) -> nat
    decreases ps.len() - j,
{
    if j < 0 || j >= ps.len() {
        0
    } else if ps[j].len() <= name.len() && name.take(ps[j].len() as int) == ps[j] {
        ps[j].len()
    } else {
        prefix_cut(name, ps, j + 1)
    }
}

/// The length of the first of `ss` that `name` ends with (0 if none).
pub open spec fn suffix_cut(name: Seq<char>, ss: Seq<Seq<char>>, j: int) -> nat
    decreases ss.len() - j,
{
    if j < 0 || j >= ss.len() {
        0
    } else if ss[j].len() <= name.len() && name.skip(name.len() - ss[j].len()) == ss[j] {
        ss[j].len()
    } else {
        suffix_cut(name, ss, j + 1)
    }
}

/// The length in characters of `name` without its first matching prefix
/// and then its first matching suffix.
pub open spec fn length_without_spec(name: Seq<char>, ps: Seq<Seq<char>>, ss: Seq<Seq<char>>) -> nat {
    let rest = name.skip(prefix_cut(name, ps, 0) as int);
    (rest.len() - suffix_cut(rest, ss, 0)) as nat
}

proof fn lemma_prefix_cut(name: Seq<char>, ps: Seq<Seq<char>>, j: int)
    requires
        0 <= j <= ps.len(),
    ensures
        prefix_cut(name, ps, j) <= name.len(),
    decreases ps.len() - j,
{
    if j < ps.len() {
        lemma_prefix_cut(name, ps, j + 1);
    }
}

proof fn lemma_suffix_cut(name: Seq<char>, ss: Seq<Seq<char>>, j: int)
    requires
        0 <= j <= ss.len(),
    ensures
        suffix_cut(name, ss, j) <= name.len(),
    decreases ss.len() - j,
{
    if j < ss.len() {
        lemma_suffix_cut(name, ss, j + 1);
    }
}

fn starts_with_at(v: &Vec<char>, lo: usize, hi: usize, p: &Vec<char>) -> (b: bool)
    requires
        lo <= hi <= v.len(),
    ensures
        b == (p.len() <= hi - lo && v@.subrange(lo as int, hi as int).take(p.len() as int) == p@),
{
    if p.len() > hi - lo {
        return false;
    }
    let mut k: usize = 0;
    while k < p.len()
        invariant
            p.len() <= hi - lo,
            lo <= hi <= v.len(),
            k <= p.len(),
            forall|j: int| 0 <= j < k ==> v@[lo + j] == p@[j],
        decreases p.len() - k,
    {
        if v[lo + k] != p[k] {
            assert(v@.subrange(lo as int, hi as int).take(p.len() as int)[k as int] != p@[k as int]);
            return false;
        }
        k = k + 1;
    }
    assert(v@.subrange(lo as int, hi as int).take(p.len() as int) =~= p@);
    true
}

fn ends_with_at(v: &Vec<char>, lo: usize, hi: usize, s: &Vec<char>) -> (b: bool)
    requires
        lo <= hi <= v.len(),
    ensures
        b == (s.len() <= hi - lo && v@.subrange(lo as int, hi as int).skip(hi - lo - s.len()) == s@),
{
    if s.len() > hi - lo {
        return false;
    }
    let base = hi - s.len();
    let mut k: usize = 0;
    while k < s.len()
        invariant
            s.len() <= hi - lo,
            base == hi - s.len(),
            lo <= hi <= v.len(),
            k <= s.len(),
            forall|j: int| 0 <= j < k ==> v@[base + j] == s@[j],
        decreases s.len() - k,
    {
        if v[base + k] != s[k] {
            assert(v@.subrange(lo as int, hi as int).skip(hi - lo - s.len())[k as int] != s@[k as int]);
            return false;
        }
        k = k + 1;
    }
    assert(v@.subrange(lo as int, hi as int).skip(hi - lo - s.len()) =~= s@);
    true
}

/// The length of `name` without its first matching prefix and suffix.
pub fn length_without(name: &String, prefixes: &Vec<String>, suffixes: &Vec<String>) -> (n: usize)
    ensures
        n == length_without_spec(name@, texts(prefixes@), texts(suffixes@)),
{
    let v = chars_of_string(name);
    let ghost ps = texts(prefixes@);
    let ghost ss = texts(suffixes@);
    let mut start: usize = 0;
    let mut j: usize = 0;
    let mut found = false;
    assert(v@.subrange(0, v.len() as int) =~= v@);
    while j < prefixes.len() && !found
        invariant
            j <= prefixes.len(),
            v@ == name@,
            ps == texts(prefixes@),
            ps.len() == prefixes@.len(),
            v@.subrange(0, v.len() as int) == v@,
            !found ==> prefix_cut(v@, ps, 0) == prefix_cut(v@, ps, j as int),
            found ==> start == prefix_cut(v@, ps, 0),
            !found ==> start == 0,
        decreases 2 * (prefixes.len() - j) + if found { 0int } else { 1int },
    {
        let p = chars_of_string(&prefixes[j]);
        assert(ps[j as int] == p@);
        if starts_with_at(&v, 0, v.len(), &p) {
            start = p.len();
            found = true;
        } else {
            j = j + 1;
        }
    }
    proof {
        if !found {
            assert(prefix_cut(v@, ps, j as int) == 0);
        }
    }
    assert(start == prefix_cut(v@, ps, 0));
    proof {
        lemma_prefix_cut(v@, ps, 0);
    }
    let ghost rest = v@.skip(start as int);
    assert(rest =~= v@.subrange(start as int, v.len() as int));
    let mut cut: usize = 0;
    let mut k: usize = 0;
    let mut found_suffix = false;
    while k < suffixes.len() && !found_suffix
        invariant
            k <= suffixes.len(),
            start <= v.len(),
            rest =~= v@.subrange(start as int, v.len() as int),
            ss == texts(suffixes@),
            ss.len() == suffixes@.len(),
            !found_suffix ==> suffix_cut(rest, ss, 0) == suffix_cut(rest, ss, k as int),
            found_suffix ==> cut == suffix_cut(rest, ss, 0),
            !found_suffix ==> cut == 0,
        decreases 2 * (suffixes.len() - k) + if found_suffix { 0int } else { 1int },
    {
        let s = chars_of_string(&suffixes[k]);
        assert(ss[k as int] == s@);
        if ends_with_at(&v, start, v.len(), &s) {
            cut = s.len();
            found_suffix = true;
        } else {
            k = k + 1;
        }
    }
    proof {
        if !found_suffix {
            assert(suffix_cut(rest, ss, k as int) == 0);
        }
        lemma_suffix_cut(rest, ss, 0);
    }
    assert(cut == suffix_cut(rest, ss, 0));
    v.len() - start - cut
}

/// PascalCase: the first character is uppercase and there is no `_`.
pub open spec fn pascal_case(name: Seq<char>) -> bool {
    name.len() > 0 && unicode_uppercase(name[0]) && !name.contains('_')
}

pub fn is_pascal_case(name: &String) -> (b: bool)
    ensures
        b == pascal_case(name@),
{
    let v = chars_of_string(name);
    if v.len() == 0 || !is_uppercase_char(v[0]) {
        return false;
    }
    let mut i: usize = 0;
    while i < v.len()
        invariant
            i <= v.len(),
            v@ == name@,
            forall|k: int| 0 <= k < i ==> v@[k] != '_',
        decreases v.len() - i,
    {
        if v[i] == '_' {
            assert(v@.contains('_')) by {
                assert(v@[i as int] == '_');
            }
            return false;
        }
        i = i + 1;
    }
    true
}

/// PascalCase without two uppercase characters in a row.
pub open spec fn pascal_case_no_abbrev(name: Seq<char>) -> bool {
    pascal_case(name) && !(exists|i: int|
        0 <= i < name.len() - 1 && #[trigger] unicode_uppercase(name[i]) && unicode_uppercase(
            name[i + 1],
        ))
}

pub fn is_pascal_case_no_abbrev(name: &String) -> (b: bool)
    ensures
        b == pascal_case_no_abbrev(name@),
{
    if !is_pascal_case(name) {
        return false;
    }
    let v = chars_of_string(name);
    let mut i: usize = 0;
    while i + 1 < v.len()
        invariant
            v@ == name@,
            v.len() > 0,
            i < v.len(),
            forall|k: int|
                0 <= k < i && k < v.len() - 1 ==> !(#[trigger] unicode_uppercase(v@[k])
                    && unicode_uppercase(v@[k + 1])),
        decreases v.len() - i,
    {
        if is_uppercase_char(v[i]) && is_uppercase_char(v[i + 1]) {
            return false;
        }
        i = i + 1;
    }
    true
}

/// snake_case: only `_`, lowercase ASCII letters and digits, with at least
/// one letter.
pub open spec fn snake_case(name: Seq<char>) -> bool {
    &&& forall|i: int|
        0 <= i < name.len() ==> #[trigger] name[i] == '_' || is_ascii_lower(name[i])
            || is_ascii_digit(name[i])
    &&& exists|i: int| 0 <= i < name.len() && #[trigger] is_ascii_lower(name[i])
}

pub fn is_snake_case(name: &String) -> (b: bool)
    ensures
        b == snake_case(name@),
{
    let v = chars_of_string(name);
    let mut saw_letter = false;
    let mut i: usize = 0;
    while i < v.len()
        invariant
            i <= v.len(),
            v@ == name@,
            forall|k: int|
                0 <= k < i ==> #[trigger] v@[k] == '_' || is_ascii_lower(v@[k]) || is_ascii_digit(
                    v@[k],
                ),
            saw_letter <==> exists|k: int| 0 <= k < i && #[trigger] is_ascii_lower(v@[k]),
        decreases v.len() - i,
    {
        let c = v[i];
        if c == '_' || ('0' <= c && c <= '9') {
        } else if 'a' <= c && c <= 'z' {
            saw_letter = true;
        } else {
            return false;
        }
        i = i + 1;
    }
    saw_letter
}

/// A tuple field name: decimal digits only.
pub open spec fn tuple_field_name(name: Seq<char>) -> bool {
    forall|i: int| 0 <= i < name.len() ==> is_ascii_digit(#[trigger] name[i])
}

pub fn is_tuple_field_name(name: &String) -> (b: bool)
    ensures
        b == tuple_field_name(name@),
{
    let v = chars_of_string(name);
    let mut i: usize = 0;
    while i < v.len()
        invariant
            i <= v.len(),
            v@ == name@,
            forall|k: int| 0 <= k < i ==> is_ascii_digit(#[trigger] v@[k]),
        decreases v.len() - i,
    {
        if !('0' <= v[i] && v[i] <= '9') {
            return false;
        }
        i = i + 1;
    }
    true
}

/// UPPER_CASE: only `_`, uppercase ASCII letters and digits, with at least
/// one letter.
pub open spec fn upper_case(name: Seq<char>) -> bool {
    &&& forall|i: int|
        0 <= i < name.len() ==> #[trigger] name[i] == '_' || is_ascii_upper(name[i])
            || is_ascii_digit(name[i])
    &&& exists|i: int| 0 <= i < name.len() && #[trigger] is_ascii_upper(name[i])
}

pub fn is_upper_case(name: &String) -> (b: bool)
    ensures
        b == upper_case(name@),
{
    let v = chars_of_string(name);
    let mut saw_letter = false;
    let mut i: usize = 0;
    while i < v.len()
        invariant
            i <= v.len(),
            v@ == name@,
            forall|k: int|
                0 <= k < i ==> #[trigger] v@[k] == '_' || is_ascii_upper(v@[k]) || is_ascii_digit(
                    v@[k],
                ),
            saw_letter <==> exists|k: int| 0 <= k < i && #[trigger] is_ascii_upper(v@[k]),
        decreases v.len() - i,
    {
        let c = v[i];
        if c == '_' || ('0' <= c && c <= '9') {
        } else if 'A' <= c && c <= 'Z' {
            saw_letter = true;
        } else {
            return false;
        }
        i = i + 1;
    }
    saw_letter
}

/// A getter name: `get` in any ASCII case, as the whole name or followed
/// by a word boundary (`_` or an uppercase letter), as in `get_ready` or
/// `getStatus`; `getting_started` or `getter` is none.
pub open spec fn getter_name(name: Seq<char>) -> bool {
    &&& name.len() >= 3
    &&& crate::text::lower_char(name[0]) == 'g'
    &&& crate::text::lower_char(name[1]) == 'e'
    &&& crate::text::lower_char(name[2]) == 't'
    &&& (name.len() == 3 || name[3] == '_' || uppercase_letter(name[3]))
}

/// An uppercase letter: an ASCII character exactly when it is `A` to `Z`,
/// any other by its Unicode `Uppercase` property.
pub open spec fn uppercase_letter(c: char) -> bool {
    if (c as u32) < 128 {
        is_ascii_upper(c)
    } else {
        unicode_uppercase(c)
    }
}

pub fn is_getter_name(name: &String) -> (b: bool)
    ensures
        b == getter_name(name@),
{
    let v = chars_of_string(name);
    v.len() >= 3 && lower_of(v[0]) == 'g' && lower_of(v[1]) == 'e' && lower_of(v[2]) == 't' && (v.len() == 3
        || v[3] == '_' || is_uppercase_char(v[3]))
}

/// A name Rust treats as deliberately unused: it starts with `_`.
pub open spec fn rust_unused_name(name: Seq<char>) -> bool {
    name.len() > 0 && name[0] == '_'
}

pub fn is_rust_unused_name(name: &String) -> (b: bool)
    ensures
        b == rust_unused_name(name@),
{
    let v = chars_of_string(name);
    v.len() > 0 && v[0] == '_'
}

// ----- PHPMD patterns --------------------------------------------------------

/// The index of the last `)` in `s` (`None` if there is none).
pub open spec fn last_close(s: Seq<char>, n: int) -> Option<int>
    decreases n,
{
    if n <= 0 {
        None
    } else if s[n - 1] == ')' {
        Some(n - 1)
    } else {
        last_close(s, n - 1)
    }
}

/// `s` without any `u`.
pub open spec fn drop_u(s: Seq<char>) -> Seq<char> {
    s.filter(|c: char| c != 'u')
}

/// The regex source of a PHPMD pattern: `(body)flags` becomes
/// `(?flags)body` (the `u` flag dropped, no group when no flags are left);
/// any other pattern is taken as it is. An empty pattern has none.
pub open spec fn phpmd_regex_source(pat: Seq<char>) -> Option<Seq<char>> {
    if pat.len() == 0 {
        None
    } else {
        match last_close(pat, pat.len() as int) {
            Some(close) if pat[0] == '(' => {
                let body = pat.subrange(1, close);
                let flags = drop_u(pat.subrange(close + 1, pat.len() as int));
                if flags.len() == 0 {
                    Some(body)
                } else {
                    Some("(?"@ + flags + ")"@ + body)
                }
            },
            _ => Some(pat),
        }
    }
}

proof fn lemma_last_close(s: Seq<char>, n: int)
    requires
        0 <= n <= s.len(),
    ensures
        last_close(s, n) matches Some(k) ==> 0 <= k < n && s[k] == ')',
        last_close(s, n) is None ==> forall|k: int| 0 <= k < n ==> s[k] != ')',
    decreases n,
{
    if n > 0 {
        lemma_last_close(s, n - 1);
    }
}

/// The regex source of a PHPMD-style pattern.
pub fn phpmd_source(pat: &str) -> (r: Option<Vec<char>>)
    ensures
        r matches Some(v) ==> phpmd_regex_source(pat@) == Some(v@),
        r is None ==> phpmd_regex_source(pat@) is None,
{
    let v = chars_of(pat);
    if v.len() == 0 {
        return None;
    }
    let mut n: usize = v.len();
    while n > 0 && v[n - 1] != ')'
        invariant
            n <= v.len(),
            last_close(v@, v.len() as int) == last_close(v@, n as int),
        decreases n,
    {
        n = n - 1;
    }
    proof {
        lemma_last_close(v@, v.len() as int);
    }
    if n == 0 || v[0] != '(' {
        return Some(v);
    }
    let close = n - 1;
    let body = crate::text::slice_of(&v, 1, close);
    let mut flags: Vec<char> = Vec::new();
    let mut i: usize = close + 1;
    let ghost tail = v@.subrange(close + 1, v.len() as int);
    while i < v.len()
        invariant
            close + 1 <= i <= v.len(),
            tail == v@.subrange(close + 1, v.len() as int),
            flags@ == drop_u(v@.subrange(close + 1, i as int)),
        decreases v.len() - i,
    {
        let ghost prev = v@.subrange(close + 1, i as int);
        assert(v@.subrange(close + 1, i + 1) =~= prev.push(v@[i as int]));
        proof {
            prev.lemma_filter_push(v@[i as int], |c: char| c != 'u');
        }
        if v[i] != 'u' {
            flags.push(v[i]);
        }
        i = i + 1;
    }
    if flags.len() == 0 {
        Some(body)
    } else {
        let mut out: Vec<char> = Vec::new();
        push_str(&mut out, "(?");
        push_all(&mut out, &flags);
        push_str(&mut out, ")");
        push_all(&mut out, &body);
        Some(out)
    }
}

/// The pattern a PHPMD pattern text compiles to, if it has a source that
/// compiles.
pub open spec fn compiled_source(pat: Seq<char>) -> Option<Seq<char>> {
    match phpmd_regex_source(pat) {
        Some(src) => if regex_compiles(src) {
            Some(src)
        } else {
            None
        },
        None => None,
    }
}

/// Compiles a PHPMD-style pattern (`(body)flags`).
pub fn compile_phpmd_regex(pat: &str) -> (r: Option<PhpmdPattern>)
    ensures
        r is Some <==> compiled_source(pat@) is Some,
        r matches Some(p) ==> compiled_source(pat@) == Some(p.source()),
{
    match phpmd_source(pat) {
        Some(src) => compile_regex(string_of(&src)),
        None => None,
    }
}

/// Whether a name is ignored by an optional pattern.
pub open spec fn ignored_spec(source: Option<Seq<char>>, name: Seq<char>) -> bool {
    match source {
        Some(src) => regex_matches(src, name),
        None => false,
    }
}

pub open spec fn pattern_source(p: Option<PhpmdPattern>) -> Option<Seq<char>> {
    match p {
        Some(q) => Some(q.source()),
        None => None,
    }
}

pub fn ignored_name(re: &Option<PhpmdPattern>, name: &String) -> (b: bool)
    ensures
        b == ignored_spec(pattern_source(*re), name@),
{
    match re {
        Some(p) => pattern_matches(p, name.as_str()),
        None => false,
    }
}

/// The `ignorepattern` property, or `default` when the rule has none.
pub open spec fn ignore_pattern_text(rule: &LoadedRule, default: Seq<char>) -> Seq<char> {
    match rule.property("ignorepattern"@) {
        Some(v) => v,
        None => default,
    }
}

/// The compiled `ignorepattern` of a rule.
pub fn ignore_pattern(rule: &LoadedRule, default: &str) -> (r: Option<PhpmdPattern>)
    ensures
        pattern_source(r) == compiled_source(ignore_pattern_text(rule, default@)),
{
    match rule.get_property("ignorepattern") {
        Some(v) => compile_phpmd_regex(v.as_str()),
        None => compile_phpmd_regex(default),
    }
}

} // verus!
