//! What the unused-code rules learn from names and macro bodies.

use vstd::prelude::*;
use crate::text::{chars_of, chars_eq, replace_chars, string_of, texts};
use crate::analyze::helpers::{compile_regex, first_groups, regex_compiles, regex_first_groups};
use crate::nesting::TokenEvent;
use crate::report::chars_of_string;

verus! {

/// Whether `c` has the Unicode `Lowercase` property.
pub uninterp spec fn unicode_lowercase(c: char) -> bool;

/// `char::is_lowercase`: the Unicode `Lowercase` property, which among
/// ASCII characters exactly `a` to `z` have.
#[verifier::external_body]
fn is_lowercase_char(c: char) -> (b: bool)
    ensures
        b == unicode_lowercase(c),
        (c as u32) < 128 ==> (b == ('a' <= c && c <= 'z')),
{
    c.is_lowercase()
}

/// Names that bind a variable: they start with a lower-case letter or `_`.
pub open spec fn binding_name(name: Seq<char>) -> bool {
    name.len() > 0 && (unicode_lowercase(name[0]) || name[0] == '_')
}

/// Whether `name` binds a variable (rather than naming a constant or a
/// variant).
pub fn is_binding_name(name: &str) -> (b: bool)
    ensures
        b == binding_name(name@),
{
    let v = chars_of(name);
    if v.len() == 0 {
        return false;
    }
    is_lowercase_char(v[0]) || v[0] == '_'
}

/// Macros whose first argument is a format string.
pub open spec fn format_macro_name(n: Seq<char>) -> bool {
    n == "format"@ || n == "format_args"@ || n == "print"@ || n == "println"@ || n == "eprint"@
        || n == "eprintln"@ || n == "write"@ || n == "writeln"@ || n == "panic"@ || n == "assert"@
        || n == "assert_eq"@ || n == "assert_ne"@ || n == "debug_assert"@ || n == "debug_assert_eq"@
        || n == "debug_assert_ne"@
}

/// Whether a macro named `name` (its last path segment) takes a format
/// string.
pub fn is_format_macro(name: &str) -> (b: bool)
    ensures
        b == format_macro_name(name@),
{
    let n = chars_of(name);
    let words = vec![
        "format", "format_args", "print", "println", "eprint", "eprintln", "write", "writeln", "panic", "assert",
        "assert_eq", "assert_ne", "debug_assert", "debug_assert_eq", "debug_assert_ne",
    ];
    let mut k: usize = 0;
    while k < words.len()
        invariant
            k <= words.len(),
            n@ == name@,
            words@ == seq!["format", "format_args", "print", "println", "eprint", "eprintln", "write", "writeln", "panic", "assert",
                "assert_eq", "assert_ne", "debug_assert", "debug_assert_eq", "debug_assert_ne"],
            forall|j: int| 0 <= j < k ==> name@ != #[trigger] words@[j]@,
        decreases words.len() - k,
    {
        if chars_eq(&n, &chars_of(words[k])) {
            return true;
        }
        k = k + 1;
    }
    assert(!format_macro_name(name@)) by {
        assert(name@ != words@[0]@);
        assert(name@ != words@[1]@);
        assert(name@ != words@[2]@);
        assert(name@ != words@[3]@);
        assert(name@ != words@[4]@);
        assert(name@ != words@[5]@);
        assert(name@ != words@[6]@);
        assert(name@ != words@[7]@);
        assert(name@ != words@[8]@);
        assert(name@ != words@[9]@);
        assert(name@ != words@[10]@);
        assert(name@ != words@[11]@);
        assert(name@ != words@[12]@);
        assert(name@ != words@[13]@);
        assert(name@ != words@[14]@);
    }
    false
}

/// The inline argument names a format string captures (`{name}`,
/// `{name:..}`).
pub const FORMAT_CAPTURE: &'static str = r"\{([A-Za-z_][A-Za-z0-9_]*)(?:[}:])";

/// The names a format string captures: the first groups of the capture
/// pattern in the string with every `{{` taken out.
pub open spec fn capture_names(format: Seq<char>) -> Seq<Seq<char>> {
    if regex_compiles(FORMAT_CAPTURE@) {
        regex_first_groups(FORMAT_CAPTURE@, crate::text::replace_all(format, "{{"@, Seq::empty()))
    } else {
        Seq::empty()
    }
}

/// The names a format string captures.
pub fn format_capture_names(format: &str) -> (r: Vec<String>)
    ensures
        texts(r@) == capture_names(format@),
{
    let unescaped = string_of(&replace_chars(&chars_of(format), &chars_of("{{"), &Vec::new()));
    proof {
        reveal_strlit("{{");
    }
    match compile_regex(string_of(&chars_of(FORMAT_CAPTURE))) {
        Some(p) => first_groups(&p, unescaped.as_str()),
        None => {
            let r: Vec<String> = Vec::new();
            assert(texts(r@) =~= Seq::<Seq<char>>::empty());
            r
        },
    }
}

/// The identifiers of a macro body, in order.
pub open spec fn macro_idents(ts: Seq<TokenEvent>) -> Seq<Seq<char>>
    decreases ts.len(),
{
    if ts.len() == 0 {
        Seq::empty()
    } else {
        match ts.last() {
            TokenEvent::Ident(s) => macro_idents(ts.drop_last()).push(s@),
            _ => macro_idents(ts.drop_last()),
        }
    }
}

/// The identifiers of a macro body that directly follow a `.`, in order.
pub open spec fn macro_field_reads(ts: Seq<TokenEvent>) -> Seq<Seq<char>>
    decreases ts.len(),
{
    if ts.len() == 0 {
        Seq::empty()
    } else {
        let before = macro_field_reads(ts.drop_last());
        match ts.last() {
            TokenEvent::Ident(s) => if ts.len() >= 2 && (ts[ts.len() - 2] matches TokenEvent::Punct { ch, joint } && ch == '.') {
                before.push(s@)
            } else {
                before
            },
            _ => before,
        }
    }
}

/// Adds the identifiers of a macro body to `ident_reads`, and those after
/// a `.` to `field_reads`.
pub fn collect_macro_reads(tokens: &Vec<TokenEvent>, ident_reads: &mut Vec<String>, field_reads: &mut Vec<String>)
    ensures
        texts(final(ident_reads)@) == texts(old(ident_reads)@) + macro_idents(tokens@),
        texts(final(field_reads)@) == texts(old(field_reads)@) + macro_field_reads(tokens@),
{
    let mut after_dot = false;
    let mut i: usize = 0;
    assert(tokens@.take(0) =~= Seq::<TokenEvent>::empty());
    while i < tokens.len()
        invariant
            i <= tokens.len(),
            texts(ident_reads@) == texts(old(ident_reads)@) + macro_idents(tokens@.take(i as int)),
            texts(field_reads@) == texts(old(field_reads)@) + macro_field_reads(tokens@.take(i as int)),
            after_dot == (i > 0 && (tokens@[i - 1] matches TokenEvent::Punct { ch, joint } && ch == '.')),
        decreases tokens.len() - i,
    {
        let ghost pre = tokens@.take(i as int);
        let ghost next = tokens@.take(i + 1);
        assert(next.drop_last() =~= pre);
        assert(next.last() == tokens@[i as int]);
        match &tokens[i] {
            TokenEvent::Ident(name) => {
                let ghost a = texts(ident_reads@);
                let ghost b = texts(field_reads@);
                ident_reads.push(string_of(&chars_of_string(name)));
                assert(texts(ident_reads@) =~= a.push(name@));
                if after_dot {
                    field_reads.push(string_of(&chars_of_string(name)));
                    assert(texts(field_reads@) =~= b.push(name@));
                    assert(next[next.len() - 2] == tokens@[i - 1]);
                } else {
                    if i >= 1 {
                        assert(next[next.len() - 2] == tokens@[i - 1]);
                    }
                }
                after_dot = false;
            },
            TokenEvent::Punct { ch, joint } => {
                after_dot = *ch == '.';
            },
            _ => {
                after_dot = false;
            },
        }
        i = i + 1;
    }
    assert(tokens@.take(i as int) =~= tokens@);
}


/// Whether a derive of trait `name` reads every field of the type.
pub open spec fn field_reading_derive(name: Seq<char>) -> bool {
    name == "Serialize"@ || name == "Deserialize"@
}

/// Whether a type deriving the traits `derived` (each by its last path
/// segment) has all its fields read by a derive.
pub fn derives_read_fields(derived: &Vec<String>) -> (b: bool)
    ensures
        b == exists|k: int| 0 <= k < derived@.len() && field_reading_derive(#[trigger] derived@[k]@),
{
    proof {
        reveal_strlit("Serialize");
        reveal_strlit("Deserialize");
    }
    let mut k: usize = 0;
    while k < derived.len()
        invariant
            k <= derived.len(),
            forall|j: int| 0 <= j < k ==> !field_reading_derive(#[trigger] derived@[j]@),
        decreases derived.len() - k,
    {
        let name = chars_of_string(&derived[k]);
        if chars_eq(&name, &chars_of("Serialize")) || chars_eq(&name, &chars_of("Deserialize")) {
            return true;
        }
        k = k + 1;
    }
    false
}

} // verus!
