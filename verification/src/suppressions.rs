//! Source comment directives for suppressing individual findings.
//!
//! A line comment or a line of a block comment holds a directive when its
//! trimmed, ASCII-lower-cased text starts with one of
//! `messrust-disable-next-line`, `messrust-disable` or `messrust-enable`,
//! followed by the end of the text, ASCII white space or a comma, and then
//! at least one rule name (an ASCII letter followed by ASCII letters and
//! digits). Text inside string, raw string, byte string and character
//! literals is never read as a comment.

use vstd::prelude::*;
use crate::text::{
    chars_of, is_ascii_alnum, is_ascii_alpha, is_ascii_whitespace_char, is_ascii_ws, lower,
    lower_slice, slice_of, trim, trim_bounds, lemma_lower_idempotent, lower_char, is_ascii_upper, is_ascii_lower, lemma_trim_lower, upper, lemma_lower_upper,
};

verus! {

broadcast use vstd::seq_lib::group_seq_properties;

#[derive(Clone, Copy, Debug, PartialEq, Eq, Structural)]
pub enum DirectiveKind {
    DisableNextLine,
    Disable,
    Enable,
}

/// A directive as the specification sees it.
pub struct SpecDirective {
    pub line: int,
    pub kind: DirectiveKind,
    pub rules: Seq<Seq<char>>,
}

/// A directive found in the source: its line, its command and the
/// lower-case rule names it lists.
pub struct Directive {
    pub line: usize,
    pub kind: DirectiveKind,
    pub rules: Vec<Vec<char>>,
}

impl Directive {
    pub open spec fn view(&self) -> SpecDirective {
        SpecDirective {
            line: self.line as int,
            kind: self.kind,
            rules: self.rules@.map_values(|r: Vec<char>| r@),
        }
    }
}

pub open spec fn directives_view(v: Seq<Directive>) -> Seq<SpecDirective> {
    v.map_values(|d: Directive| d.view())
}

// ----- directive text -----------------------------------------------------

pub open spec fn valid_rule_name(s: Seq<char>) -> bool {
    &&& s.len() > 0
    &&& is_ascii_alpha(s[0])
    &&& forall|k: int| 1 <= k < s.len() ==> is_ascii_alnum(#[trigger] s[k])
}

pub open spec fn is_rule_separator(c: char) -> bool {
    c == ',' || is_ascii_ws(c)
}

/// The pieces of `s` between rule separators (`str::split`): `n`
/// separators give `n + 1` pieces.
pub open spec fn pieces(s: Seq<char>) -> Seq<Seq<char>>
    decreases s.len(),
{
    if s.len() == 0 {
        seq![Seq::<char>::empty()]
    } else {
        let p = pieces(s.drop_last());
        if is_rule_separator(s.last()) {
            p.push(Seq::<char>::empty())
        } else {
            p.update(p.len() - 1, p.last().push(s.last()))
        }
    }
}

/// The trimmed pieces that are valid rule names, in order.
pub open spec fn valid_names(ps: Seq<Seq<char>>) -> Seq<Seq<char>>
    decreases ps.len(),
{
    if ps.len() == 0 {
        Seq::<Seq<char>>::empty()
    } else {
        let v = valid_names(ps.drop_last());
        if valid_rule_name(trim(ps.last())) {
            v.push(trim(ps.last()))
        } else {
            v
        }
    }
}

pub open spec fn command_rest(text: Seq<char>, cmd: Seq<char>) -> Option<Seq<char>> {
    if cmd.is_prefix_of(text) {
        let rest = text.skip(cmd.len() as int);
        if rest.len() == 0 || is_rule_separator(rest[0]) {
            Some(rest)
        } else {
            None
        }
    } else {
        None
    }
}

pub open spec fn disable_next_line_command() -> Seq<char> {
    "messrust-disable-next-line"@
}

pub open spec fn disable_command() -> Seq<char> {
    "messrust-disable"@
}

pub open spec fn enable_command() -> Seq<char> {
    "messrust-enable"@
}

/// The command and rule names of a comment line, if it is a directive.
pub open spec fn parse_directive(comment: Seq<char>) -> Option<(DirectiveKind, Seq<Seq<char>>)> {
    let text = lower(trim(comment));
    let found: Option<(DirectiveKind, Seq<char>)> = if command_rest(
        text,
        disable_next_line_command(),
    ) is Some {
        Some((DirectiveKind::DisableNextLine, command_rest(text, disable_next_line_command())->0))
    } else if command_rest(text, disable_command()) is Some {
        Some((DirectiveKind::Disable, command_rest(text, disable_command())->0))
    } else if command_rest(text, enable_command()) is Some {
        Some((DirectiveKind::Enable, command_rest(text, enable_command())->0))
    } else {
        None
    };
    match found {
        Some((kind, rest)) => {
            let names = valid_names(pieces(rest));
            if names.len() > 0 {
                Some((kind, names))
            } else {
                None
            }
        },
        None => None,
    }
}

/// The directives (none or one) that a comment line at `line` holds.
pub open spec fn directive_seq(line: int, comment: Seq<char>) -> Seq<SpecDirective> {
    match parse_directive(comment) {
        Some((kind, rules)) => seq![SpecDirective { line, kind, rules }],
        None => Seq::<SpecDirective>::empty(),
    }
}

// ----- the source scanner -------------------------------------------------

/// The index after the closing `q` of a quoted literal whose body starts at
/// `i`; a backslash skips the next character. Past the end when the source
/// ends inside an escape.
pub open spec fn skip_quoted(s: Seq<char>, i: int, q: char) -> int
    decreases s.len() + 1 - i,
{
    if i < 0 || i >= s.len() {
        i
    } else if s[i] == '\\' {
        skip_quoted(s, i + 2, q)
    } else if s[i] == q {
        i + 1
    } else {
        skip_quoted(s, i + 1, q)
    }
}

/// Whether a `'` closes the literal on the same line from `cur` on.
pub open spec fn char_close_from(s: Seq<char>, cur: int) -> bool
    decreases s.len() + 1 - cur,
{
    if cur < 0 || cur >= s.len() || s[cur] == '\n' {
        false
    } else if s[cur] == '\\' {
        char_close_from(s, cur + 2)
    } else if s[cur] == '\'' {
        true
    } else {
        char_close_from(s, cur + 1)
    }
}

/// Whether the `'` at `i` opens a character literal (and not a lifetime).
pub open spec fn looks_like_char(s: Seq<char>, i: int) -> bool {
    if i + 1 >= s.len() {
        false
    } else if s[i + 1] == '\\' {
        if i + 2 >= s.len() || s[i + 2] == '\0' {
            false
        } else {
            char_close_from(s, i + 2)
        }
    } else if s[i + 1] == '\n' || s[i + 1] == '\r' {
        false
    } else {
        char_close_from(s, i + 2)
    }
}

/// The number of `#` characters from `i` on.
pub open spec fn hash_run(s: Seq<char>, i: int) -> int
    decreases s.len() - i,
{
    if 0 <= i < s.len() && s[i] == '#' {
        1 + hash_run(s, i + 1)
    } else {
        0
    }
}

/// Whether `s[start..start + count]` lies in `s` and is all `#`.
pub open spec fn has_hashes(s: Seq<char>, start: int, count: int) -> bool
    decreases count,
{
    if count <= 0 {
        true
    } else {
        0 <= start < s.len() && s[start] == '#' && has_hashes(s, start + 1, count - 1)
    }
}

pub proof fn lemma_has_hashes_len(s: Seq<char>, start: int, count: int)
    requires
        has_hashes(s, start, count),
        count > 0,
    ensures
        start + count <= s.len(),
    decreases count,
{
    if count > 1 {
        lemma_has_hashes_len(s, start + 1, count - 1);
    }
}

/// The index after the close of a raw string whose body starts at `cur`.
pub open spec fn raw_close_from(s: Seq<char>, cur: int, hashes: int) -> int
    decreases s.len() - cur,
{
    if cur < 0 || cur >= s.len() {
        s.len() as int
    } else if s[cur] == '"' && has_hashes(s, cur + 1, hashes) {
        cur + 1 + hashes
    } else {
        raw_close_from(s, cur + 1, hashes)
    }
}

pub open spec fn skip_raw_string(s: Seq<char>, q: int) -> Option<int> {
    let quote = q + hash_run(s, q);
    if 0 <= quote < s.len() && s[quote] == '"' {
        Some(raw_close_from(s, quote + 1, hash_run(s, q)))
    } else {
        None
    }
}

pub open spec fn string_prefix_end(s: Seq<char>, i: int) -> Option<int> {
    if s[i] == 'r' {
        Some(i)
    } else if s[i] == 'b' && i + 1 < s.len() && (s[i + 1] == '"' || s[i + 1] == 'r') {
        Some(i + 1)
    } else {
        None
    }
}

/// The end of a raw or byte string starting at `i`, if one starts there.
pub open spec fn skip_raw_or_byte(s: Seq<char>, i: int) -> Option<int> {
    match string_prefix_end(s, i) {
        None => None,
        Some(q) => if q < s.len() && s[q] == '"' {
            Some(skip_quoted(s, q + 1, '"'))
        } else {
            skip_raw_string(s, q + 1)
        },
    }
}

/// Scans a block comment body from `index` at nesting `depth`; gives the
/// index to resume at and the end of the comment text.
pub open spec fn block_scan(s: Seq<char>, index: int, depth: int) -> (int, int)
    decreases s.len() - index,
{
    if index < 0 {
        (index, s.len() as int)
    } else if index + 1 < s.len() {
        if s[index] == '/' && s[index + 1] == '*' {
            block_scan(s, index + 2, depth + 1)
        } else if s[index] == '*' && s[index + 1] == '/' {
            if depth - 1 == 0 {
                (index + 2, index)
            } else {
                block_scan(s, index + 2, depth - 1)
            }
        } else {
            block_scan(s, index + 1, depth)
        }
    } else {
        (index, s.len() as int)
    }
}

/// The first newline in `s[i..hi]`, or `hi`.
pub open spec fn next_newline(s: Seq<char>, i: int, hi: int) -> int
    decreases hi - i,
{
    if i >= hi {
        hi
    } else if s[i] == '\n' {
        i
    } else {
        next_newline(s, i + 1, hi)
    }
}

/// The number of newlines in `s[a..b]`.
pub open spec fn newlines(s: Seq<char>, a: int, b: int) -> int
    decreases b - a,
{
    if b <= a {
        0
    } else {
        newlines(s, a, b - 1) + if s[b - 1] == '\n' {
            1int
        } else {
            0int
        }
    }
}

/// The directives of the lines (`str::lines`) of the block comment text
/// `s[a..b]`, the first of them on `line`.
pub open spec fn block_lines(s: Seq<char>, a: int, b: int, line: int) -> Seq<SpecDirective>
    decreases b - a,
{
    if a >= b {
        Seq::<SpecDirective>::empty()
    } else {
        let j = next_newline(s, a, b);
        if j >= b {
            directive_seq(line, s.subrange(a, b))
        } else {
            let e = if j > a && s[j - 1] == '\r' {
                j - 1
            } else {
                j
            };
            proof {
                lemma_next_newline_bounds(s, a, b);
            }
            directive_seq(line, s.subrange(a, e)) + block_lines(s, j + 1, b, line + 1)
        }
    }
}

pub open spec fn prepend(
    head: Seq<SpecDirective>,
    rest: Option<Seq<SpecDirective>>,
) -> Option<Seq<SpecDirective>> {
    match rest {
        Some(r) => Some(head + r),
        None => None,
    }
}

/// The directives of `s` from index `i` on, where `i` is on `line`; `None`
/// when a literal ends in an escape past the end of the source (the scan
/// cannot go on there).
pub open spec fn scan_from(s: Seq<char>, i: int, line: int) -> Option<Seq<SpecDirective>>
    decreases s.len() - i,
{
    if i < 0 || i >= s.len() {
        Some(Seq::<SpecDirective>::empty())
    } else if s[i] == '/' && i + 1 < s.len() && s[i + 1] == '/' {
        let end = next_newline(s, i + 2, s.len() as int);
        proof {
            lemma_next_newline_bounds(s, i + 2, s.len() as int);
        }
        prepend(directive_seq(line, s.subrange(i + 2, end)), scan_from(s, end, line))
    } else if s[i] == '/' && i + 1 < s.len() && s[i + 1] == '*' {
        let r = block_scan(s, i + 2, 1);
        proof {
            lemma_block_scan_bounds(s, i + 2, 1);
        }
        prepend(
            block_lines(s, i + 2, r.1, line),
            scan_from(s, r.0, line + newlines(s, i + 2, r.1)),
        )
    } else if s[i] == '\n' {
        scan_from(s, i + 1, line + 1)
    } else if s[i] == '"' {
        let end = skip_quoted(s, i + 1, '"');
        proof {
            lemma_skip_quoted_bounds(s, i + 1, '"');
        }
        if end > s.len() {
            None
        } else {
            scan_from(s, end, line + newlines(s, i, end))
        }
    } else if s[i] == '\'' {
        let end = if looks_like_char(s, i) {
            skip_quoted(s, i + 1, '\'')
        } else {
            i + 1
        };
        proof {
            lemma_skip_quoted_bounds(s, i + 1, '\'');
        }
        if end > s.len() {
            None
        } else {
            scan_from(s, end, line + newlines(s, i, end))
        }
    } else if s[i] == 'r' || s[i] == 'b' {
        proof {
            lemma_skip_raw_or_byte_bounds(s, i);
        }
        match skip_raw_or_byte(s, i) {
            Some(end) => if end > s.len() {
                None
            } else {
                scan_from(s, end, line + newlines(s, i, end))
            },
            None => scan_from(s, i + 1, line),
        }
    } else {
        scan_from(s, i + 1, line)
    }
}

/// The directives of a whole source, or `None` when the source ends inside
/// an escape of a literal.
pub open spec fn source_directives(s: Seq<char>) -> Option<Seq<SpecDirective>> {
    scan_from(s, 0, 1)
}

// ----- bounds lemmas ------------------------------------------------------

pub proof fn lemma_next_newline_bounds(s: Seq<char>, i: int, hi: int)
    ensures
        i <= hi ==> i <= next_newline(s, i, hi) <= hi,
        i > hi ==> next_newline(s, i, hi) == hi,
        next_newline(s, i, hi) < hi ==> s[next_newline(s, i, hi)] == '\n',
        forall|k: int| i <= k < next_newline(s, i, hi) ==> s[k] != '\n',
    decreases hi - i,
{
    if i < hi && s[i] != '\n' {
        lemma_next_newline_bounds(s, i + 1, hi);
    }
}

pub proof fn lemma_skip_quoted_bounds(s: Seq<char>, i: int, q: char)
    ensures
        skip_quoted(s, i, q) >= i,
        0 <= i <= s.len() + 1 ==> skip_quoted(s, i, q) <= s.len() + 1,
    decreases s.len() + 1 - i,
{
    if i >= 0 && i < s.len() {
        if s[i] == '\\' {
            lemma_skip_quoted_bounds(s, i + 2, q);
        } else if s[i] != q {
            lemma_skip_quoted_bounds(s, i + 1, q);
        }
    }
}

pub proof fn lemma_block_scan_bounds(s: Seq<char>, index: int, depth: int)
    ensures
        index >= 0 ==> block_scan(s, index, depth).0 >= index,
        index >= 0 && index <= s.len() ==> block_scan(s, index, depth).0 <= s.len(),
        index >= 0 ==> block_scan(s, index, depth).1 <= s.len(),
        index >= 0 && index <= s.len() ==> index <= block_scan(s, index, depth).1,
        index >= 0 ==> block_scan(s, index, depth).1 < block_scan(s, index, depth).0 || (
        block_scan(s, index, depth).1 == s.len() && block_scan(s, index, depth).0 + 1 >= s.len()),
    decreases s.len() - index,
{
    if index >= 0 && index + 1 < s.len() {
        if s[index] == '/' && s[index + 1] == '*' {
            lemma_block_scan_bounds(s, index + 2, depth + 1);
        } else if s[index] == '*' && s[index + 1] == '/' {
            if depth - 1 != 0 {
                lemma_block_scan_bounds(s, index + 2, depth - 1);
            }
        } else {
            lemma_block_scan_bounds(s, index + 1, depth);
        }
    }
}

pub proof fn lemma_raw_close_bounds(s: Seq<char>, cur: int, hashes: int)
    requires
        hashes >= 0,
    ensures
        cur >= 0 && cur <= s.len() ==> cur <= raw_close_from(s, cur, hashes) <= s.len(),
    decreases s.len() - cur,
{
    if cur >= 0 && cur < s.len() {
        if s[cur] == '"' && has_hashes(s, cur + 1, hashes) {
            if hashes > 0 {
                lemma_has_hashes_len(s, cur + 1, hashes);
            }
        } else {
            lemma_raw_close_bounds(s, cur + 1, hashes);
        }
    }
}

pub proof fn lemma_hash_run_bounds(s: Seq<char>, i: int)
    ensures
        hash_run(s, i) >= 0,
        0 <= i <= s.len() ==> i + hash_run(s, i) <= s.len(),
        forall|k: int| i <= k < i + hash_run(s, i) ==> 0 <= k < s.len() && s[k] == '#',
        0 <= i + hash_run(s, i) < s.len() ==> s[i + hash_run(s, i)] != '#',
    decreases s.len() - i,
{
    if 0 <= i < s.len() && s[i] == '#' {
        lemma_hash_run_bounds(s, i + 1);
    }
}

pub proof fn lemma_skip_raw_or_byte_bounds(s: Seq<char>, i: int)
    requires
        0 <= i < s.len(),
    ensures
        skip_raw_or_byte(s, i) matches Some(end) ==> i + 1 <= end <= s.len() + 1,
{
    match string_prefix_end(s, i) {
        None => {},
        Some(q) => {
            if q < s.len() && s[q] == '"' {
                lemma_skip_quoted_bounds(s, q + 1, '"');
            } else {
                lemma_hash_run_bounds(s, q + 1);
                let quote = q + 1 + hash_run(s, q + 1);
                if 0 <= quote < s.len() && s[quote] == '"' {
                    lemma_raw_close_bounds(s, quote + 1, hash_run(s, q + 1));
                }
            }
        },
    }
}

pub proof fn lemma_newlines_bounds(s: Seq<char>, a: int, b: int)
    ensures
        a <= b ==> 0 <= newlines(s, a, b) <= b - a,
    decreases b - a,
{
    if a < b {
        lemma_newlines_bounds(s, a, b - 1);
    }
}

pub proof fn lemma_newlines_split(s: Seq<char>, a: int, m: int, b: int)
    requires
        a <= m <= b,
    ensures
        newlines(s, a, b) == newlines(s, a, m) + newlines(s, m, b),
    decreases b - m,
{
    if m < b {
        lemma_newlines_split(s, a, m, b - 1);
    }
}


// ----- executable scanner -------------------------------------------------

pub fn skip_quoted_at(v: &Vec<char>, start: usize, q: char) -> (r: usize)
    requires
        start <= v.len() + 1,
        v.len() + 2 <= usize::MAX,
    ensures
        r == skip_quoted(v@, start as int, q),
{
    let mut index = start;
    while index < v.len()
        invariant
            index <= v.len() + 1,
            v.len() + 2 <= usize::MAX,
            skip_quoted(v@, start as int, q) == skip_quoted(v@, index as int, q),
        decreases v.len() + 1 - index,
    {
        if v[index] == '\\' {
            index = index + 2;
        } else if v[index] == q {
            return index + 1;
        } else {
            index = index + 1;
        }
    }
    index
}

fn char_close_at(v: &Vec<char>, start: usize) -> (r: bool)
    requires
        v.len() + 2 <= usize::MAX,
        start <= v.len() + 1,
    ensures
        r == char_close_from(v@, start as int),
{
    let mut cursor = start;
    while cursor < v.len() && v[cursor] != '\n'
        invariant
            cursor <= v.len() + 1,
            v.len() + 2 <= usize::MAX,
            char_close_from(v@, start as int) == char_close_from(v@, cursor as int),
        decreases v.len() + 1 - cursor,
    {
        if v[cursor] == '\\' {
            cursor = cursor + 2;
        } else if v[cursor] == '\'' {
            return true;
        } else {
            cursor = cursor + 1;
        }
    }
    false
}

fn looks_like_char_literal(v: &Vec<char>, index: usize) -> (r: bool)
    requires
        index < v.len(),
        v.len() + 2 <= usize::MAX,
    ensures
        r == looks_like_char(v@, index as int),
{
    if index + 1 >= v.len() {
        return false;
    }
    let end = v[index + 1];
    if end == '\\' {
        if index + 2 >= v.len() || v[index + 2] == '\0' {
            return false;
        }
    } else if end == '\n' || end == '\r' {
        return false;
    }
    char_close_at(v, index + 2)
}

fn hash_run_at(v: &Vec<char>, start: usize) -> (r: usize)
    requires
        start <= v.len(),
    ensures
        r == hash_run(v@, start as int),
        start + r <= v.len(),
{
    proof {
        lemma_hash_run_bounds(v@, start as int);
    }
    let mut n: usize = 0;
    while start + n < v.len() && v[start + n] == '#'
        invariant
            start + n <= v.len(),
            hash_run(v@, start as int) == n + hash_run(v@, (start + n) as int),
        decreases v.len() - (start + n),
    {
        n = n + 1;
    }
    n
}

fn hashes_follow(v: &Vec<char>, start: usize, count: usize) -> (r: bool)
    requires
        start <= v.len(),
    ensures
        r == has_hashes(v@, start as int, count as int),
{
    let mut k: usize = 0;
    while k < count
        invariant
            start <= v.len(),
            k <= count,
            has_hashes(v@, start as int, count as int) == has_hashes(
                v@,
                start + k,
                count - k,
            ),
        decreases count - k,
    {
        if k >= v.len() - start || v[start + k] != '#' {
            return false;
        }
        k = k + 1;
    }
    true
}

fn raw_close_at(v: &Vec<char>, start: usize, hashes: usize) -> (r: usize)
    requires
        start <= v.len(),
    ensures
        r == raw_close_from(v@, start as int, hashes as int),
{
    let mut cursor = start;
    while cursor < v.len()
        invariant
            start <= cursor <= v.len(),
            raw_close_from(v@, start as int, hashes as int) == raw_close_from(
                v@,
                cursor as int,
                hashes as int,
            ),
        decreases v.len() - cursor,
    {
        if v[cursor] == '"' && hashes_follow(v, cursor + 1, hashes) {
            proof {
                if hashes > 0 {
                    lemma_has_hashes_len(v@, cursor + 1, hashes as int);
                }
            }
            return cursor + 1 + hashes;
        }
        cursor = cursor + 1;
    }
    v.len()
}

fn skip_raw_or_byte_string(v: &Vec<char>, index: usize) -> (r: Option<usize>)
    requires
        index < v.len(),
        v.len() + 2 <= usize::MAX,
    ensures
        match r {
            Some(e) => skip_raw_or_byte(v@, index as int) == Some(e as int),
            None => skip_raw_or_byte(v@, index as int) is None,
        },
{
    let q = if v[index] == 'r' {
        index
    } else if v[index] == 'b' && index + 1 < v.len() && (v[index + 1] == '"' || v[index + 1]
        == 'r') {
        index + 1
    } else {
        return None;
    };
    if q < v.len() && v[q] == '"' {
        return Some(skip_quoted_at(v, q + 1, '"'));
    }
    let hashes = hash_run_at(v, q + 1);
    let quote = q + 1 + hashes;
    if quote < v.len() && v[quote] == '"' {
        Some(raw_close_at(v, quote + 1, hashes))
    } else {
        None
    }
}

fn block_comment_end(v: &Vec<char>, start: usize) -> (r: (usize, usize))
    requires
        start <= v.len(),
        v.len() + 2 <= usize::MAX,
    ensures
        r.0 == block_scan(v@, start as int, 1).0,
        r.1 == block_scan(v@, start as int, 1).1,
{
    let mut index = start;
    let mut depth: usize = 1;
    while index + 1 < v.len()
        invariant
            start <= index <= v.len(),
            v.len() + 2 <= usize::MAX,
            1 <= depth <= index + 1,
            block_scan(v@, start as int, 1) == block_scan(v@, index as int, depth as int),
        decreases v.len() - index,
    {
        if v[index] == '/' && v[index + 1] == '*' {
            depth = depth + 1;
            index = index + 2;
        } else if v[index] == '*' && v[index + 1] == '/' {
            if depth - 1 == 0 {
                return (index + 2, index);
            }
            depth = depth - 1;
            index = index + 2;
        } else {
            index = index + 1;
        }
    }
    (index, v.len())
}

fn next_newline_at(v: &Vec<char>, start: usize, hi: usize) -> (r: usize)
    requires
        start <= hi <= v.len(),
    ensures
        r == next_newline(v@, start as int, hi as int),
        start <= r <= hi,
{
    let mut i = start;
    while i < hi && v[i] != '\n'
        invariant
            start <= i <= hi <= v.len(),
            next_newline(v@, start as int, hi as int) == next_newline(v@, i as int, hi as int),
        decreases hi - i,
    {
        i = i + 1;
    }
    i
}

fn newline_count(v: &Vec<char>, a: usize, b: usize) -> (r: usize)
    requires
        a <= b <= v.len(),
    ensures
        r == newlines(v@, a as int, b as int),
{
    let mut n: usize = 0;
    let mut i = a;
    while i < b
        invariant
            a <= i <= b <= v.len(),
            n == newlines(v@, a as int, i as int),
            n <= i - a,
        decreases b - i,
    {
        if v[i] == '\n' {
            n = n + 1;
        }
        i = i + 1;
    }
    n
}

// ----- executable directive text -------------------------------------------

fn command_rest_at(text: &Vec<char>, cmd: &Vec<char>) -> (r: bool)
    ensures
        r == (command_rest(text@, cmd@) is Some),
        r ==> command_rest(text@, cmd@) == Some(text@.skip(cmd@.len() as int)),
{
    if cmd.len() > text.len() {
        return false;
    }
    let mut i: usize = 0;
    while i < cmd.len()
        invariant
            cmd.len() <= text.len(),
            i <= cmd.len(),
            forall|k: int| 0 <= k < i ==> text@[k] == cmd@[k],
        decreases cmd.len() - i,
    {
        if text[i] != cmd[i] {
            assert(!cmd@.is_prefix_of(text@)) by {
                assert(text@.subrange(0, cmd@.len() as int)[i as int] != cmd@[i as int]);
            }
            return false;
        }
        i = i + 1;
    }
    assert(cmd@ =~= text@.subrange(0, cmd@.len() as int));
    let n = cmd.len();
    if n == text.len() {
        assert(text@.skip(n as int).len() == 0);
        true
    } else {
        assert(text@.skip(n as int)[0] == text@[n as int]);
        text[n] == ',' || is_ascii_whitespace_char(text[n])
    }
}

proof fn lemma_pieces_len(s: Seq<char>)
    ensures
        pieces(s).len() >= 1,
    decreases s.len(),
{
    if s.len() > 0 {
        lemma_pieces_len(s.drop_last());
    }
}

fn valid_rule_name_at(v: &Vec<char>, lo: usize, hi: usize) -> (r: bool)
    requires
        lo <= hi <= v.len(),
    ensures
        r == valid_rule_name(v@.subrange(lo as int, hi as int)),
{
    let ghost s = v@.subrange(lo as int, hi as int);
    if lo == hi {
        return false;
    }
    let c = v[lo];
    if !(('a' <= c && c <= 'z') || ('A' <= c && c <= 'Z')) {
        return false;
    }
    let mut i = lo + 1;
    while i < hi
        invariant
            lo < i <= hi <= v.len(),
            s == v@.subrange(lo as int, hi as int),
            forall|k: int| 1 <= k < i - lo ==> is_ascii_alnum(#[trigger] s[k]),
        decreases hi - i,
    {
        let c = v[i];
        if !(('a' <= c && c <= 'z') || ('A' <= c && c <= 'Z') || ('0' <= c && c <= '9')) {
            assert(!is_ascii_alnum(s[i - lo]));
            return false;
        }
        i = i + 1;
    }
    true
}

proof fn lemma_valid_names_push(done: Seq<Seq<char>>, piece: Seq<char>)
    ensures
        valid_names(done.push(piece)) == if valid_rule_name(trim(piece)) {
            valid_names(done).push(trim(piece))
        } else {
            valid_names(done)
        },
{
    assert(done.push(piece).drop_last() =~= done);
}

/// Adds `trim(text[cur..i])` to `out` when it is a valid rule name.
fn push_valid_name(text: &Vec<char>, cur: usize, i: usize, out: &mut Vec<Vec<char>>)
    requires
        cur <= i <= text.len(),
    ensures
        final(out)@.map_values(|r: Vec<char>| r@) == if valid_rule_name(
            trim(text@.subrange(cur as int, i as int)),
        ) {
            old(out)@.map_values(|r: Vec<char>| r@).push(trim(text@.subrange(cur as int, i as int)))
        } else {
            old(out)@.map_values(|r: Vec<char>| r@)
        },
{
    let (a, b) = trim_bounds(text, cur, i);
    if valid_rule_name_at(text, a, b) {
        let name = slice_of(text, a, b);
        let ghost before = out@;
        out.push(name);
        assert(out@.map_values(|r: Vec<char>| r@) =~= before.map_values(|r: Vec<char>| r@).push(
            text@.subrange(a as int, b as int),
        ));
    }
}

proof fn lemma_pieces_step(p1: Seq<char>, done: Seq<Seq<char>>, piece: Seq<char>)
    requires
        p1.len() > 0,
        pieces(p1.drop_last()) == done.push(piece),
    ensures
        is_rule_separator(p1.last()) ==> pieces(p1) == done.push(piece).push(Seq::<char>::empty()),
        !is_rule_separator(p1.last()) ==> pieces(p1) == done.push(piece.push(p1.last())),
{
    if !is_rule_separator(p1.last()) {
        assert(done.push(piece).update(done.len() as int, piece.push(p1.last())) =~= done.push(
            piece.push(p1.last()),
        ));
    }
}

proof fn lemma_take_step(t: Seq<char>, from: int, i: int)
    requires
        0 <= from <= i < t.len(),
    ensures
        t.skip(from).take(i + 1 - from).drop_last() == t.skip(from).take(i - from),
        t.skip(from).take(i + 1 - from).last() == t[i],
        t.skip(from).take(i + 1 - from).len() > 0,
{
    assert(t.skip(from).take(i + 1 - from).drop_last() =~= t.skip(from).take(i - from));
}

/// The rule names of `text[from..]`: its pieces between separators,
/// trimmed, that are valid rule names.
fn rule_names_from(text: &Vec<char>, from: usize) -> (out: Vec<Vec<char>>)
    requires
        from <= text.len(),
    ensures
        out@.map_values(|r: Vec<char>| r@) == valid_names(pieces(text@.skip(from as int))),
{
    let ghost rest = text@.skip(from as int);
    let mut out: Vec<Vec<char>> = Vec::new();
    let ghost mut done: Seq<Seq<char>> = Seq::empty();
    let mut cur = from;
    let mut i = from;
    assert(rest.take(0) =~= Seq::<char>::empty());
    assert(text@.subrange(cur as int, i as int) =~= Seq::<char>::empty());
    assert(pieces(rest.take(0)) =~= done.push(text@.subrange(cur as int, i as int)));
    assert(out@.map_values(|r: Vec<char>| r@) =~= valid_names(done));
    while i < text.len()
        invariant
            from <= cur <= i <= text.len(),
            rest == text@.skip(from as int),
            pieces(rest.take((i - from) as int)) == done.push(text@.subrange(cur as int, i as int)),
            out@.map_values(|r: Vec<char>| r@) == valid_names(done),
        decreases text.len() - i,
    {
        let ghost p1 = rest.take((i + 1 - from) as int);
        let ghost piece = text@.subrange(cur as int, i as int);
        proof {
            lemma_take_step(text@, from as int, i as int);
            lemma_pieces_step(p1, done, piece);
        }
        let c = text[i];
        if c == ',' || is_ascii_whitespace_char(c) {
            push_valid_name(text, cur, i, &mut out);
            proof {
                lemma_valid_names_push(done, piece);
                done = done.push(piece);
            }
            cur = i + 1;
            i = i + 1;
            assert(text@.subrange(cur as int, i as int) =~= Seq::<char>::empty());
        } else {
            i = i + 1;
            assert(text@.subrange(cur as int, i as int) =~= piece.push(c));
        }
    }
    assert(rest.take((i - from) as int) =~= rest);
    push_valid_name(text, cur, i, &mut out);
    proof {
        lemma_valid_names_push(done, text@.subrange(cur as int, i as int));
    }
    out
}

/// The directive that the comment line `v[lo..hi]` at `line` holds, if any.
fn parse_comment(v: &Vec<char>, lo: usize, hi: usize, line: usize) -> (r: Option<Directive>)
    requires
        lo <= hi <= v.len(),
    ensures
        match r {
            Some(d) => directive_seq(line as int, v@.subrange(lo as int, hi as int)) == seq![
                d.view(),
            ],
            None => directive_seq(line as int, v@.subrange(lo as int, hi as int)).len() == 0,
        },
{
    let ghost comment = v@.subrange(lo as int, hi as int);
    let (a, b) = trim_bounds(v, lo, hi);
    let text = lower_slice(v, a, b);
    assert(text@ == lower(trim(comment)));
    let next_line = chars_of("messrust-disable-next-line");
    let disable = chars_of("messrust-disable");
    let enable = chars_of("messrust-enable");
    let (kind, cmd_len) = if command_rest_at(&text, &next_line) {
        (DirectiveKind::DisableNextLine, next_line.len())
    } else if command_rest_at(&text, &disable) {
        (DirectiveKind::Disable, disable.len())
    } else if command_rest_at(&text, &enable) {
        (DirectiveKind::Enable, enable.len())
    } else {
        return None;
    };
    let rules = rule_names_from(&text, cmd_len);
    if rules.len() == 0 {
        return None;
    }
    let d = Directive { line, kind, rules };
    assert(d.view().rules == rules@.map_values(|r: Vec<char>| r@));
    Some(d)
}


/// Appends the directives of the block comment text `v[a..b]`, whose first
/// line is `line`.
fn add_block_lines(v: &Vec<char>, a: usize, b: usize, line: usize, out: &mut Vec<Directive>)
    requires
        a <= b <= v.len(),
        line + (b - a) <= usize::MAX,
    ensures
        directives_view(final(out)@) == directives_view(old(out)@) + block_lines(
            v@,
            a as int,
            b as int,
            line as int,
        ),
{
    let mut cur = a;
    let mut ln = line;
    assert(directives_view(out@) + block_lines(v@, a as int, b as int, line as int)
        =~= directives_view(old(out)@) + block_lines(v@, a as int, b as int, line as int));
    while cur < b
        invariant
            a <= cur <= b <= v.len(),
            ln <= line + (cur - a),
            line + (b - a) <= usize::MAX,
            directives_view(old(out)@) + block_lines(v@, a as int, b as int, line as int)
                == directives_view(out@) + block_lines(v@, cur as int, b as int, ln as int),
        decreases b - cur,
    {
        let j = next_newline_at(v, cur, b);
        let ghost before = out@;
        if j >= b {
            if let Some(d) = parse_comment(v, cur, b, ln) {
                out.push(d);
            }
            assert(directives_view(out@) =~= directives_view(before) + block_lines(
                v@,
                cur as int,
                b as int,
                ln as int,
            ));
            assert(block_lines(v@, b as int, b as int, ln as int).len() == 0);
            assert(directives_view(out@) + block_lines(v@, b as int, b as int, ln as int)
                =~= directives_view(out@));
            cur = b;
        } else {
            let e = if j > cur && v[j - 1] == '\r' {
                j - 1
            } else {
                j
            };
            if let Some(d) = parse_comment(v, cur, e, ln) {
                out.push(d);
            }
            proof {
                let rest = block_lines(v@, (j + 1) as int, b as int, (ln + 1) as int);
                assert(block_lines(v@, cur as int, b as int, ln as int) == directive_seq(
                    ln as int,
                    v@.subrange(cur as int, e as int),
                ) + rest);
                assert(directives_view(out@) =~= directives_view(before) + directive_seq(
                    ln as int,
                    v@.subrange(cur as int, e as int),
                ));
                assert(directives_view(before) + (directive_seq(
                    ln as int,
                    v@.subrange(cur as int, e as int),
                ) + rest) =~= directives_view(out@) + rest);
            }
            cur = j + 1;
            ln = ln + 1;
        }
    }
}

/// The directives of the source `v`, or `None` when a literal ends in an
/// escape past the end of the source.
pub fn scan_directives(v: &Vec<char>) -> (r: Option<Vec<Directive>>)
    requires
        v.len() + 4 <= usize::MAX,
    ensures
        match r {
            Some(d) => source_directives(v@) == Some(directives_view(d@)),
            None => source_directives(v@) is None,
        },
{
    let mut out: Vec<Directive> = Vec::new();
    let mut index: usize = 0;
    let mut line: usize = 1;
    let ghost s = v@;
    assert(directives_view(out@) =~= Seq::<SpecDirective>::empty());
    assert(prepend(Seq::<SpecDirective>::empty(), scan_from(s, 0, 1)) =~= scan_from(s, 0, 1)) by {
        match scan_from(s, 0, 1) {
            Some(r) => {
                assert(Seq::<SpecDirective>::empty() + r =~= r);
            },
            None => {},
        }
    }
    while index < v.len()
        invariant
            index <= v.len(),
            s == v@,
            v.len() + 4 <= usize::MAX,
            1 <= line <= index + 2,
            source_directives(s) == prepend(
                directives_view(out@),
                scan_from(s, index as int, line as int),
            ),
        decreases v.len() - index,
    {
        let c = v[index];
        let ghost before = directives_view(out@);
        if c == '/' && index + 1 < v.len() && v[index + 1] == '/' {
            let end = next_newline_at(v, index + 2, v.len());
            if let Some(d) = parse_comment(v, index + 2, end, line) {
                out.push(d);
            }
            proof {
                let head = directive_seq(line as int, s.subrange(index + 2, end as int));
                assert(directives_view(out@) =~= before + head);
                lemma_prepend_assoc(before, head, scan_from(s, end as int, line as int));
            }
            index = end;
        } else if c == '/' && index + 1 < v.len() && v[index + 1] == '*' {
            let (resume, text_end) = block_comment_end(v, index + 2);
            proof {
                lemma_block_scan_bounds(s, index + 2, 1);
                lemma_newlines_bounds(s, index + 2, text_end as int);
            }
            add_block_lines(v, index + 2, text_end, line, &mut out);
            let count = newline_count(v, index + 2, text_end);
            proof {
                let head = block_lines(s, index + 2, text_end as int, line as int);
                lemma_prepend_assoc(
                    before,
                    head,
                    scan_from(s, resume as int, (line + count) as int),
                );
            }
            line = line + count;
            index = resume;
        } else if c == '\n' {
            line = line + 1;
            index = index + 1;
        } else if c == '"' {
            let end = skip_quoted_at(v, index + 1, '"');
            proof {
                lemma_skip_quoted_bounds(s, index + 1, '"');
            }
            if end > v.len() {
                return None;
            }
            let count = newline_count(v, index, end);
            proof {
                lemma_newlines_bounds(s, index as int, end as int);
            }
            line = line + count;
            index = end;
        } else if c == '\'' {
            let end = if looks_like_char_literal(v, index) {
                skip_quoted_at(v, index + 1, '\'')
            } else {
                index + 1
            };
            proof {
                lemma_skip_quoted_bounds(s, index + 1, '\'');
            }
            if end > v.len() {
                return None;
            }
            let count = newline_count(v, index, end);
            proof {
                lemma_newlines_bounds(s, index as int, end as int);
            }
            line = line + count;
            index = end;
        } else if c == 'r' || c == 'b' {
            proof {
                lemma_skip_raw_or_byte_bounds(s, index as int);
            }
            match skip_raw_or_byte_string(v, index) {
                Some(end) => {
                    if end > v.len() {
                        return None;
                    }
                    let count = newline_count(v, index, end);
                    proof {
                        lemma_newlines_bounds(s, index as int, end as int);
                    }
                    line = line + count;
                    index = end;
                },
                None => {
                    index = index + 1;
                },
            }
        } else {
            index = index + 1;
        }
    }
    assert(scan_from(s, index as int, line as int) == Some(Seq::<SpecDirective>::empty()));
    assert(directives_view(out@) + Seq::<SpecDirective>::empty() =~= directives_view(out@));
    Some(out)
}

proof fn lemma_prepend_assoc(
    a: Seq<SpecDirective>,
    b: Seq<SpecDirective>,
    rest: Option<Seq<SpecDirective>>,
)
    ensures
        prepend(a, prepend(b, rest)) == prepend(a + b, rest),
{
    match rest {
        Some(r) => {
            assert(a + (b + r) =~= (a + b) + r);
        },
        None => {},
    }
}


// ----- directive order ----------------------------------------------------

pub open spec fn lines_sorted(d: Seq<SpecDirective>) -> bool {
    forall|a: int, b: int| 0 <= a < b < d.len() ==> #[trigger] d[a].line <= #[trigger] d[b].line
}

pub open spec fn lines_within(d: Seq<SpecDirective>, lo: int, hi: int) -> bool {
    forall|k: int| #![trigger d[k]] 0 <= k < d.len() ==> lo <= d[k].line && d[k].line <= hi
}

pub open spec fn lines_from(d: Seq<SpecDirective>, lo: int) -> bool {
    forall|k: int| #![trigger d[k]] 0 <= k < d.len() ==> lo <= d[k].line
}

proof fn lemma_concat_sorted(a: Seq<SpecDirective>, b: Seq<SpecDirective>, lo: int, mid: int)
    requires
        lines_sorted(a),
        lines_sorted(b),
        lines_within(a, lo, mid),
        lines_from(b, mid),
        lo <= mid,
    ensures
        lines_sorted(a + b),
        lines_from(a + b, lo),
{
    assert forall|x: int, y: int| 0 <= x < y < (a + b).len() implies #[trigger] (a + b)[x].line
        <= #[trigger] (a + b)[y].line by {
        if y < a.len() {
        } else if x >= a.len() {
            assert((a + b)[x] == b[x - a.len()]);
            assert((a + b)[y] == b[y - a.len()]);
        } else {
            assert((a + b)[x] == a[x]);
            assert((a + b)[y] == b[y - a.len()]);
        }
    }
    assert forall|k: int| 0 <= k < (a + b).len() implies lo <= #[trigger] (a + b)[k].line by {
        if k < a.len() {
            assert((a + b)[k] == a[k]);
        } else {
            assert((a + b)[k] == b[k - a.len()]);
        }
    }
}

proof fn lemma_concat_within(
    a: Seq<SpecDirective>,
    b: Seq<SpecDirective>,
    lo: int,
    mid: int,
    hi_b: int,
    hi: int,
)
    requires
        lines_within(a, lo, mid),
        lines_within(b, mid, hi_b),
        lo <= mid <= hi_b <= hi,
    ensures
        lines_within(a + b, lo, hi),
{
    assert forall|k: int| 0 <= k < (a + b).len() implies lo <= #[trigger] (a + b)[k].line && (a
        + b)[k].line <= hi by {
        if k < a.len() {
            assert((a + b)[k] == a[k]);
        } else {
            assert((a + b)[k] == b[k - a.len()]);
        }
    }
}

proof fn lemma_block_lines_sorted(s: Seq<char>, a: int, b: int, line: int)
    requires
        0 <= a,
        b <= s.len(),
    ensures
        lines_sorted(block_lines(s, a, b, line)),
        lines_within(block_lines(s, a, b, line), line, line + newlines(s, a, b)),
    decreases b - a,
{
    lemma_newlines_bounds(s, a, b);
    if a < b {
        let j = next_newline(s, a, b);
        lemma_next_newline_bounds(s, a, b);
        if j < b {
            let e = if j > a && s[j - 1] == '\r' {
                j - 1
            } else {
                j
            };
            let head = directive_seq(line, s.subrange(a, e));
            lemma_block_lines_sorted(s, j + 1, b, line + 1);
            lemma_newlines_split(s, a, j, b);
            lemma_newlines_split(s, j, j + 1, b);
            lemma_newlines_bounds(s, a, j);
            assert(newlines(s, j, j + 1) == 1) by {
                assert(newlines(s, j, j) == 0);
            }
            let rest = block_lines(s, j + 1, b, line + 1);
            lemma_concat_sorted(head, rest, line, line + 1);
            assert forall|k: int| 0 <= k < (head + rest).len() implies #[trigger] (head
                + rest)[k].line <= line + newlines(s, a, b) by {
                if k < head.len() {
                    assert((head + rest)[k] == head[k]);
                } else {
                    assert((head + rest)[k] == rest[k - head.len()]);
                }
            }
        }
    }
}

proof fn lemma_scan_sorted(s: Seq<char>, i: int, line: int)
    ensures
        scan_from(s, i, line) matches Some(d) ==> lines_sorted(d) && lines_from(d, line) && (0
            <= i <= s.len() ==> lines_within(d, line, line + 2 * (s.len() - i))),
    decreases s.len() - i,
{
    if i < 0 || i >= s.len() {
    } else if s[i] == '/' && i + 1 < s.len() && s[i + 1] == '/' {
        let end = next_newline(s, i + 2, s.len() as int);
        lemma_next_newline_bounds(s, i + 2, s.len() as int);
        lemma_scan_sorted(s, end, line);
        if let Some(rest) = scan_from(s, end, line) {
            let head = directive_seq(line, s.subrange(i + 2, end));
            lemma_concat_sorted(head, rest, line, line);
            lemma_concat_within(head, rest, line, line, line + 2 * (s.len() - end), line + 2 * (
            s.len() - i));
        }
    } else if s[i] == '/' && i + 1 < s.len() && s[i + 1] == '*' {
        let r = block_scan(s, i + 2, 1);
        lemma_block_scan_bounds(s, i + 2, 1);
        lemma_newlines_bounds(s, i + 2, r.1);
        lemma_block_lines_sorted(s, i + 2, r.1, line);
        let next = line + newlines(s, i + 2, r.1);
        lemma_scan_sorted(s, r.0, next);
        if let Some(rest) = scan_from(s, r.0, next) {
            lemma_concat_sorted(block_lines(s, i + 2, r.1, line), rest, line, next);
            lemma_concat_within(
                block_lines(s, i + 2, r.1, line),
                rest,
                line,
                next,
                next + 2 * (s.len() - r.0),
                line + 2 * (s.len() - i),
            );
        }
    } else if s[i] == '\n' {
        lemma_scan_sorted(s, i + 1, line + 1);
    } else if s[i] == '"' {
        let end = skip_quoted(s, i + 1, '"');
        lemma_skip_quoted_bounds(s, i + 1, '"');
        if end <= s.len() {
            lemma_newlines_bounds(s, i, end);
            lemma_scan_sorted(s, end, line + newlines(s, i, end));
        }
    } else if s[i] == '\'' {
        let end = if looks_like_char(s, i) {
            skip_quoted(s, i + 1, '\'')
        } else {
            i + 1
        };
        lemma_skip_quoted_bounds(s, i + 1, '\'');
        if end <= s.len() {
            lemma_newlines_bounds(s, i, end);
            lemma_scan_sorted(s, end, line + newlines(s, i, end));
        }
    } else if s[i] == 'r' || s[i] == 'b' {
        lemma_skip_raw_or_byte_bounds(s, i);
        match skip_raw_or_byte(s, i) {
            Some(end) => {
                if end <= s.len() {
                    lemma_newlines_bounds(s, i, end);
                    lemma_scan_sorted(s, end, line + newlines(s, i, end));
                }
            },
            None => {
                lemma_scan_sorted(s, i + 1, line);
            },
        }
    } else {
        lemma_scan_sorted(s, i + 1, line);
    }
}


// ----- what the directives suppress ----------------------------------------

/// Whether the directive at index `k` of `ds` is a `kind` directive that
/// names `r`.
pub open spec fn marks(ds: Seq<SpecDirective>, kind: DirectiveKind, r: Seq<char>, k: int) -> bool {
    0 <= k < ds.len() && ds[k].kind == kind && ds[k].rules.contains(r)
}

/// Whether an enable directive for `r` stands on a line after the directive
/// at `k` and at or before line `x`.
pub open spec fn enabled_between(ds: Seq<SpecDirective>, r: Seq<char>, k: int, x: int) -> bool {
    exists|m: int|
        #[trigger] marks(ds, DirectiveKind::Enable, r, m) && ds[k].line < ds[m].line && ds[m].line
            <= x
}

/// Whether line `x` lies in a disabled region of `r`: a disable directive
/// for `r` stands on an earlier line, and no enable directive for `r`
/// stands after it up to `x`.
pub open spec fn in_region(ds: Seq<SpecDirective>, r: Seq<char>, x: int) -> bool {
    exists|k: int|
        #[trigger] marks(ds, DirectiveKind::Disable, r, k) && ds[k].line < x && !enabled_between(
            ds,
            r,
            k,
            x,
        )
}

/// Whether a disable-next-line directive for `r` stands on the line before `x`.
pub open spec fn marked_next_line(ds: Seq<SpecDirective>, r: Seq<char>, x: int) -> bool {
    exists|k: int| #[trigger] marks(ds, DirectiveKind::DisableNextLine, r, k) && ds[k].line + 1 == x
}

/// Whether the directives `ds` suppress findings of the (lower-case) rule
/// `r` on line `x`.
pub open spec fn suppressed_by(ds: Seq<SpecDirective>, x: int, r: Seq<char>) -> bool {
    marked_next_line(ds, r, x) || in_region(ds, r, x)
}

// ----- building the suppressions of one rule -------------------------------

pub open spec fn marks_before(
    ds: Seq<SpecDirective>,
    kind: DirectiveKind,
    r: Seq<char>,
    k: int,
    n: int,
) -> bool {
    marks(ds, kind, r, k) && k < n
}

pub open spec fn enabled_after_before(ds: Seq<SpecDirective>, r: Seq<char>, k: int, n: int) -> bool {
    exists|m: int|
        #[trigger] marks_before(ds, DirectiveKind::Enable, r, m, n) && ds[k].line < ds[m].line
}

pub open spec fn enabled_between_before(
    ds: Seq<SpecDirective>,
    r: Seq<char>,
    k: int,
    x: int,
    n: int,
) -> bool {
    exists|m: int|
        #[trigger] marks_before(ds, DirectiveKind::Enable, r, m, n) && ds[k].line < ds[m].line
            && ds[m].line <= x
}

pub open spec fn open_before(ds: Seq<SpecDirective>, r: Seq<char>, k: int, n: int) -> bool {
    marks_before(ds, DirectiveKind::Disable, r, k, n) && !enabled_after_before(ds, r, k, n)
}

pub open spec fn closed_before(ds: Seq<SpecDirective>, r: Seq<char>, x: int, n: int) -> bool {
    exists|k: int, m: int|
        #[trigger] marks_before(ds, DirectiveKind::Disable, r, k, n) && #[trigger] marks_before(
            ds,
            DirectiveKind::Enable,
            r,
            m,
            n,
        ) && ds[k].line < x && x < ds[m].line && !enabled_between_before(ds, r, k, x, n)
}

pub open spec fn covered(iv: Seq<(usize, usize)>, x: int) -> bool {
    exists|j: int| 0 <= j < iv.len() && (#[trigger] iv[j]).0 <= x && x <= iv[j].1
}

pub open spec fn active_inv(ds: Seq<SpecDirective>, r: Seq<char>, n: int, active: Option<usize>) -> bool {
    &&& (active is Some <==> exists|k: int| #[trigger] open_before(ds, r, k, n))
    &&& (active matches Some(st) ==> (exists|k: int|
        #[trigger] open_before(ds, r, k, n) && st == ds[k].line + 1) && (forall|k: int|
        #[trigger] open_before(ds, r, k, n) ==> st <= ds[k].line + 1))
}

pub open spec fn intervals_inv(ds: Seq<SpecDirective>, r: Seq<char>, n: int, iv: Seq<(usize, usize)>) -> bool {
    forall|x: int| #[trigger] covered(iv, x) <==> closed_before(ds, r, x, n)
}

pub open spec fn listed(lines: Seq<usize>, x: int) -> bool {
    exists|j: int| 0 <= j < lines.len() && #[trigger] lines[j] == x
}

pub open spec fn lines_inv(ds: Seq<SpecDirective>, r: Seq<char>, n: int, lines: Seq<usize>) -> bool {
    forall|x: int|
        #[trigger] listed(lines, x) <==> (exists|k: int|
            #[trigger] marks_before(ds, DirectiveKind::DisableNextLine, r, k, n) && ds[k].line + 1
                == x)
}

/// The directives at `n..g` form one line `line`, after every earlier one.
pub open spec fn is_group(ds: Seq<SpecDirective>, n: int, g: int, line: int) -> bool {
    &&& 0 <= n < g <= ds.len()
    &&& forall|k: int| n <= k < g ==> #[trigger] ds[k].line == line
    &&& forall|k: int| 0 <= k < n ==> #[trigger] ds[k].line < line
}

pub open spec fn group_has(ds: Seq<SpecDirective>, kind: DirectiveKind, r: Seq<char>, n: int, g: int) -> bool {
    exists|k: int| n <= k < g && #[trigger] marks(ds, kind, r, k)
}

proof fn lemma_lines_step(
    ds: Seq<SpecDirective>,
    r: Seq<char>,
    n: int,
    g: int,
    line: int,
    lines: Seq<usize>,
)
    requires
        is_group(ds, n, g, line),
        lines_inv(ds, r, n, lines),
        0 <= line + 1 <= usize::MAX,
    ensures
        lines_inv(
            ds,
            r,
            g,
            if group_has(ds, DirectiveKind::DisableNextLine, r, n, g) {
                lines.push((line + 1) as usize)
            } else {
                lines
            },
        ),
{
    let dnl = group_has(ds, DirectiveKind::DisableNextLine, r, n, g);
    let lines2 = if dnl {
        lines.push((line + 1) as usize)
    } else {
        lines
    };
    assert forall|x: int|
        (exists|k: int|
            #[trigger] marks_before(ds, DirectiveKind::DisableNextLine, r, k, g) && ds[k].line + 1
                == x) implies #[trigger] listed(lines2, x) by {
        let k = choose|k: int|
            #[trigger] marks_before(ds, DirectiveKind::DisableNextLine, r, k, g) && ds[k].line + 1
                == x;
        if k < n {
            assert(marks_before(ds, DirectiveKind::DisableNextLine, r, k, n));
            assert(listed(lines, x));
            let j = choose|j: int| 0 <= j < lines.len() && #[trigger] lines[j] == x;
            assert(lines2[j] == x);
        } else {
            assert(dnl);
            assert(lines2[lines.len() as int] == x);
        }
    }
    assert forall|x: int| #[trigger] listed(lines2, x) implies (exists|k: int|
        #[trigger] marks_before(ds, DirectiveKind::DisableNextLine, r, k, g) && ds[k].line + 1
            == x) by {
        {
            let j = choose|j: int| 0 <= j < lines2.len() && #[trigger] lines2[j] == x;
            if j < lines.len() {
                assert(lines[j] == x);
                assert(listed(lines, x));
                let k = choose|k: int|
                    #[trigger] marks_before(ds, DirectiveKind::DisableNextLine, r, k, n)
                        && ds[k].line + 1 == x;
                assert(marks_before(ds, DirectiveKind::DisableNextLine, r, k, g));
            } else {
                let k = choose|k: int|
                    n <= k < g && #[trigger] marks(ds, DirectiveKind::DisableNextLine, r, k);
                assert(marks_before(ds, DirectiveKind::DisableNextLine, r, k, g));
            }
        }
    }
}

proof fn lemma_active_step(
    ds: Seq<SpecDirective>,
    r: Seq<char>,
    n: int,
    g: int,
    line: int,
    active: Option<usize>,
    after: Option<usize>,
)
    requires
        is_group(ds, n, g, line),
        active_inv(ds, r, n, active),
        0 <= line + 1 <= usize::MAX,
        after == if group_has(ds, DirectiveKind::Disable, r, n, g) && (group_has(
            ds,
            DirectiveKind::Enable,
            r,
            n,
            g,
        ) || active is None) {
            Some((line + 1) as usize)
        } else if group_has(ds, DirectiveKind::Enable, r, n, g) {
            None
        } else {
            active
        },
    ensures
        active_inv(ds, r, g, after),
{
    let en = group_has(ds, DirectiveKind::Enable, r, n, g);
    let dis = group_has(ds, DirectiveKind::Disable, r, n, g);
    // which directives are open after the group
    assert forall|k: int| 0 <= k < n implies #[trigger] open_before(ds, r, k, g) == (open_before(
        ds,
        r,
        k,
        n,
    ) && !en) by {
        if open_before(ds, r, k, g) {
            if enabled_after_before(ds, r, k, n) {
                let m = choose|m: int|
                    #[trigger] marks_before(ds, DirectiveKind::Enable, r, m, n) && ds[k].line
                        < ds[m].line;
                assert(marks_before(ds, DirectiveKind::Enable, r, m, g));
            }
            if en {
                let m = choose|m: int| n <= m < g && #[trigger] marks(ds, DirectiveKind::Enable, r, m);
                assert(marks_before(ds, DirectiveKind::Enable, r, m, g));
            }
        }
        if open_before(ds, r, k, n) && !en {
            if enabled_after_before(ds, r, k, g) {
                let m = choose|m: int|
                    #[trigger] marks_before(ds, DirectiveKind::Enable, r, m, g) && ds[k].line
                        < ds[m].line;
                if m < n {
                    assert(marks_before(ds, DirectiveKind::Enable, r, m, n));
                } else {
                    assert(group_has(ds, DirectiveKind::Enable, r, n, g));
                }
            }
        }
    }
    assert forall|k: int| n <= k < g implies #[trigger] open_before(ds, r, k, g) == marks(
        ds,
        DirectiveKind::Disable,
        r,
        k,
    ) by {
        if enabled_after_before(ds, r, k, g) {
            let m = choose|m: int|
                #[trigger] marks_before(ds, DirectiveKind::Enable, r, m, g) && ds[k].line
                    < ds[m].line;
        }
    }
    if after is Some {
        let st = after->0;
        if dis && (en || active is None) {
            let k0 = choose|k: int| n <= k < g && #[trigger] marks(ds, DirectiveKind::Disable, r, k);
            assert(open_before(ds, r, k0, g));
            assert forall|k: int| #[trigger] open_before(ds, r, k, g) implies st <= ds[k].line
                + 1 by {
                if k < n {
                    if !en {
                        assert(open_before(ds, r, k, n));
                    }
                }
            }
        } else {
            let k0 = choose|k: int| #[trigger] open_before(ds, r, k, n) && st == ds[k].line + 1;
            assert(open_before(ds, r, k0, g));
            assert forall|k: int| #[trigger] open_before(ds, r, k, g) implies st <= ds[k].line
                + 1 by {
                if k < n {
                    assert(open_before(ds, r, k, n));
                }
            }
        }
    } else {
        assert forall|k: int| !#[trigger] open_before(ds, r, k, g) by {
            if open_before(ds, r, k, g) {
                if k < n {
                    assert(open_before(ds, r, k, n));
                } else {
                    assert(dis);
                }
            }
        }
    }
}

proof fn lemma_intervals_step(
    ds: Seq<SpecDirective>,
    r: Seq<char>,
    n: int,
    g: int,
    line: int,
    active: Option<usize>,
    iv: Seq<(usize, usize)>,
)
    requires
        is_group(ds, n, g, line),
        active_inv(ds, r, n, active),
        intervals_inv(ds, r, n, iv),
        1 <= line <= usize::MAX,
    ensures
        intervals_inv(
            ds,
            r,
            g,
            if group_has(ds, DirectiveKind::Enable, r, n, g) && active is Some && active->0 <= line
                - 1 {
                iv.push((active->0, (line - 1) as usize))
            } else {
                iv
            },
        ),
{
    let en = group_has(ds, DirectiveKind::Enable, r, n, g);
    let pushed = en && active is Some && active->0 <= line - 1;
    let iv2 = if pushed {
        iv.push((active->0, (line - 1) as usize))
    } else {
        iv
    };
    assert forall|x: int| #[trigger] covered(iv2, x) implies closed_before(ds, r, x, g) by {
        let j = choose|j: int| 0 <= j < iv2.len() && (#[trigger] iv2[j]).0 <= x && x <= iv2[j].1;
        if j < iv.len() {
            assert(iv2[j] == iv[j]);
            assert(covered(iv, x));
            assert(closed_before(ds, r, x, n));
            let (k, m) = choose|k: int, m: int|
                #[trigger] marks_before(ds, DirectiveKind::Disable, r, k, n) && #[trigger] marks_before(
                    ds,
                    DirectiveKind::Enable,
                    r,
                    m,
                    n,
                ) && ds[k].line < x && x < ds[m].line && !enabled_between_before(ds, r, k, x, n);
            assert(marks_before(ds, DirectiveKind::Disable, r, k, g));
            assert(marks_before(ds, DirectiveKind::Enable, r, m, g));
            if enabled_between_before(ds, r, k, x, g) {
                let m2 = choose|m2: int|
                    #[trigger] marks_before(ds, DirectiveKind::Enable, r, m2, g) && ds[k].line
                        < ds[m2].line && ds[m2].line <= x;
                if m2 < n {
                    assert(marks_before(ds, DirectiveKind::Enable, r, m2, n));
                }
            }
        } else {
            let st = active->0;
            let k0 = choose|k: int| #[trigger] open_before(ds, r, k, n) && st == ds[k].line + 1;
            let m = choose|m: int| n <= m < g && #[trigger] marks(ds, DirectiveKind::Enable, r, m);
            assert(marks_before(ds, DirectiveKind::Disable, r, k0, g));
            assert(marks_before(ds, DirectiveKind::Enable, r, m, g));
            if enabled_between_before(ds, r, k0, x, g) {
                let m2 = choose|m2: int|
                    #[trigger] marks_before(ds, DirectiveKind::Enable, r, m2, g) && ds[k0].line
                        < ds[m2].line && ds[m2].line <= x;
                if m2 < n {
                    assert(marks_before(ds, DirectiveKind::Enable, r, m2, n));
                    assert(enabled_after_before(ds, r, k0, n));
                }
            }
        }
    }
    assert forall|x: int| closed_before(ds, r, x, g) implies #[trigger] covered(iv2, x) by {
        let (k, m) = choose|k: int, m: int|
            #[trigger] marks_before(ds, DirectiveKind::Disable, r, k, g) && #[trigger] marks_before(
                ds,
                DirectiveKind::Enable,
                r,
                m,
                g,
            ) && ds[k].line < x && x < ds[m].line && !enabled_between_before(ds, r, k, x, g);
        if k >= n {
            assert(ds[k].line == line);
        }
        assert(k < n);
        let was_closed = closed_before(ds, r, x, n);
        if was_closed {
            assert(covered(iv, x));
            let j = choose|j: int| 0 <= j < iv.len() && (#[trigger] iv[j]).0 <= x && x <= iv[j].1;
            assert(iv2[j] == iv[j]);
        } else {
            if m < n {
                assert(marks_before(ds, DirectiveKind::Disable, r, k, n));
                assert(marks_before(ds, DirectiveKind::Enable, r, m, n));
                if enabled_between_before(ds, r, k, x, n) {
                    let m2 = choose|m2: int|
                        #[trigger] marks_before(ds, DirectiveKind::Enable, r, m2, n) && ds[k].line
                            < ds[m2].line && ds[m2].line <= x;
                    assert(marks_before(ds, DirectiveKind::Enable, r, m2, g));
                }
                assert(closed_before(ds, r, x, n));
            }
            assert(n <= m < g);
            assert(en);
            // the disable at k is still open before the group
            if enabled_after_before(ds, r, k, n) {
                let m2 = choose|m2: int|
                    #[trigger] marks_before(ds, DirectiveKind::Enable, r, m2, n) && ds[k].line
                        < ds[m2].line;
                assert(marks_before(ds, DirectiveKind::Enable, r, m2, g));
                if ds[m2].line <= x {
                    assert(enabled_between_before(ds, r, k, x, g));
                } else {
                    assert(marks_before(ds, DirectiveKind::Disable, r, k, n));
                    if enabled_between_before(ds, r, k, x, n) {
                        let m3 = choose|m3: int|
                            #[trigger] marks_before(ds, DirectiveKind::Enable, r, m3, n)
                                && ds[k].line < ds[m3].line && ds[m3].line <= x;
                        assert(marks_before(ds, DirectiveKind::Enable, r, m3, g));
                    }
                    assert(closed_before(ds, r, x, n));
                }
            }
            assert(open_before(ds, r, k, n));
            let st = active->0;
            assert(st <= ds[k].line + 1);
            assert(pushed);
            assert(iv2[iv.len() as int] == (st, (line - 1) as usize));
        }
    }
}

proof fn lemma_final_cover(
    ds: Seq<SpecDirective>,
    r: Seq<char>,
    active: Option<usize>,
    iv: Seq<(usize, usize)>,
    lines: Seq<usize>,
    x: int,
)
    requires
        active_inv(ds, r, ds.len() as int, active),
        intervals_inv(ds, r, ds.len() as int, iv),
        lines_inv(ds, r, ds.len() as int, lines),
        0 <= x <= usize::MAX,
    ensures
        (covered(
            if active is Some {
                iv.push((active->0, usize::MAX))
            } else {
                iv
            },
            x,
        ) || listed(lines, x)) == suppressed_by(ds, x, r),
{
    let n = ds.len() as int;
    let fin = if active is Some {
        iv.push((active->0, usize::MAX))
    } else {
        iv
    };
    // next-line marks
    if marked_next_line(ds, r, x) {
        let k = choose|k: int|
            #[trigger] marks(ds, DirectiveKind::DisableNextLine, r, k) && ds[k].line + 1 == x;
        assert(marks_before(ds, DirectiveKind::DisableNextLine, r, k, n));
        assert(listed(lines, x));
    }
    if listed(lines, x) {
        let k = choose|k: int|
            #[trigger] marks_before(ds, DirectiveKind::DisableNextLine, r, k, n) && ds[k].line + 1
                == x;
        assert(marks(ds, DirectiveKind::DisableNextLine, r, k));
    }
    // regions
    if covered(fin, x) {
        let j = choose|j: int| 0 <= j < fin.len() && (#[trigger] fin[j]).0 <= x && x <= fin[j].1;
        if j < iv.len() {
            assert(fin[j] == iv[j]);
            assert(covered(iv, x));
            let (k, m) = choose|k: int, m: int|
                #[trigger] marks_before(ds, DirectiveKind::Disable, r, k, n) && #[trigger] marks_before(
                    ds,
                    DirectiveKind::Enable,
                    r,
                    m,
                    n,
                ) && ds[k].line < x && x < ds[m].line && !enabled_between_before(ds, r, k, x, n);
            if enabled_between(ds, r, k, x) {
                let m2 = choose|m2: int|
                    #[trigger] marks(ds, DirectiveKind::Enable, r, m2) && ds[k].line < ds[m2].line
                        && ds[m2].line <= x;
                assert(marks_before(ds, DirectiveKind::Enable, r, m2, n));
            }
            assert(marks(ds, DirectiveKind::Disable, r, k));
            assert(in_region(ds, r, x));
        } else {
            let st = active->0;
            let k0 = choose|k: int| #[trigger] open_before(ds, r, k, n) && st == ds[k].line + 1;
            if enabled_between(ds, r, k0, x) {
                let m2 = choose|m2: int|
                    #[trigger] marks(ds, DirectiveKind::Enable, r, m2) && ds[k0].line < ds[m2].line
                        && ds[m2].line <= x;
                assert(marks_before(ds, DirectiveKind::Enable, r, m2, n));
                assert(enabled_after_before(ds, r, k0, n));
            }
            assert(marks(ds, DirectiveKind::Disable, r, k0));
            assert(in_region(ds, r, x));
        }
    }
    if in_region(ds, r, x) {
        let k = choose|k: int|
            #[trigger] marks(ds, DirectiveKind::Disable, r, k) && ds[k].line < x && !enabled_between(
                ds,
                r,
                k,
                x,
            );
        assert(marks_before(ds, DirectiveKind::Disable, r, k, n));
        if enabled_after_before(ds, r, k, n) {
            let m = choose|m: int|
                #[trigger] marks_before(ds, DirectiveKind::Enable, r, m, n) && ds[k].line
                    < ds[m].line;
            assert(marks(ds, DirectiveKind::Enable, r, m));
            if enabled_between_before(ds, r, k, x, n) {
                let m2 = choose|m2: int|
                    #[trigger] marks_before(ds, DirectiveKind::Enable, r, m2, n) && ds[k].line
                        < ds[m2].line && ds[m2].line <= x;
                assert(marks(ds, DirectiveKind::Enable, r, m2));
            }
            assert(closed_before(ds, r, x, n));
            assert(covered(iv, x));
            let j = choose|j: int| 0 <= j < iv.len() && (#[trigger] iv[j]).0 <= x && x <= iv[j].1;
            assert(fin[j] == iv[j]);
        } else {
            assert(open_before(ds, r, k, n));
            assert(fin[iv.len() as int] == (active->0, usize::MAX));
        }
    }
}

/// Where one rule is suppressed: closed line intervals and single lines.
pub struct RuleSuppressions {
    rule: Vec<char>,
    intervals: Vec<(usize, usize)>,
    lines: Vec<usize>,
}

impl RuleSuppressions {
    pub closed spec fn name(&self) -> Seq<char> {
        self.rule@
    }

    /// The closed line intervals.
    pub closed spec fn interval_list(&self) -> Seq<(usize, usize)> {
        self.intervals@
    }

    /// The single lines.
    pub closed spec fn line_list(&self) -> Seq<usize> {
        self.lines@
    }

    /// Whether this rule is suppressed on line `x`.
    pub open spec fn covers(&self, x: int) -> bool {
        covered(self.interval_list(), x) || listed(self.line_list(), x)
    }

    /// The closed line intervals where the rule is suppressed.
    pub fn intervals(&self) -> (r: &Vec<(usize, usize)>)
        ensures
            r@ == self.interval_list(),
    {
        &self.intervals
    }

    /// The single lines where the rule is suppressed.
    pub fn lines(&self) -> (r: &Vec<usize>)
        ensures
            r@ == self.line_list(),
    {
        &self.lines
    }
}

fn names_rule_exec(d: &Directive, rule: &Vec<char>) -> (b: bool)
    ensures
        b == d.view().rules.contains(rule@),
{
    let mut i: usize = 0;
    while i < d.rules.len()
        invariant
            i <= d.rules.len(),
            forall|k: int| 0 <= k < i ==> d.rules@[k]@ != rule@,
        decreases d.rules.len() - i,
    {
        if crate::text::chars_eq(&d.rules[i], rule) {
            assert(d.view().rules[i as int] == rule@);
            return true;
        }
        i = i + 1;
    }
    assert(!d.view().rules.contains(rule@)) by {
        if d.view().rules.contains(rule@) {
            let k = choose|k: int| 0 <= k < d.view().rules.len() && d.view().rules[k] == rule@;
            assert(d.rules@[k]@ == rule@);
        }
    }
    false
}

fn group_flags(dirs: &Vec<Directive>, n: usize, g: usize, rule: &Vec<char>) -> (r: (bool, bool, bool))
    requires
        n <= g <= dirs.len(),
    ensures
        r.0 == group_has(directives_view(dirs@), DirectiveKind::Enable, rule@, n as int, g as int),
        r.1 == group_has(directives_view(dirs@), DirectiveKind::Disable, rule@, n as int, g as int),
        r.2 == group_has(
            directives_view(dirs@),
            DirectiveKind::DisableNextLine,
            rule@,
            n as int,
            g as int,
        ),
{
    let ghost ds = directives_view(dirs@);
    let mut en = false;
    let mut dis = false;
    let mut dnl = false;
    let mut k = n;
    while k < g
        invariant
            n <= k <= g <= dirs.len(),
            ds == directives_view(dirs@),
            en == group_has(ds, DirectiveKind::Enable, rule@, n as int, k as int),
            dis == group_has(ds, DirectiveKind::Disable, rule@, n as int, k as int),
            dnl == group_has(ds, DirectiveKind::DisableNextLine, rule@, n as int, k as int),
        decreases g - k,
    {
        let named = names_rule_exec(&dirs[k], rule);
        assert(ds[k as int] == dirs@[k as int].view());
        proof {
            assert forall|kind: DirectiveKind| #[trigger] group_has(ds, kind, rule@, n as int, (k + 1) as int)
                == (group_has(ds, kind, rule@, n as int, k as int) || marks(ds, kind, rule@, k as int)) by {
                if group_has(ds, kind, rule@, n as int, (k + 1) as int) {
                    let j = choose|j: int| n <= j < k + 1 && #[trigger] marks(ds, kind, rule@, j);
                    if j < k {
                        assert(group_has(ds, kind, rule@, n as int, k as int));
                    }
                }
                if group_has(ds, kind, rule@, n as int, k as int) {
                    let j = choose|j: int| n <= j < k && #[trigger] marks(ds, kind, rule@, j);
                    assert(n <= j < k + 1);
                }
            }
        }
        if named {
            match dirs[k].kind {
                DirectiveKind::Enable => {
                    en = true;
                },
                DirectiveKind::Disable => {
                    dis = true;
                },
                DirectiveKind::DisableNextLine => {
                    dnl = true;
                },
            }
        }
        k = k + 1;
    }
    (en, dis, dnl)
}

/// The suppressions of one (lower-case) rule under the directives `dirs`.
fn build_rule(dirs: &Vec<Directive>, rule: &Vec<char>) -> (rs: RuleSuppressions)
    requires
        lines_sorted(directives_view(dirs@)),
        lines_from(directives_view(dirs@), 1),
        forall|k: int| 0 <= k < dirs.len() ==> #[trigger] dirs@[k].line < usize::MAX,
    ensures
        rs.name() == rule@,
        forall|x: int| 0 <= x <= usize::MAX ==> #[trigger] rs.covers(x) == suppressed_by(
            directives_view(dirs@),
            x,
            rule@,
        ),
{
    let ghost ds = directives_view(dirs@);
    let mut active: Option<usize> = None;
    let mut intervals: Vec<(usize, usize)> = Vec::new();
    let mut lines: Vec<usize> = Vec::new();
    let mut n: usize = 0;
    assert(active_inv(ds, rule@, 0, active));
    assert(intervals_inv(ds, rule@, 0, intervals@));
    assert(lines_inv(ds, rule@, 0, lines@));
    while n < dirs.len()
        invariant
            n <= dirs.len(),
            ds == directives_view(dirs@),
            lines_sorted(ds),
            lines_from(ds, 1),
            forall|k: int| 0 <= k < dirs.len() ==> #[trigger] dirs@[k].line < usize::MAX,
            n > 0 && n < dirs.len() ==> ds[n - 1].line < ds[n as int].line,
            active_inv(ds, rule@, n as int, active),
            intervals_inv(ds, rule@, n as int, intervals@),
            lines_inv(ds, rule@, n as int, lines@),
        decreases dirs.len() - n,
    {
        let line = dirs[n].line;
        assert(ds[n as int].line == line);
        let mut g = n + 1;
        while g < dirs.len() && dirs[g].line == line
            invariant
                n < g <= dirs.len(),
                ds == directives_view(dirs@),
                forall|k: int| n <= k < g ==> #[trigger] ds[k].line == line,
            decreases dirs.len() - g,
        {
            assert(ds[g as int].line == dirs@[g as int].line);
            g = g + 1;
        }
        proof {
            assert forall|k: int| 0 <= k < n implies #[trigger] ds[k].line < line by {
                assert(ds[k].line <= ds[n - 1].line);
            }
            assert(is_group(ds, n as int, g as int, line as int));
            if g < dirs.len() {
                assert(ds[g as int].line == dirs@[g as int].line);
                assert(ds[g - 1].line <= ds[g as int].line);
            }
            assert(ds[n as int].line >= 1);
        }
        let (en, dis, dnl) = group_flags(dirs, n, g, rule);
        proof {
            lemma_lines_step(ds, rule@, n as int, g as int, line as int, lines@);
            lemma_intervals_step(ds, rule@, n as int, g as int, line as int, active, intervals@);
        }
        let ghost before = active;
        if en {
            if let Some(start) = active {
                if start <= line - 1 {
                    intervals.push((start, line - 1));
                }
            }
            active = None;
        }
        if dis && active.is_none() {
            active = Some(line + 1);
        }
        if dnl {
            lines.push(line + 1);
        }
        proof {
            lemma_active_step(ds, rule@, n as int, g as int, line as int, before, active);
        }
        n = g;
    }
    let ghost closed_iv = intervals@;
    if let Some(start) = active {
        intervals.push((start, usize::MAX));
    }
    let rs = RuleSuppressions { rule: crate::text::slice_of(rule, 0, rule.len()), intervals, lines };
    assert(rule@.subrange(0, rule@.len() as int) =~= rule@);
    proof {
        assert forall|x: int| 0 <= x <= usize::MAX implies #[trigger] rs.covers(x) == suppressed_by(
            ds,
            x,
            rule@,
        ) by {
            lemma_final_cover(ds, rule@, active, closed_iv, lines@, x);
        }
    }
    rs
}

fn covers_line(rs: &RuleSuppressions, x: usize) -> (b: bool)
    ensures
        b == rs.covers(x as int),
{
    let mut j: usize = 0;
    while j < rs.lines.len()
        invariant
            j <= rs.lines.len(),
            forall|i: int| 0 <= i < j ==> rs.lines@[i] != x,
        decreases rs.lines.len() - j,
    {
        if rs.lines[j] == x {
            assert(listed(rs.lines@, x as int));
            return true;
        }
        j = j + 1;
    }
    let mut j: usize = 0;
    while j < rs.intervals.len()
        invariant
            j <= rs.intervals.len(),
            forall|i: int|
                0 <= i < j ==> !((#[trigger] rs.intervals@[i]).0 <= x && x <= rs.intervals@[i].1),
        decreases rs.intervals.len() - j,
    {
        let (start, end) = rs.intervals[j];
        if start <= x && x <= end {
            assert(covered(rs.intervals@, x as int));
            return false || true;
        }
        j = j + 1;
    }
    false
}

pub open spec fn has_name(names: Seq<Vec<char>>, r: Seq<char>) -> bool {
    exists|i: int| 0 <= i < names.len() && #[trigger] names[i]@ == r
}

proof fn lemma_has_name_push(names: Seq<Vec<char>>, x: Vec<char>)
    ensures
        forall|r: Seq<char>| #[trigger] has_name(names, r) ==> has_name(names.push(x), r),
        has_name(names.push(x), x@),
{
    assert forall|r: Seq<char>| #[trigger] has_name(names, r) implies has_name(names.push(x), r) by {
        let i = choose|i: int| 0 <= i < names.len() && #[trigger] names[i]@ == r;
        assert(names.push(x)[i]@ == r);
    }
    assert(names.push(x)[names.len() as int]@ == x@);
}

/// The distinct rule names that the directives list, in first-seen order.
fn named_rules(dirs: &Vec<Directive>) -> (names: Vec<Vec<char>>)
    ensures
        forall|i: int, j: int| 0 <= i < j < names.len() ==> names@[i]@ != names@[j]@,
        forall|k: int, r: Seq<char>|
            0 <= k < dirs.len() && #[trigger] directives_view(dirs@)[k].rules.contains(r)
                ==> has_name(names@, r),
{
    let ghost ds = directives_view(dirs@);
    let mut names: Vec<Vec<char>> = Vec::new();
    let mut k: usize = 0;
    while k < dirs.len()
        invariant
            k <= dirs.len(),
            ds == directives_view(dirs@),
            forall|i: int, j: int| 0 <= i < j < names.len() ==> names@[i]@ != names@[j]@,
            forall|kk: int, r: Seq<char>|
                0 <= kk < k && #[trigger] ds[kk].rules.contains(r) ==> has_name(names@, r),
        decreases dirs.len() - k,
    {
        let d = &dirs[k];
        assert(ds[k as int] == d.view());
        let mut q: usize = 0;
        while q < d.rules.len()
            invariant
                k < dirs.len(),
                d == &dirs@[k as int],
                ds == directives_view(dirs@),
                ds[k as int] == d.view(),
                q <= d.rules.len(),
                forall|i: int, j: int| 0 <= i < j < names.len() ==> names@[i]@ != names@[j]@,
                forall|kk: int, r: Seq<char>|
                    0 <= kk < k && #[trigger] ds[kk].rules.contains(r) ==> has_name(names@, r),
                forall|qq: int| 0 <= qq < q ==> has_name(names@, (#[trigger] d.rules@[qq])@),
            decreases d.rules.len() - q,
        {
            let mut i: usize = 0;
            let mut found = false;
            while i < names.len()
                invariant
                    q < d.rules.len(),
                    i <= names.len(),
                    !found ==> forall|ii: int| 0 <= ii < i ==> names@[ii]@ != d.rules@[q as int]@,
                    found ==> has_name(names@, d.rules@[q as int]@),
                decreases names.len() - i,
            {
                if !found && crate::text::chars_eq(&names[i], &d.rules[q]) {
                    found = true;
                }
                i = i + 1;
            }
            if !found {
                let name = crate::text::slice_of(&d.rules[q], 0, d.rules[q].len());
                assert(d.rules@[q as int]@.subrange(0, d.rules@[q as int]@.len() as int)
                    =~= d.rules@[q as int]@);
                proof {
                    lemma_has_name_push(names@, name);
                }
                names.push(name);
            }
            q = q + 1;
        }
        proof {
            assert forall|kk: int, r: Seq<char>|
                0 <= kk < k + 1 && #[trigger] ds[kk].rules.contains(r) implies has_name(
                names@,
                r,
            ) by {
                if kk == k {
                    let qq = choose|qq: int| 0 <= qq < ds[kk].rules.len() && ds[kk].rules[qq] == r;
                    assert(d.rules@[qq]@ == r);
                }
            }
        }
        k = k + 1;
    }
    names
}

/// Suppression state of one source, indexed by the lower-case rule name of
/// a finding.
pub struct Suppressions {
    by_rule: Vec<RuleSuppressions>,
}

impl Suppressions {
    #[verifier::type_invariant]
    spec fn distinct_rules(self) -> bool {
        forall|i: int, j: int|
            0 <= i < j < self.by_rule.len() ==> self.by_rule@[i].name() != self.by_rule@[j].name()
    }

    /// Whether findings of the lower-case rule `rule` on `line` are suppressed.
    pub closed spec fn suppresses(self, line: int, rule: Seq<char>) -> bool {
        exists|i: int|
            0 <= i < self.by_rule.len() && self.by_rule@[i].name() == rule
                && #[trigger] self.by_rule@[i].covers(line)
    }

    /// Reads the directives of `source`; `None` exactly when the source ends
    /// inside an escape of a literal, where the scan cannot go on.
    pub fn try_from_source(source: &str) -> (r: Option<Self>)
        requires
            2 * source@.len() + 4 <= usize::MAX,
        ensures
            r is None <==> source_directives(source@) is None,
            r matches Some(s) ==> forall|line: int, rule: Seq<char>|
                0 <= line <= usize::MAX ==> s.suppresses(line, rule) == suppressed_by(
                    source_directives(source@)->0,
                    line,
                    rule,
                ),
    {
        let v = chars_of(source);
        let dirs = match scan_directives(&v) {
            Some(d) => d,
            None => return None,
        };
        let ghost ds = directives_view(dirs@);
        proof {
            lemma_scan_sorted(v@, 0, 1);
            assert forall|k: int| 0 <= k < dirs.len() implies #[trigger] dirs@[k].line
                < usize::MAX by {
                assert(ds[k] == dirs@[k].view());
            }
        }
        let names = named_rules(&dirs);
        let mut by_rule: Vec<RuleSuppressions> = Vec::new();
        let mut i: usize = 0;
        while i < names.len()
            invariant
                i <= names.len(),
                ds == directives_view(dirs@),
                lines_sorted(ds),
                lines_from(ds, 1),
                forall|k: int| 0 <= k < dirs.len() ==> #[trigger] dirs@[k].line < usize::MAX,
                forall|a: int, b: int| 0 <= a < b < names.len() ==> names@[a]@ != names@[b]@,
                by_rule.len() == i,
                forall|j: int| 0 <= j < i ==> (#[trigger] by_rule@[j]).name() == names@[j]@,
                forall|j: int, x: int|
                    0 <= j < i && 0 <= x <= usize::MAX ==> #[trigger] by_rule@[j].covers(x)
                        == suppressed_by(ds, x, names@[j]@),
            decreases names.len() - i,
        {
            let rs = build_rule(&dirs, &names[i]);
            by_rule.push(rs);
            i = i + 1;
        }
        let s = Suppressions { by_rule };
        proof {
            assert forall|line: int, rule: Seq<char>|
                0 <= line <= usize::MAX implies s.suppresses(line, rule) == suppressed_by(
                ds,
                line,
                rule,
            ) by {
                if suppressed_by(ds, line, rule) {
                    let k = if marked_next_line(ds, rule, line) {
                        choose|k: int|
                            #[trigger] marks(ds, DirectiveKind::DisableNextLine, rule, k)
                                && ds[k].line + 1 == line
                    } else {
                        choose|k: int|
                            #[trigger] marks(ds, DirectiveKind::Disable, rule, k) && ds[k].line
                                < line && !enabled_between(ds, rule, k, line)
                    };
                    assert(ds[k].rules.contains(rule));
                    assert(has_name(names@, rule));
                    let j = choose|j: int| 0 <= j < names.len() && #[trigger] names@[j]@ == rule;
                    assert(s.by_rule@[j].covers(line));
                }
            }
        }
        Some(s)
    }

    /// Reads the directives of `source`.
    pub fn from_source(source: &str) -> (s: Self)
        requires
            2 * source@.len() + 4 <= usize::MAX,
            source_directives(source@) is Some,
        ensures
            forall|line: int, rule: Seq<char>|
                0 <= line <= usize::MAX ==> s.suppresses(line, rule) == suppressed_by(
                    source_directives(source@)->0,
                    line,
                    rule,
                ),
    {
        match Self::try_from_source(source) {
            Some(s) => s,
            None => Suppressions { by_rule: Vec::new() },
        }
    }

    /// Whether a finding of `rule` (any case) on `line` is suppressed.
    /// Where the rule named `rule` (in any case) is suppressed; `None` where
    /// no directive names it.
    pub fn rule_entry(&self, rule: &str) -> (r: Option<&RuleSuppressions>)
        ensures
            r matches Some(e) ==> e.name() == lower(rule@) && forall|x: int| #[trigger] e.covers(x) == self.suppresses(x, lower(rule@)),
            r is None ==> forall|x: int| !#[trigger] self.suppresses(x, lower(rule@)),
    {
        proof {
            use_type_invariant(self);
        }
        let chars = chars_of(rule);
        let key = lower_slice(&chars, 0, chars.len());
        assert(chars@.subrange(0, chars@.len() as int) =~= chars@);
        let mut i: usize = 0;
        while i < self.by_rule.len()
            invariant
                i <= self.by_rule.len(),
                key@ == lower(rule@),
                self.distinct_rules(),
                forall|j: int| 0 <= j < i ==> (#[trigger] self.by_rule@[j]).name() != key@,
            decreases self.by_rule.len() - i,
        {
            if crate::text::chars_eq(&self.by_rule[i].rule, &key) {
                assert(self.by_rule@[i as int].name() == key@);
                proof {
                    assert forall|x: int| #[trigger] self.by_rule@[i as int].covers(x) == self.suppresses(x, key@) by {
                        if self.by_rule@[i as int].covers(x) {
                            assert(self.suppresses(x, key@));
                        }
                        if self.suppresses(x, key@) {
                            let j = choose|j: int|
                                0 <= j < self.by_rule.len() && self.by_rule@[j].name() == key@
                                    && #[trigger] self.by_rule@[j].covers(x);
                            if j != i {
                                assert(self.by_rule@[i as int].name() == key@);
                            }
                        }
                    }
                }
                return Some(&self.by_rule[i]);
            }
            i = i + 1;
        }
        proof {
            assert forall|x: int| !#[trigger] self.suppresses(x, key@) by {
                if self.suppresses(x, key@) {
                    let j = choose|j: int|
                        0 <= j < self.by_rule.len() && self.by_rule@[j].name() == key@
                            && #[trigger] self.by_rule@[j].covers(x);
                    assert(self.by_rule@[j].name() != key@);
                }
            }
        }
        None
    }

    pub fn contains(&self, line: usize, rule: &str) -> (b: bool)
        ensures
            b == self.suppresses(line as int, lower(rule@)),
    {
        proof {
            use_type_invariant(self);
        }
        let chars = chars_of(rule);
        let key = lower_slice(&chars, 0, chars.len());
        assert(chars@.subrange(0, chars@.len() as int) =~= chars@);
        let mut i: usize = 0;
        while i < self.by_rule.len()
            invariant
                i <= self.by_rule.len(),
                key@ == lower(rule@),
                self.distinct_rules(),
                forall|j: int| 0 <= j < i ==> (#[trigger] self.by_rule@[j]).name() != key@,
            decreases self.by_rule.len() - i,
        {
            if crate::text::chars_eq(&self.by_rule[i].rule, &key) {
                let b = covers_line(&self.by_rule[i], line);
                assert(self.by_rule@[i as int].name() == key@);
                proof {
                    if b {
                        assert(self.by_rule@[i as int].covers(line as int));
                    }
                    if self.suppresses(line as int, key@) {
                        let j = choose|j: int|
                            0 <= j < self.by_rule.len() && self.by_rule@[j].name() == key@
                                && #[trigger] self.by_rule@[j].covers(line as int);
                        if j != i {
                            assert(self.by_rule@[i as int].name() == key@);
                        }
                    }
                }
                return b;
            }
            i = i + 1;
        }
        false
    }
}


/// The ASCII case of a comment does not change whether it is a directive,
/// what kind it is, or which rules it names: two comments that agree once
/// lower-cased are read alike.
pub proof fn law_directive_case_is_ignored(line: int, c1: Seq<char>, c2: Seq<char>)
    requires
        lower(c1) == lower(c2),
    ensures
        parse_directive(c1) == parse_directive(c2),
        directive_seq(line, c1) == directive_seq(line, c2),
{
    lemma_trim_lower(c1);
    lemma_trim_lower(c2);
    assert(lower(trim(c1)) == lower(trim(c2)));
}

/// A query reads its rule name without regard to ASCII case: `contains`
/// answers for a name exactly as for its lower-cased and its upper-cased
/// forms.
pub proof fn law_query_case_is_ignored(s: Suppressions, line: int, rule: Seq<char>)
    ensures
        s.suppresses(line, lower(lower(rule))) == s.suppresses(line, lower(rule)),
        s.suppresses(line, lower(upper(rule))) == s.suppresses(line, lower(rule)),
{
    lemma_lower_idempotent(rule);
    lemma_lower_upper(rule);
}

// ----- the case of a whole source ---------------------------------------------

/// Whether the letter at `i`, in either case, starts the prefix of a raw
/// or byte string literal: an `r` before `#`s and `"`, or a `b` before `"`
/// or `r`.
pub open spec fn string_prefix_letter(s: Seq<char>, i: int) -> bool {
    let c = lower_char(s[i]);
    ||| c == 'r' && 0 <= i + 1 + hash_run(s, i + 1) < s.len() && s[i + 1 + hash_run(s, i + 1)] == '"'
    ||| c == 'b' && i + 1 < s.len() && (s[i + 1] == '"' || lower_char(s[i + 1]) == 'r')
}

/// Two texts that differ only in the ASCII case of letters, none of them
/// a letter that starts a raw or byte string prefix.
pub open spec fn case_variants(s1: Seq<char>, s2: Seq<char>) -> bool {
    &&& s1.len() == s2.len()
    &&& lower(s1) == lower(s2)
    &&& forall|i: int| 0 <= i < s1.len() && s1[i] != s2[i] ==> !string_prefix_letter(s1, i)
}

proof fn lemma_case_pair(c: char, d: char)
    requires
        lower_char(c) == lower_char(d),
    ensures
        c == d || ((is_ascii_upper(c) || is_ascii_lower(c)) && (is_ascii_upper(d) || is_ascii_lower(d))),
{
    if is_ascii_upper(c) {
        assert(((c as u32) + 32) as char as u32 == (c as u32) + 32);
    }
    if is_ascii_upper(d) {
        assert(((d as u32) + 32) as char as u32 == (d as u32) + 32);
    }
}

proof fn lemma_same_at(s1: Seq<char>, s2: Seq<char>, i: int)
    requires
        case_variants(s1, s2),
        0 <= i < s1.len(),
    ensures
        lower_char(s1[i]) == lower_char(s2[i]),
        s1[i] == s2[i] || ((is_ascii_upper(s1[i]) || is_ascii_lower(s1[i])) && (is_ascii_upper(s2[i])
            || is_ascii_lower(s2[i]))),
{
    assert(lower(s1)[i] == lower(s2)[i]);
    lemma_case_pair(s1[i], s2[i]);
}

proof fn lemma_skip_quoted_same(s1: Seq<char>, s2: Seq<char>, i: int, q: char)
    requires
        case_variants(s1, s2),
        !is_ascii_upper(q) && !is_ascii_lower(q),
    ensures
        skip_quoted(s1, i, q) == skip_quoted(s2, i, q),
    decreases s1.len() + 1 - i,
{
    if 0 <= i < s1.len() {
        lemma_same_at(s1, s2, i);
        if s1[i] == '\\' {
            lemma_skip_quoted_same(s1, s2, i + 2, q);
        } else if s1[i] != q {
            lemma_skip_quoted_same(s1, s2, i + 1, q);
        }
    }
}

proof fn lemma_char_close_same(s1: Seq<char>, s2: Seq<char>, cur: int)
    requires
        case_variants(s1, s2),
    ensures
        char_close_from(s1, cur) == char_close_from(s2, cur),
    decreases s1.len() + 1 - cur,
{
    if 0 <= cur < s1.len() {
        lemma_same_at(s1, s2, cur);
        if s1[cur] == '\\' {
            lemma_char_close_same(s1, s2, cur + 2);
        } else if s1[cur] != '\'' && s1[cur] != '\n' {
            lemma_char_close_same(s1, s2, cur + 1);
        }
    }
}

proof fn lemma_looks_like_char_same(s1: Seq<char>, s2: Seq<char>, i: int)
    requires
        case_variants(s1, s2),
        0 <= i,
    ensures
        looks_like_char(s1, i) == looks_like_char(s2, i),
{
    if i + 1 < s1.len() {
        lemma_same_at(s1, s2, i + 1);
        if i + 2 < s1.len() {
            lemma_same_at(s1, s2, i + 2);
        }
        lemma_char_close_same(s1, s2, i + 2);
    }
}

proof fn lemma_hash_run_same(s1: Seq<char>, s2: Seq<char>, i: int)
    requires
        case_variants(s1, s2),
    ensures
        hash_run(s1, i) == hash_run(s2, i),
    decreases s1.len() - i,
{
    if 0 <= i < s1.len() {
        lemma_same_at(s1, s2, i);
        if s1[i] == '#' {
            lemma_hash_run_same(s1, s2, i + 1);
        }
    }
}

proof fn lemma_has_hashes_same(s1: Seq<char>, s2: Seq<char>, start: int, count: int)
    requires
        case_variants(s1, s2),
    ensures
        has_hashes(s1, start, count) == has_hashes(s2, start, count),
    decreases count,
{
    if count > 0 && 0 <= start < s1.len() {
        lemma_same_at(s1, s2, start);
        lemma_has_hashes_same(s1, s2, start + 1, count - 1);
    }
}

proof fn lemma_raw_close_same(s1: Seq<char>, s2: Seq<char>, cur: int, hashes: int)
    requires
        case_variants(s1, s2),
    ensures
        raw_close_from(s1, cur, hashes) == raw_close_from(s2, cur, hashes),
    decreases s1.len() - cur,
{
    if 0 <= cur < s1.len() {
        lemma_same_at(s1, s2, cur);
        lemma_has_hashes_same(s1, s2, cur + 1, hashes);
        lemma_raw_close_same(s1, s2, cur + 1, hashes);
    }
}

proof fn lemma_skip_raw_string_same(s1: Seq<char>, s2: Seq<char>, q: int)
    requires
        case_variants(s1, s2),
    ensures
        skip_raw_string(s1, q) == skip_raw_string(s2, q),
{
    lemma_hash_run_same(s1, s2, q);
    let quote = q + hash_run(s1, q);
    if 0 <= quote < s1.len() {
        lemma_same_at(s1, s2, quote);
    }
    lemma_raw_close_same(s1, s2, quote + 1, hash_run(s1, q));
}

proof fn lemma_block_scan_same(s1: Seq<char>, s2: Seq<char>, index: int, depth: int)
    requires
        case_variants(s1, s2),
    ensures
        block_scan(s1, index, depth) == block_scan(s2, index, depth),
    decreases s1.len() - index,
{
    if index >= 0 && index + 1 < s1.len() {
        lemma_same_at(s1, s2, index);
        lemma_same_at(s1, s2, index + 1);
        if s1[index] == '/' && s1[index + 1] == '*' {
            lemma_block_scan_same(s1, s2, index + 2, depth + 1);
        } else if s1[index] == '*' && s1[index + 1] == '/' {
            lemma_block_scan_same(s1, s2, index + 2, depth - 1);
        } else {
            lemma_block_scan_same(s1, s2, index + 1, depth);
        }
    }
}

proof fn lemma_next_newline_same(s1: Seq<char>, s2: Seq<char>, i: int, hi: int)
    requires
        case_variants(s1, s2),
        0 <= i,
        hi <= s1.len(),
    ensures
        next_newline(s1, i, hi) == next_newline(s2, i, hi),
    decreases hi - i,
{
    if i < hi {
        lemma_same_at(s1, s2, i);
        lemma_next_newline_same(s1, s2, i + 1, hi);
    }
}

proof fn lemma_newlines_same(s1: Seq<char>, s2: Seq<char>, a: int, b: int)
    requires
        case_variants(s1, s2),
        0 <= a,
        b <= s1.len(),
    ensures
        newlines(s1, a, b) == newlines(s2, a, b),
    decreases b - a,
{
    if a < b {
        lemma_same_at(s1, s2, b - 1);
        lemma_newlines_same(s1, s2, a, b - 1);
    }
}

proof fn lemma_comment_same(s1: Seq<char>, s2: Seq<char>, line: int, a: int, b: int)
    requires
        case_variants(s1, s2),
        0 <= a <= b <= s1.len(),
    ensures
        directive_seq(line, s1.subrange(a, b)) == directive_seq(line, s2.subrange(a, b)),
{
    assert(lower(s1.subrange(a, b)) =~= lower(s2.subrange(a, b))) by {
        assert forall|k: int| 0 <= k < b - a implies #[trigger] lower(s1.subrange(a, b))[k] == lower(s2.subrange(a, b))[k] by {
            assert(lower(s1)[a + k] == lower(s2)[a + k]);
        }
    }
    law_directive_case_is_ignored(line, s1.subrange(a, b), s2.subrange(a, b));
}

proof fn lemma_block_lines_same(s1: Seq<char>, s2: Seq<char>, a: int, b: int, line: int)
    requires
        case_variants(s1, s2),
        0 <= a,
        b <= s1.len(),
    ensures
        block_lines(s1, a, b, line) == block_lines(s2, a, b, line),
    decreases b - a,
{
    if a < b {
        lemma_next_newline_same(s1, s2, a, b);
        lemma_next_newline_bounds(s1, a, b);
        let j = next_newline(s1, a, b);
        if j >= b {
            lemma_comment_same(s1, s2, line, a, b);
        } else {
            if j > a {
                lemma_same_at(s1, s2, j - 1);
            }
            let e = if j > a && s1[j - 1] == '\r' { j - 1 } else { j };
            lemma_comment_same(s1, s2, line, a, e);
            lemma_block_lines_same(s1, s2, j + 1, b, line + 1);
        }
    }
}

proof fn lemma_scan_same(s1: Seq<char>, s2: Seq<char>, i: int, line: int)
    requires
        case_variants(s1, s2),
    ensures
        scan_from(s1, i, line) == scan_from(s2, i, line),
    decreases s1.len() - i, 1int,
{
    if 0 <= i < s1.len() {
        lemma_same_at(s1, s2, i);
        if i + 1 < s1.len() {
            lemma_same_at(s1, s2, i + 1);
        }
        if s1[i] == '/' && i + 1 < s1.len() && s1[i + 1] == '/' {
            lemma_next_newline_same(s1, s2, i + 2, s1.len() as int);
            lemma_next_newline_bounds(s1, i + 2, s1.len() as int);
            let end = next_newline(s1, i + 2, s1.len() as int);
            lemma_comment_same(s1, s2, line, i + 2, end);
            lemma_scan_same(s1, s2, end, line);
        } else if s1[i] == '/' && i + 1 < s1.len() && s1[i + 1] == '*' {
            lemma_block_scan_same(s1, s2, i + 2, 1);
            lemma_block_scan_bounds(s1, i + 2, 1);
            let r = block_scan(s1, i + 2, 1);
            lemma_block_lines_same(s1, s2, i + 2, r.1, line);
            lemma_newlines_same(s1, s2, i + 2, r.1);
            lemma_scan_same(s1, s2, r.0, line + newlines(s1, i + 2, r.1));
        } else if s1[i] == '\n' {
            lemma_scan_same(s1, s2, i + 1, line + 1);
        } else if s1[i] == '"' {
            lemma_skip_quoted_same(s1, s2, i + 1, '"');
            lemma_skip_quoted_bounds(s1, i + 1, '"');
            let end = skip_quoted(s1, i + 1, '"');
            if end <= s1.len() {
                lemma_newlines_same(s1, s2, i, end);
                lemma_scan_same(s1, s2, end, line + newlines(s1, i, end));
            }
        } else if s1[i] == '\'' {
            lemma_looks_like_char_same(s1, s2, i);
            lemma_skip_quoted_same(s1, s2, i + 1, '\'');
            lemma_skip_quoted_bounds(s1, i + 1, '\'');
            let end = if looks_like_char(s1, i) { skip_quoted(s1, i + 1, '\'') } else { i + 1 };
            if end <= s1.len() {
                lemma_newlines_same(s1, s2, i, end);
                lemma_scan_same(s1, s2, end, line + newlines(s1, i, end));
            }
        } else {
            lemma_scan_letter_same(s1, s2, i, line);
        }
    }
}

/// The scan at a character that starts no comment and is none of newline,
/// `"` and `'`.
proof fn lemma_scan_letter_same(s1: Seq<char>, s2: Seq<char>, i: int, line: int)
    requires
        case_variants(s1, s2),
        0 <= i < s1.len(),
        !(s1[i] == '/' && i + 1 < s1.len() && (s1[i + 1] == '/' || s1[i + 1] == '*')),
        s1[i] != '\n' && s1[i] != '"' && s1[i] != '\'',
    ensures
        scan_from(s1, i, line) == scan_from(s2, i, line),
    decreases s1.len() - i, 0int,
{
    lemma_same_at(s1, s2, i);
    lemma_scan_same(s1, s2, i + 1, line);
    lemma_hash_run_same(s1, s2, i + 1);
    lemma_skip_raw_string_same(s1, s2, i + 1);
    lemma_skip_raw_string_same(s1, s2, i + 2);
    lemma_skip_raw_or_byte_bounds(s1, i);
    lemma_skip_raw_or_byte_bounds(s2, i);
    if i + 1 < s1.len() {
        lemma_same_at(s1, s2, i + 1);
        lemma_skip_quoted_same(s1, s2, i + 2, '"');
        lemma_hash_run_same(s1, s2, i + 2);
        let k = i + 2 + hash_run(s1, i + 2);
        if 0 <= k < s1.len() {
            lemma_same_at(s1, s2, k);
        }
    }
    let k1 = i + 1 + hash_run(s1, i + 1);
    if 0 <= k1 < s1.len() {
        lemma_same_at(s1, s2, k1);
    }
    if s1[i] == s2[i] {
        if skip_raw_or_byte(s1, i) == skip_raw_or_byte(s2, i) {
            match skip_raw_or_byte(s1, i) {
                Some(end) => {
                    if end <= s1.len() {
                        lemma_newlines_same(s1, s2, i, end);
                        lemma_scan_same(s1, s2, end, line + newlines(s1, i, end));
                    }
                },
                None => {},
            }
        }
    }
}

/// The case of letters does not change which lines a source suppresses
/// for which rules: two sources that differ only in the ASCII case of
/// letters (none of them a letter that starts a raw or byte string prefix),
/// such as a source and the same source with its directive comments
/// upper-cased, hold the same directives, so that `Suppressions::from_source`
/// answers every query alike for both.
pub proof fn law_source_case_is_ignored(s1: Seq<char>, s2: Seq<char>)
    requires
        case_variants(s1, s2),
    ensures
        source_directives(s1) == source_directives(s2),
        forall|line: int, rule: Seq<char>|
            source_directives(s1) is Some ==> suppressed_by(source_directives(s1)->0, line, rule) == suppressed_by(
                source_directives(s2)->0,
                line,
                rule,
            ),
{
    lemma_scan_same(s1, s2, 0, 1);
}

} // verus!
