//! Effective lines: the lines of a source that hold code, as opposed to
//! blank lines and comments, counted over line ranges.

use vstd::prelude::*;
use crate::text::{chars_of, find_from, is_ascii_alnum, is_ascii_alpha, lemma_next_index_of, next_index_of, slice_of};
use crate::suppressions::{has_hashes, hash_run, lemma_skip_quoted_bounds, skip_quoted, skip_quoted_at};

verus! {

/// How many of the first `k` lines hold code.
pub open spec fn count_true(flags: Seq<bool>, k: int) -> nat
    decreases k,
{
    if k <= 0 {
        0
    } else {
        count_true(flags, k - 1) + if flags[k - 1] {
            1nat
        } else {
            0nat
        }
    }
}

pub proof fn lemma_count_true_mono(flags: Seq<bool>, a: int, b: int)
    requires
        0 <= a <= b,
    ensures
        count_true(flags, a) <= count_true(flags, b),
        count_true(flags, b) <= count_true(flags, a) + (b - a),
    decreases b - a,
{
    if a < b {
        lemma_count_true_mono(flags, a, b - 1);
    }
}

/// Over lines that all hold code, or all hold none, the count grows by one
/// per line, or not at all.
pub proof fn lemma_count_true_uniform(flags: Seq<bool>, a: int, b: int, v: bool)
    requires
        0 <= a <= b <= flags.len(),
        forall|k: int| a <= k < b ==> flags[k] == v,
    ensures
        count_true(flags, b) == count_true(flags, a) + if v { b - a } else { 0 },
    decreases b - a,
{
    if a < b {
        lemma_count_true_uniform(flags, a, b - 1, v);
    }
}


/// The number of lines holding code among lines `start..=end` (numbered
/// from 1) of a source whose lines are flagged by `flags`.
pub open spec fn code_lines_between(flags: Seq<bool>, start: usize, end: usize) -> nat {
    let last = flags.len() as int;
    let e = if (end as int) < last {
        end as int
    } else {
        last
    };
    if start == 0 || (start as int) > e {
        0
    } else {
        (count_true(flags, e) - count_true(flags, start - 1)) as nat
    }
}

/// Running counts of the lines that hold code.
pub struct EffectiveLines {
    prefix: Vec<usize>,
    flags: Ghost<Seq<bool>>,
}

impl EffectiveLines {
    /// Which lines hold code, line 1 first.
    pub closed spec fn flags(&self) -> Seq<bool> {
        self.flags@
    }

    #[verifier::type_invariant]
    closed spec fn counts_match(&self) -> bool {
        &&& self.prefix@.len() == self.flags@.len() + 1
        &&& forall|k: int|
            0 <= k < self.prefix@.len() ==> #[trigger] self.prefix@[k] == count_true(self.flags@, k)
    }

    /// The counts for lines flagged by `flags`.
    pub fn from_flags(flags: &Vec<bool>) -> (r: Self)
        requires
            flags.len() < usize::MAX,
        ensures
            r.flags() == flags@,
    {
        let mut prefix: Vec<usize> = Vec::new();
        prefix.push(0);
        let mut count: usize = 0;
        let mut i: usize = 0;
        while i < flags.len()
            invariant
                i <= flags.len(),
                flags.len() < usize::MAX,
                prefix@.len() == i + 1,
                count == count_true(flags@, i as int),
                count <= i,
                forall|k: int| 0 <= k <= i ==> #[trigger] prefix@[k] == count_true(flags@, k),
            decreases flags.len() - i,
        {
            if flags[i] {
                count = count + 1;
            }
            prefix.push(count);
            i = i + 1;
        }
        EffectiveLines { prefix, flags: Ghost(flags@) }
    }

    /// The number of lines holding code among lines `start..=end`.
    pub fn count(&self, start_line: usize, end_line: usize) -> (n: usize)
        ensures
            n == code_lines_between(self.flags(), start_line, end_line),
    {
        proof {
            use_type_invariant(self);
        }
        if start_line == 0 || end_line < start_line {
            return 0;
        }
        let last_line = self.prefix.len() - 1;
        let end = if end_line < last_line {
            end_line
        } else {
            last_line
        };
        if start_line > end {
            return 0;
        }
        proof {
            lemma_count_true_mono(self.flags@, start_line - 1, end as int);
        }
        self.prefix[end] - self.prefix[start_line - 1]
    }
}

// ----- which lines hold code ---------------------------------------------

/// What a line leaves open for the next one.
#[derive(Clone, Copy, PartialEq, Eq, Structural)]
pub enum LineState {
    /// Nothing open.
    Code,
    /// A block comment.
    Block,
    /// A raw string closed by `"` and `hashes` hashes.
    RawString { hashes: usize },
}

/// Whether a character counts as code (it is not blank).
pub open spec fn counts_as_code(c: char) -> bool {
    c != ' ' && c != '\t' && c != '\r'
}

/// The first `*/` at or after `i`.
pub open spec fn block_close(l: Seq<char>, i: int) -> Option<int>
    decreases l.len() - i,
{
    if i < 0 || i + 1 >= l.len() {
        None
    } else if l[i] == '*' && l[i + 1] == '/' {
        Some(i)
    } else {
        block_close(l, i + 1)
    }
}

/// The index after a raw string close (`"` and `hashes` hashes) found at or
/// after `cur`.
pub open spec fn raw_close(l: Seq<char>, cur: int, hashes: int) -> Option<int>
    decreases l.len() - cur,
{
    if cur < 0 || cur >= l.len() {
        None
    } else if l[cur] == '"' && has_hashes(l, cur + 1, hashes) {
        Some(cur + 1 + hashes)
    } else {
        raw_close(l, cur + 1, hashes)
    }
}

/// The opening quote and hash count of a raw string (`r"`, `r#"`, `br"`,
/// `br#"`) at `i`.
pub open spec fn raw_start(l: Seq<char>, i: int) -> Option<(int, int)> {
    let after = if l[i] == 'b' {
        i + 2
    } else {
        i + 1
    };
    if l[i] == 'b' && !(i + 1 < l.len() && l[i + 1] == 'r') {
        None
    } else {
        let h = hash_run(l, after);
        if after + h < l.len() && l[after + h] == '"' {
            Some((after + h, h))
        } else {
            None
        }
    }
}

/// The index of the `'` closing an escaped character literal, searched from
/// `cur` with backslashes skipping the next character.
pub open spec fn escaped_char_close(l: Seq<char>, cur: int) -> Option<int>
    decreases l.len() + 2 - cur,
{
    if cur < 0 || cur >= l.len() {
        None
    } else if l[cur] == '\\' {
        escaped_char_close(l, cur + 2)
    } else if l[cur] == '\'' {
        Some(cur)
    } else {
        escaped_char_close(l, cur + 1)
    }
}

/// The end of a character literal at `i` (`'x'` or an escape such as
/// `'\n'`).
pub open spec fn char_literal_end(l: Seq<char>, i: int) -> Option<int> {
    if i + 2 < l.len() && l[i + 1] != '\\' && l[i + 2] == '\'' {
        Some(i + 3)
    } else if i + 1 < l.len() && l[i + 1] == '\\' {
        match escaped_char_close(l, i + 2) {
            Some(c) => Some(c + 1),
            None => None,
        }
    } else {
        None
    }
}

/// The end of the identifier run starting at `i`.
pub open spec fn ident_end(l: Seq<char>, i: int) -> int
    decreases l.len() - i,
{
    if 0 <= i < l.len() && (is_ascii_alnum(l[i]) || l[i] == '_') {
        ident_end(l, i + 1)
    } else {
        i
    }
}

/// The end of a lifetime or loop label at `i` (`'a`, `'outer`).
pub open spec fn lifetime_end(l: Seq<char>, i: int) -> Option<int> {
    if i + 1 < l.len() && (is_ascii_alpha(l[i + 1]) || l[i + 1] == '_') {
        Some(ident_end(l, i + 1))
    } else {
        None
    }
}

/// Where scanning resumes after the `'` at `i`.
pub open spec fn quote_end(l: Seq<char>, i: int) -> int {
    match char_literal_end(l, i) {
        Some(e) => e,
        None => match lifetime_end(l, i) {
            Some(e) => e,
            None => i + 1,
        },
    }
}

pub proof fn lemma_escaped_char_close(l: Seq<char>, cur: int)
    requires
        0 <= cur,
    ensures
        escaped_char_close(l, cur) matches Some(c) ==> cur <= c < l.len(),
    decreases l.len() + 2 - cur,
{
    if cur < l.len() {
        if l[cur] == '\\' {
            lemma_escaped_char_close(l, cur + 2);
        } else if l[cur] != '\'' {
            lemma_escaped_char_close(l, cur + 1);
        }
    }
}

pub proof fn lemma_ident_end(l: Seq<char>, i: int)
    requires
        0 <= i <= l.len(),
    ensures
        i <= ident_end(l, i) <= l.len(),
    decreases l.len() - i,
{
    if i < l.len() && (is_ascii_alnum(l[i]) || l[i] == '_') {
        lemma_ident_end(l, i + 1);
    }
}

pub proof fn lemma_quote_end(l: Seq<char>, i: int)
    requires
        0 <= i < l.len(),
    ensures
        i < quote_end(l, i) <= l.len(),
{
    lemma_escaped_char_close(l, i + 2);
    if i + 1 < l.len() {
        lemma_ident_end(l, i + 1);
    }
}

pub proof fn lemma_raw_close(l: Seq<char>, cur: int, hashes: int)
    requires
        0 <= cur,
        hashes >= 0,
    ensures
        raw_close(l, cur, hashes) matches Some(e) ==> cur < e <= l.len(),
    decreases l.len() - cur,
{
    if cur < l.len() {
        if l[cur] == '"' && has_hashes(l, cur + 1, hashes) {
            if hashes > 0 {
                crate::suppressions::lemma_has_hashes_len(l, cur + 1, hashes);
            }
        } else {
            lemma_raw_close(l, cur + 1, hashes);
        }
    }
}

pub proof fn lemma_block_close(l: Seq<char>, i: int)
    requires
        0 <= i,
    ensures
        block_close(l, i) matches Some(k) ==> i <= k && k + 1 < l.len(),
    decreases l.len() - i,
{
    if i + 1 < l.len() && !(l[i] == '*' && l[i + 1] == '/') {
        lemma_block_close(l, i + 1);
    }
}

pub proof fn lemma_hash_run(l: Seq<char>, i: int)
    requires
        0 <= i,
    ensures
        0 <= hash_run(l, i),
    decreases l.len() - i,
{
    if 0 <= i < l.len() && l[i] == '#' {
        lemma_hash_run(l, i + 1);
    }
}

/// Whether the line from `i` on holds code, given `has` for what came
/// before, and the state it leaves: strings count as code, comments do not,
/// character literals and lifetimes are skipped.
pub open spec fn scan_from(l: Seq<char>, i: int, has: bool) -> (bool, LineState)
    decreases l.len() + 2 - i, 1int,
{
    if i < 0 || i >= l.len() {
        (has, LineState::Code)
    } else if l[i] == '/' && i + 1 < l.len() && l[i + 1] == '/' {
        (has, LineState::Code)
    } else if l[i] == '/' && i + 1 < l.len() && l[i + 1] == '*' {
        let r = block_from(l, i + 2);
        (has || r.0, r.1)
    } else if l[i] == '"' {
        proof {
            lemma_skip_quoted_bounds(l, i + 1, '"');
        }
        scan_from(l, skip_quoted(l, i + 1, '"'), true)
    } else if l[i] == '\'' {
        proof {
            lemma_quote_end(l, i);
        }
        scan_from(l, quote_end(l, i), has)
    } else if (l[i] == 'r' || l[i] == 'b') && raw_start(l, i) is Some {
        let q = raw_start(l, i).unwrap().0;
        let h = raw_start(l, i).unwrap().1;
        proof {
            lemma_hash_run(l, if l[i] == 'b' { i + 2 } else { i + 1 });
            lemma_raw_close(l, q + 1, h);
        }
        match raw_close(l, q + 1, h) {
            Some(e) => scan_from(l, e, true),
            None => (true, LineState::RawString { hashes: h as usize }),
        }
    } else if l[i] == 'b' && i + 1 < l.len() && l[i + 1] == '"' {
        proof {
            lemma_skip_quoted_bounds(l, i + 2, '"');
        }
        scan_from(l, skip_quoted(l, i + 2, '"'), true)
    } else {
        scan_from(l, i + 1, has || counts_as_code(l[i]))
    }
}

/// The rest of a line from `i` inside a block comment.
pub open spec fn block_from(l: Seq<char>, i: int) -> (bool, LineState)
    decreases l.len() + 2 - i, 0int,
{
    proof {
        lemma_block_close(l, if i < 0 { 0 } else { i });
    }
    if i < 0 {
        (false, LineState::Block)
    } else {
        match block_close(l, i) {
            Some(k) => scan_from(l, k + 2, false),
            None => (false, LineState::Block),
        }
    }
}

/// Whether the line holds code, and what it leaves open, starting in
/// `state`.
pub open spec fn line_code(l: Seq<char>, state: LineState) -> (bool, LineState) {
    match state {
        LineState::Block => block_from(l, 0),
        LineState::RawString { hashes } => match raw_close(l, 0, hashes as int) {
            Some(e) => scan_from(l, e, false),
            None => (exists|k: int| 0 <= k < l.len() && counts_as_code(#[trigger] l[k]), state),
        },
        LineState::Code => scan_from(l, 0, false),
    }
}

/// Each line of `s` from index `i` on: whether it holds code, starting in
/// `state`.
pub open spec fn flags_from(s: Seq<char>, i: int, state: LineState) -> Seq<bool>
    decreases s.len() + 1 - i,
{
    if i < 0 || i > s.len() {
        Seq::<bool>::empty()
    } else {
        let k = next_index_of(s, i, '\n');
        proof {
            lemma_next_index_of(s, i, '\n');
        }
        let r = line_code(s.subrange(i, k), state);
        seq![r.0] + flags_from(s, k + 1, r.1)
    }
}

/// Which lines of `s` (split at line feeds) hold code.
pub open spec fn line_flags(s: Seq<char>) -> Seq<bool> {
    flags_from(s, 0, LineState::Code)
}

fn block_close_at(l: &Vec<char>, i: usize) -> (r: Option<usize>)
    requires
        l.len() + 2 <= usize::MAX,
        i <= l.len() + 1,
    ensures
        r matches Some(k) ==> block_close(l@, i as int) == Some(k as int),
        r is None ==> block_close(l@, i as int) is None,
{
    let mut k = i;
    while k + 1 < l.len()
        invariant
            i <= k <= l.len() + 1,
            l.len() + 2 <= usize::MAX,
            block_close(l@, i as int) == block_close(l@, k as int),
        decreases l.len() - k,
    {
        if l[k] == '*' && l[k + 1] == '/' {
            return Some(k);
        }
        k = k + 1;
    }
    None
}

fn hashes_at(l: &Vec<char>, start: usize, count: usize) -> (b: bool)
    requires
        l.len() + 2 <= usize::MAX,
    ensures
        b == has_hashes(l@, start as int, count as int),
    decreases count,
{
    if count == 0 {
        true
    } else if start < l.len() && l[start] == '#' {
        hashes_at(l, start + 1, count - 1)
    } else {
        false
    }
}

fn raw_close_at(l: &Vec<char>, cur: usize, hashes: usize) -> (r: Option<usize>)
    requires
        hashes <= l.len(),
        l.len() + 2 <= usize::MAX,
    ensures
        r matches Some(e) ==> raw_close(l@, cur as int, hashes as int) == Some(e as int),
        r is None ==> raw_close(l@, cur as int, hashes as int) is None,
{
    let mut c = cur;
    while c < l.len()
        invariant
            cur <= c,
            hashes <= l.len(),
            l.len() + 2 <= usize::MAX,
            raw_close(l@, cur as int, hashes as int) == raw_close(l@, c as int, hashes as int),
        decreases l.len() - c,
    {
        if l[c] == '"' && hashes_at(l, c + 1, hashes) {
            proof {
                if hashes > 0 {
                    crate::suppressions::lemma_has_hashes_len(l@, c + 1, hashes as int);
                }
            }
            return Some(c + 1 + hashes);
        }
        c = c + 1;
    }
    None
}

fn hash_run_at(l: &Vec<char>, start: usize) -> (r: usize)
    requires
        start <= l.len(),
    ensures
        r == hash_run(l@, start as int),
        start + r <= l.len(),
{
    let mut k = start;
    while k < l.len() && l[k] == '#'
        invariant
            start <= k <= l.len(),
            hash_run(l@, start as int) == (k - start) + hash_run(l@, k as int),
        decreases l.len() - k,
    {
        k = k + 1;
    }
    k - start
}

fn raw_start_at(l: &Vec<char>, i: usize) -> (r: Option<(usize, usize)>)
    requires
        i < l.len(),
        l.len() + 3 <= usize::MAX,
    ensures
        r matches Some(p) ==> raw_start(l@, i as int) == Some((p.0 as int, p.1 as int)),
        r is None ==> raw_start(l@, i as int) is None,
{
    let after = if l[i] == 'b' {
        if !(i + 1 < l.len() && l[i + 1] == 'r') {
            return None;
        }
        i + 2
    } else {
        i + 1
    };
    let h = hash_run_at(l, after);
    if after + h < l.len() && l[after + h] == '"' {
        Some((after + h, h))
    } else {
        None
    }
}

fn quote_end_at(l: &Vec<char>, i: usize) -> (r: usize)
    requires
        i < l.len(),
        l.len() + 3 <= usize::MAX,
    ensures
        r == quote_end(l@, i as int),
{
    if i + 2 < l.len() && l[i + 1] != '\\' && l[i + 2] == '\'' {
        return i + 3;
    }
    if i + 1 < l.len() && l[i + 1] == '\\' {
        let mut c = i + 2;
        while c < l.len()
            invariant
                i + 2 <= c <= l.len() + 1,
                l.len() + 3 <= usize::MAX,
                i + 1 < l.len(),
                l@[i + 1] == '\\',
                escaped_char_close(l@, i + 2) == escaped_char_close(l@, c as int),
            decreases l.len() + 2 - c,
        {
            if l[c] == '\\' {
                c = c + 2;
            } else if l[c] == '\'' {
                return c + 1;
            } else {
                c = c + 1;
            }
        }
    }
    if i + 1 < l.len() && (('a' <= l[i + 1] && l[i + 1] <= 'z') || ('A' <= l[i + 1] && l[i + 1] <= 'Z') || l[i + 1] == '_') {
        let mut k = i + 1;
        while k < l.len() && (('a' <= l[k] && l[k] <= 'z') || ('A' <= l[k] && l[k] <= 'Z') || ('0' <= l[k] && l[k] <= '9') || l[k] == '_')
            invariant
                i + 1 <= k <= l.len(),
                ident_end(l@, i + 1) == ident_end(l@, k as int),
            decreases l.len() - k,
        {
            k = k + 1;
        }
        return k;
    }
    i + 1
}

/// Scans a line from `i` on (see [`scan_from`]).
fn scan_line_from(l: &Vec<char>, i: usize, has: bool) -> (r: (bool, LineState))
    requires
        l.len() + 3 <= usize::MAX,
        i <= l.len() + 1,
    ensures
        r == scan_from(l@, i as int, has),
    decreases l.len() + 2 - i, 1int,
{
    let mut k = i;
    let mut has_code = has;
    while k < l.len()
        invariant
            i <= k <= l.len() + 1,
            l.len() + 3 <= usize::MAX,
            scan_from(l@, i as int, has) == scan_from(l@, k as int, has_code),
        decreases l.len() + 2 - k,
    {
        let c = l[k];
        if c == '/' && k + 1 < l.len() && l[k + 1] == '/' {
            return (has_code, LineState::Code);
        } else if c == '/' && k + 1 < l.len() && l[k + 1] == '*' {
            let r = block_line_from(l, k + 2);
            return (has_code || r.0, r.1);
        } else if c == '"' {
            proof {
                lemma_skip_quoted_bounds(l@, k + 1, '"');
            }
            k = skip_quoted_at(l, k + 1, '"');
            has_code = true;
        } else if c == '\'' {
            proof {
                lemma_quote_end(l@, k as int);
            }
            k = quote_end_at(l, k);
        } else if (c == 'r' || c == 'b') && raw_start_at(l, k).is_some() {
            let (q, h) = raw_start_at(l, k).unwrap();
            proof {
                lemma_raw_close(l@, q + 1, h as int);
            }
            match raw_close_at(l, q + 1, h) {
                Some(e) => {
                    k = e;
                    has_code = true;
                },
                None => {
                    return (true, LineState::RawString { hashes: h });
                },
            }
        } else if c == 'b' && k + 1 < l.len() && l[k + 1] == '"' {
            proof {
                lemma_skip_quoted_bounds(l@, k + 2, '"');
            }
            k = skip_quoted_at(l, k + 2, '"');
            has_code = true;
        } else {
            has_code = has_code || (c != ' ' && c != '\t' && c != '\r');
            k = k + 1;
        }
    }
    (has_code, LineState::Code)
}

/// The rest of a line from `i` inside a block comment.
fn block_line_from(l: &Vec<char>, i: usize) -> (r: (bool, LineState))
    requires
        l.len() + 3 <= usize::MAX,
        i <= l.len() + 1,
    ensures
        r == block_from(l@, i as int),
    decreases l.len() + 2 - i, 0int,
{
    proof {
        lemma_block_close(l@, i as int);
    }
    match block_close_at(l, i) {
        Some(k) => scan_line_from(l, k + 2, false),
        None => (false, LineState::Block),
    }
}

/// Whether a line holds code, and what it leaves open, starting in
/// `state`.
pub fn line_has_code(l: &Vec<char>, state: LineState) -> (r: (bool, LineState))
    requires
        l.len() + 3 <= usize::MAX,
    ensures
        r == line_code(l@, state),
{
    match state {
        LineState::Block => block_line_from(l, 0),
        LineState::RawString { hashes } => {
            let found = if hashes <= l.len() {
                raw_close_at(l, 0, hashes)
            } else {
                proof {
                    assert(raw_close(l@, 0, hashes as int) is None) by {
                        lemma_raw_close_long(l@, 0, hashes as int);
                    }
                }
                None
            };
            match found {
                Some(e) => {
                    proof {
                        lemma_raw_close(l@, 0, hashes as int);
                    }
                    scan_line_from(l, e, false)
                },
                None => {
                    let mut k: usize = 0;
                    let mut any = false;
                    while k < l.len()
                        invariant
                            k <= l.len(),
                            any == exists|j: int| 0 <= j < k && counts_as_code(#[trigger] l@[j]),
                        decreases l.len() - k,
                    {
                        if l[k] != ' ' && l[k] != '\t' && l[k] != '\r' {
                            any = true;
                        }
                        k = k + 1;
                    }
                    (any, state)
                },
            }
        },
        LineState::Code => scan_line_from(l, 0, false),
    }
}

proof fn lemma_raw_close_long(l: Seq<char>, cur: int, hashes: int)
    requires
        0 <= cur,
        hashes > l.len(),
    ensures
        raw_close(l, cur, hashes) is None,
    decreases l.len() - cur,
{
    if cur < l.len() {
        if has_hashes(l, cur + 1, hashes) {
            crate::suppressions::lemma_has_hashes_len(l, cur + 1, hashes);
        }
        lemma_raw_close_long(l, cur + 1, hashes);
    }
}

/// The effective lines of a source: which of its lines hold code.
pub fn effective_lines(source: &str) -> (r: EffectiveLines)
    requires
        2 * source@.len() + 4 <= usize::MAX,
    ensures
        r.flags() == line_flags(source@),
{
    let v = chars_of(source);
    let mut flags: Vec<bool> = Vec::new();
    let mut state = LineState::Code;
    let mut i: usize = 0;
    loop
        invariant_except_break
            v@ == source@,
            2 * v.len() + 4 <= usize::MAX,
            i <= v.len(),
            flags.len() <= i,
            line_flags(source@) == flags@ + flags_from(source@, i as int, state),
        ensures
            line_flags(source@) == flags@,
            flags.len() <= v.len() + 1,
        decreases v.len() - i,
    {
        let k = find_from(&v, i, '\n');
        let line = slice_of(&v, i, k);
        assert(line@ == v@.subrange(i as int, k as int));
        let r = line_has_code(&line, state);
        flags.push(r.0);
        assert(line_flags(source@) =~= flags@ + flags_from(source@, k + 1, r.1));
        if k >= v.len() {
            assert(flags_from(source@, k + 1, r.1) == Seq::<bool>::empty());
            assert(line_flags(source@) =~= flags@);
            break;
        }
        state = r.1;
        i = k + 1;
    }
    EffectiveLines::from_flags(&flags)
}

} // verus!
