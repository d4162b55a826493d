//! The nesting guard run on a source's tokens before the syntax tree is
//! built: deep groups, long generic argument chains, long operator chains,
//! long runs of unfinished constructs and deeply nested closures are
//! refused, so that building the tree cannot exhaust the stack.
//!
//! The tokens arrive flattened: a group is its opening, its tokens, and its
//! closing.

use vstd::prelude::*;
use std::str::FromStr;
use proc_macro2::Spacing::Joint;
use proc_macro2::TokenStream;
use proc_macro2::TokenTree::{Group, Ident, Punct};
use crate::text::{chars_of, chars_eq, decimal, decimal_of, push_all, string_of};
use crate::report::chars_of_string;

verus! {

/// The deepest group nesting allowed.
pub const MAX_GROUP_DEPTH: usize = 256;

/// The deepest generic argument nesting allowed.
pub const MAX_GENERIC_DEPTH: usize = 64;

/// The longest operator chain allowed.
pub const MAX_OPERATOR_CHAIN: usize = 500;

/// The most unfinished constructs allowed at once: assignments, arrows,
/// `@` bindings, operators and keywords in prefix position, counted from the
/// start of the innermost `;`, `,` or `=>` run of each open group, or from
/// the item or statement that follows a group.
pub const MAX_UNFINISHED: usize = 400;

/// One token of a flattened token stream.
pub enum TokenEvent {
    /// A delimited group begins.
    Open,
    /// The innermost open group ends.
    Close,
    Ident(String),
    Literal,
    /// A punctuation character, and whether it is joined to the next one.
    Punct { ch: char, joint: bool },
}

/// A token as plain values.
pub enum TokenEventView {
    Open,
    Close,
    Ident(Seq<char>),
    Literal,
    Punct { ch: char, joint: bool },
}

impl View for TokenEvent {
    type V = TokenEventView;

    open spec fn view(&self) -> TokenEventView {
        match self {
            TokenEvent::Open => TokenEventView::Open,
            TokenEvent::Close => TokenEventView::Close,
            TokenEvent::Ident(text) => TokenEventView::Ident(text@),
            TokenEvent::Literal => TokenEventView::Literal,
            TokenEvent::Punct { ch, joint } => TokenEventView::Punct { ch: *ch, joint: *joint },
        }
    }
}

/// The tokens as plain values.
pub open spec fn event_views(ts: Seq<TokenEvent>) -> Seq<TokenEventView> {
    ts.map_values(|t: TokenEvent| t@)
}

/// What the guard tracks for each open group.
#[derive(Clone, Copy)]
pub struct Frame {
    pub generic_depth: usize,
    pub operator_chain: usize,
    pub prev_punct: Option<(char, bool)>,
    pub expects_operand: bool,
    /// The unfinished constructs of the enclosing groups and of this one.
    pub unfinished: usize,
    /// The unfinished constructs of the enclosing groups when this one opened.
    pub base: usize,
    /// Whether the last token of this group was the closing of a group in it.
    pub after_close: bool,
    /// Whether the last punctuation character was counted as unfinished.
    pub counted_last: bool,
    /// Whether the last punctuation character may begin a two-character
    /// operator with the next one (it did not complete one itself).
    pub pair_open: bool,
}

/// Where the guard stands in a closure: outside one, in its parameters, or
/// in its body, with the nesting depth.
#[derive(Clone, Copy, PartialEq, Eq, Structural)]
pub enum ClosureState {
    Idle,
    Parameters(usize),
    Body(usize),
}

pub open spec fn fresh_frame(expects_operand: bool) -> Frame {
    Frame {
        generic_depth: 0,
        operator_chain: 0,
        prev_punct: None,
        expects_operand,
        unfinished: 0,
        base: 0,
        after_close: false,
        counted_last: false,
        pair_open: false,
    }
}

/// The frame of a group opened where `unfinished` constructs are pending.
pub open spec fn nested_frame(unfinished: usize) -> Frame {
    Frame { unfinished, base: unfinished, ..fresh_frame(true) }
}

/// Words after which a new expression starts.
pub open spec fn resets_chain(t: Seq<char>) -> bool {
    t == "let"@ || t == "fn"@ || t == "struct"@ || t == "enum"@ || t == "impl"@ || t == "trait"@
        || t == "mod"@ || t == "use"@ || t == "const"@ || t == "static"@ || t == "return"@
        || t == "match"@ || t == "while"@ || t == "for"@ || t == "loop"@
}

pub open spec fn async_or_move(t: Seq<char>) -> bool {
    t == "async"@ || t == "move"@
}

pub open spec fn leave_body(cs: ClosureState) -> ClosureState {
    if cs is Body {
        ClosureState::Idle
    } else {
        cs
    }
}

/// One more operator in the chain of `f`.
pub open spec fn add_operator(f: Frame) -> Result<Frame, usize> {
    if f.operator_chain + 1 > MAX_OPERATOR_CHAIN {
        Err(MAX_OPERATOR_CHAIN)
    } else {
        Ok(Frame { operator_chain: (f.operator_chain + 1) as usize, ..f })
    }
}

/// An identifier in frame `f`.
pub open spec fn ident_step(f: Frame, cs: ClosureState, t: Seq<char>) -> (Frame, ClosureState) {
    let f1 = if resets_chain(t) {
        Frame { prev_punct: None, operator_chain: 0, generic_depth: 0, expects_operand: true, ..f }
    } else {
        Frame { prev_punct: None, expects_operand: async_or_move(t), ..f }
    };
    let cs1 = if cs is Parameters || (cs is Body && async_or_move(t)) {
        cs
    } else {
        leave_body(cs)
    };
    (f1, cs1)
}

/// A `|` that may open or close closure parameters.
pub open spec fn pipe_step(prev: Option<(char, bool)>, f: Frame, cs: ClosureState) -> Result<(Frame, ClosureState), usize> {
    if prev == Some(('|', true)) {
        match add_operator(Frame { generic_depth: 0, expects_operand: true, ..f }) {
            Ok(g) => Ok((g, ClosureState::Idle)),
            Err(e) => Err(e),
        }
    } else if f.expects_operand || !(cs is Idle) {
        match cs {
            ClosureState::Idle => Ok((f, ClosureState::Parameters(1))),
            ClosureState::Parameters(d) => Ok((f, ClosureState::Body(d))),
            ClosureState::Body(d) => {
                if d + 1 > MAX_GROUP_DEPTH {
                    Err(MAX_GROUP_DEPTH)
                } else {
                    Ok((f, ClosureState::Parameters((d + 1) as usize)))
                }
            },
        }
    } else {
        match add_operator(Frame { expects_operand: true, ..f }) {
            Ok(g) => Ok((g, ClosureState::Idle)),
            Err(e) => Err(e),
        }
    }
}

/// Two joined characters: `Some` where the pair is one operator.
pub open spec fn compound_step(prev_ch: char, ch: char, f: Frame) -> Option<Result<Frame, usize>> {
    if (prev_ch == ':' && ch == ':') || (prev_ch == '.' && ch == '.') {
        Some(Ok(f))
    } else if prev_ch == '-' && ch == '>' {
        Some(Ok(Frame {
            operator_chain: if f.operator_chain > 0 { (f.operator_chain - 1) as usize } else { 0 },
            expects_operand: true,
            ..f
        }))
    } else if prev_ch == '=' && ch == '>' {
        Some(Ok(Frame { operator_chain: 0, expects_operand: true, ..f }))
    } else if (prev_ch == '&' && ch == '&') || (prev_ch == '=' && ch == '=') || (prev_ch == '!' && ch == '=') {
        Some(Ok(Frame { generic_depth: 0, expects_operand: true, ..f }))
    } else if (prev_ch == '<' || prev_ch == '>') && ch == '=' {
        Some(Ok(Frame {
            generic_depth: if f.generic_depth > 0 { (f.generic_depth - 1) as usize } else { 0 },
            expects_operand: true,
            ..f
        }))
    } else if prev_ch == '<' && ch == '<' {
        if f.generic_depth + 1 > MAX_GENERIC_DEPTH {
            Some(Err(MAX_GENERIC_DEPTH))
        } else {
            Some(Ok(Frame { generic_depth: (f.generic_depth + 1) as usize, expects_operand: true, ..f }))
        }
    } else if prev_ch == '>' && ch == '>' {
        Some(Ok(Frame { generic_depth: if f.generic_depth > 0 { (f.generic_depth - 1) as usize } else { 0 }, ..f }))
    } else if ch == '=' && (prev_ch == '+' || prev_ch == '-' || prev_ch == '*' || prev_ch == '/' || prev_ch == '%'
        || prev_ch == '^' || prev_ch == '&' || prev_ch == '|') {
        Some(Ok(Frame { operator_chain: 0, expects_operand: true, ..f }))
    } else {
        None
    }
}

/// `r`, expecting an operand next where it is a frame.
pub open spec fn operand_after(r: Result<Frame, usize>) -> Result<Frame, usize> {
    match r {
        Ok(g) => Ok(Frame { expects_operand: true, ..g }),
        Err(e) => Err(e),
    }
}

/// A punctuation character that is no separator, no `|` and no joined pair.
pub open spec fn single_punct_step(ch: char, joint: bool, f: Frame) -> Result<Frame, usize> {
    if ch == '<' {
        if f.generic_depth + 1 > MAX_GENERIC_DEPTH {
            Err(MAX_GENERIC_DEPTH)
        } else {
            operand_after(add_operator(Frame { generic_depth: (f.generic_depth + 1) as usize, ..f }))
        }
    } else if ch == '>' {
        if f.generic_depth > 0 {
            Ok(Frame { generic_depth: (f.generic_depth - 1) as usize, expects_operand: false, ..f })
        } else {
            operand_after(add_operator(f))
        }
    } else if ch == '=' && !joint {
        Ok(Frame { operator_chain: 0, generic_depth: 0, expects_operand: true, ..f })
    } else if ch == ':' {
        Ok(Frame { expects_operand: true, ..f })
    } else if ch == '+' || ch == '-' || ch == '*' || ch == '/' || ch == '%' || ch == '^' || ch == '&' || ch == '!'
        || ch == '.' {
        operand_after(add_operator(f))
    } else {
        Ok(f)
    }
}

/// A punctuation character in frame `f`.
pub open spec fn punct_step(ch: char, joint: bool, f0: Frame, cs: ClosureState) -> Result<(Frame, ClosureState), usize> {
    let prev = f0.prev_punct;
    let f = Frame { prev_punct: Some((ch, joint)), ..f0 };
    if ch == ';' {
        Ok((Frame { operator_chain: 0, generic_depth: 0, expects_operand: true, ..f }, leave_body(cs)))
    } else if ch == ',' {
        Ok((
            Frame { operator_chain: 0, expects_operand: true, ..f },
            if f.generic_depth == 0 { leave_body(cs) } else { cs },
        ))
    } else if ch == '|' {
        pipe_step(prev, f, cs)
    } else {
        let cs1 = if cs is Parameters { cs } else { leave_body(cs) };
        let joined = match prev {
            Some((pc, true)) => compound_step(pc, ch, f),
            _ => None,
        };
        match joined {
            Some(Ok(g)) => Ok((g, cs1)),
            Some(Err(e)) => Err(e),
            None => match single_punct_step(ch, joint, f) {
                Ok(g) => Ok((g, cs1)),
                Err(e) => Err(e),
            },
        }
    }
}

/// Keywords after which an operand follows: each one left unfinished where
/// an operand was expected.
pub open spec fn chain_keyword(t: Seq<char>) -> bool {
    t == "return"@ || t == "break"@ || t == "yield"@ || t == "become"@ || t == "box"@ || t == "let"@
        || t == "if"@ || t == "while"@ || t == "match"@ || t == "for"@ || t == "loop"@ || t == "move"@
        || t == "async"@ || t == "static"@ || t == "unsafe"@ || t == "const"@ || t == "mut"@ || t == "ref"@
        || t == "dyn"@ || t == "impl"@ || t == "fn"@
}

/// Words that can continue a construct after one of its groups.
pub open spec fn continues_after_group(t: Seq<char>) -> bool {
    t == "as"@ || t == "else"@ || t == "in"@
}

/// One more unfinished construct in `f`.
pub open spec fn add_unfinished(f: Frame) -> Result<Frame, usize> {
    if f.unfinished + 1 > MAX_UNFINISHED {
        Err(MAX_UNFINISHED)
    } else {
        Ok(Frame { unfinished: (f.unfinished + 1) as usize, ..f })
    }
}

/// Whether an operand is expected after the identifier `t`: after a prefix
/// keyword, `in` and `as`; after a lifetime name, as before its `'`.
pub open spec fn operand_after_ident(before: Frame, t: Seq<char>, f: Frame) -> bool {
    if before.prev_punct == Some(('\'', true)) {
        before.expects_operand
    } else if chain_keyword(t) || t == "in"@ || t == "as"@ {
        true
    } else {
        f.expects_operand
    }
}

/// The run of unfinished constructs after an identifier, `before` being
/// the frame before it and `f` after the other counts: a word after a group
/// (other than one that continues it) starts a new item or statement; a
/// prefix keyword where an operand was expected adds one.
pub open spec fn ident_chain(before: Frame, t: Seq<char>, f: Frame) -> Result<Frame, usize> {
    let g = Frame { after_close: false, expects_operand: operand_after_ident(before, t, f), ..f };
    if before.after_close && !continues_after_group(t) {
        Ok(Frame { unfinished: g.base, ..g })
    } else if before.expects_operand && chain_keyword(t) {
        add_unfinished(g)
    } else {
        Ok(g)
    }
}

/// Punctuation that never leaves a construct unfinished.
pub open spec fn inert_punct(ch: char) -> bool {
    ch == ':' || ch == '#' || ch == '\'' || ch == '?'
}

/// Whether `prev` and `ch` form one operator.
pub open spec fn pairs(prev: char, ch: char) -> bool {
    ||| (prev == ':' && ch == ':') || (prev == '.' && ch == '.') || (prev == '-' && ch == '>')
    ||| (prev == '=' || prev == '!' || prev == '<' || prev == '>') && (ch == '=' || ch == '>')
    ||| (prev == '&' && ch == '&') || (prev == '|' && ch == '|') || (prev == '<' && ch == '<')
    ||| ch == '=' && (prev == '+' || prev == '-' || prev == '*' || prev == '/' || prev == '%' || prev == '^'
        || prev == '&' || prev == '|')
}

/// Whether the punctuation character `ch` completes an operator begun by
/// the one before it.
pub open spec fn completes_pair(before: Frame, ch: char) -> bool {
    before.pair_open && match before.prev_punct {
        Some((pc, true)) => pairs(pc, ch),
        _ => false,
    }
}

/// Whether a punctuation character leaves a construct unfinished: every
/// `=` but the second of `==`, every `@`, the `>` of `->`; the second
/// character of an operator where the first was counted; and any other
/// character but `:`, `#`, `'` and `?` where an operand is expected.
pub open spec fn counts_punct(before: Frame, ch: char) -> bool {
    if ch == '=' {
        before.prev_punct != Some(('=', true))
    } else if ch == '@' {
        true
    } else if ch == '>' && before.prev_punct == Some(('-', true)) {
        true
    } else if inert_punct(ch) {
        false
    } else if completes_pair(before, ch) {
        before.counted_last
    } else {
        before.expects_operand
    }
}

/// The run of unfinished constructs after a punctuation character: `;`,
/// `,`, `=>` and an attribute after a group go back to the group's base.
pub open spec fn punct_chain(before: Frame, ch: char, f: Frame) -> Result<Frame, usize> {
    let counted = counts_punct(before, ch);
    let g = Frame { after_close: false, counted_last: counted, pair_open: !completes_pair(before, ch), ..f };
    if ch == ';' || ch == ',' || (ch == '>' && before.prev_punct == Some(('=', true))) || (ch == '#'
        && before.after_close) {
        Ok(Frame { unfinished: g.base, ..g })
    } else if counted {
        add_unfinished(g)
    } else {
        Ok(g)
    }
}

/// The guard's state: the frames of the open groups (outermost first), the
/// group depth and the closure state.
pub struct GuardState {
    pub frames: Seq<Frame>,
    pub depth: int,
    pub closure: ClosureState,
}

pub open spec fn start_state() -> GuardState {
    GuardState { frames: seq![fresh_frame(false)], depth: 0, closure: ClosureState::Idle }
}

/// `frames` with its last frame replaced.
pub open spec fn with_top(frames: Seq<Frame>, f: Frame) -> Seq<Frame> {
    frames.update(frames.len() - 1, f)
}

/// One token.
pub open spec fn guard_step(s: GuardState, t: TokenEventView) -> Result<GuardState, usize> {
    let top = s.frames.last();
    match t {
        TokenEventView::Open => {
            if s.depth + 1 > MAX_GROUP_DEPTH {
                Err(MAX_GROUP_DEPTH)
            } else {
                Ok(GuardState {
                    frames: with_top(s.frames, Frame { prev_punct: None, expects_operand: false, after_close: false, ..top }).push(
                        nested_frame(top.unfinished),
                    ),
                    depth: s.depth + 1,
                    closure: leave_body(s.closure),
                })
            }
        },
        TokenEventView::Close => {
            let rest = s.frames.drop_last();
            Ok(GuardState {
                frames: if rest.len() > 0 {
                    with_top(rest, Frame { prev_punct: None, after_close: true, ..rest.last() })
                } else {
                    rest
                },
                depth: if s.depth > 0 { s.depth - 1 } else { 0 },
                closure: leave_body(s.closure),
            })
        },
        TokenEventView::Ident(text) => {
            let (f, cs) = ident_step(top, s.closure, text);
            match ident_chain(top, text, f) {
                Ok(g) => Ok(GuardState { frames: with_top(s.frames, g), closure: cs, ..s }),
                Err(e) => Err(e),
            }
        },
        TokenEventView::Literal => {
            Ok(GuardState {
                frames: with_top(s.frames, Frame { prev_punct: None, expects_operand: false, after_close: false, ..top }),
                closure: leave_body(s.closure),
                ..s
            })
        },
        TokenEventView::Punct { ch, joint } => match punct_step(ch, joint, top, s.closure) {
            Ok((f, cs)) => match punct_chain(top, ch, f) {
                Ok(g) => Ok(GuardState { frames: with_top(s.frames, g), closure: cs, ..s }),
                Err(e) => Err(e),
            },
            Err(e) => Err(e),
        },
    }
}

/// The tokens from `s` on: `Err` with the limit that was passed first.
pub open spec fn guard_run(s: GuardState, tokens: Seq<TokenEventView>) -> Result<GuardState, usize>
    decreases tokens.len(),
{
    if tokens.len() == 0 {
        Ok(s)
    } else {
        match guard_step(s, tokens[0]) {
            Ok(s1) => guard_run(s1, tokens.drop_first()),
            Err(e) => Err(e),
        }
    }
}

/// Groups opened less groups closed, over the first `k` tokens.
pub open spec fn open_count(tokens: Seq<TokenEventView>, k: int) -> int
    decreases k,
{
    if k <= 0 {
        0
    } else {
        open_count(tokens, k - 1) + match tokens[k - 1] {
            TokenEventView::Open => 1int,
            TokenEventView::Close => -1int,
            _ => 0int,
        }
    }
}

/// No group closes that was not opened.
pub open spec fn well_nested(tokens: Seq<TokenEventView>) -> bool {
    forall|k: int| 0 <= k <= tokens.len() ==> #[trigger] open_count(tokens, k) >= 0
}

/// Whether no group of `tokens` closes that was not opened.
pub fn is_well_nested(tokens: &Vec<TokenEvent>) -> (b: bool)
    ensures
        b == well_nested(event_views(tokens@)),
{
    let mut depth: usize = 0;
    let mut k: usize = 0;
    while k < tokens.len()
        invariant
            k <= tokens.len(),
            depth == open_count(event_views(tokens@), k as int),
            depth <= k,
            forall|j: int| 0 <= j <= k ==> #[trigger] open_count(event_views(tokens@), j) >= 0,
        decreases tokens.len() - k,
    {
        match &tokens[k] {
            TokenEvent::Open => {
                depth = depth + 1;
            },
            TokenEvent::Close => {
                if depth == 0 {
                    assert(open_count(event_views(tokens@), k + 1) < 0);
                    return false;
                }
                depth = depth - 1;
            },
            _ => {},
        }
        k = k + 1;
        assert(depth == open_count(event_views(tokens@), k as int));
    }
    true
}

/// The message of a passed limit.
pub open spec fn limit_message(limit: usize) -> Seq<char> {
    "source nesting exceeds parser safety limit of "@ + decimal(limit as nat)
}

fn add_operator_exec(f: Frame) -> (r: Result<Frame, usize>)
    ensures
        r == add_operator(f),
{
    if f.operator_chain >= MAX_OPERATOR_CHAIN {
        Err(MAX_OPERATOR_CHAIN)
    } else {
        Ok(Frame { operator_chain: f.operator_chain + 1, ..f })
    }
}

fn leave_body_exec(cs: ClosureState) -> (r: ClosureState)
    ensures
        r == leave_body(cs),
{
    match cs {
        ClosureState::Body(_) => ClosureState::Idle,
        _ => cs,
    }
}

fn word_in(t: &Vec<char>, words: &Vec<&str>) -> (b: bool)
    ensures
        b == exists|k: int| 0 <= k < words@.len() && t@ == #[trigger] words@[k]@,
{
    let mut k: usize = 0;
    while k < words.len()
        invariant
            k <= words.len(),
            forall|j: int| 0 <= j < k ==> t@ != #[trigger] words@[j]@,
        decreases words.len() - k,
    {
        if chars_eq(t, &chars_of(words[k])) {
            return true;
        }
        k = k + 1;
    }
    false
}

fn resets_chain_exec(t: &Vec<char>) -> (b: bool)
    ensures
        b == resets_chain(t@),
{
    let words = vec![
        "let", "fn", "struct", "enum", "impl", "trait", "mod", "use", "const", "static", "return", "match", "while",
        "for", "loop",
    ];
    let b = word_in(t, &words);
    proof {
        if resets_chain(t@) {
            if t@ == "let"@ { assert(t@ == words@[0]@); }
            else if t@ == "fn"@ { assert(t@ == words@[1]@); }
            else if t@ == "struct"@ { assert(t@ == words@[2]@); }
            else if t@ == "enum"@ { assert(t@ == words@[3]@); }
            else if t@ == "impl"@ { assert(t@ == words@[4]@); }
            else if t@ == "trait"@ { assert(t@ == words@[5]@); }
            else if t@ == "mod"@ { assert(t@ == words@[6]@); }
            else if t@ == "use"@ { assert(t@ == words@[7]@); }
            else if t@ == "const"@ { assert(t@ == words@[8]@); }
            else if t@ == "static"@ { assert(t@ == words@[9]@); }
            else if t@ == "return"@ { assert(t@ == words@[10]@); }
            else if t@ == "match"@ { assert(t@ == words@[11]@); }
            else if t@ == "while"@ { assert(t@ == words@[12]@); }
            else if t@ == "for"@ { assert(t@ == words@[13]@); }
            else { assert(t@ == words@[14]@); }
        }
        if b {
            let k = choose|k: int| 0 <= k < words@.len() && t@ == #[trigger] words@[k]@;
            assert(resets_chain(t@));
        }
    }
    b
}

fn chain_keyword_exec(t: &Vec<char>) -> (b: bool)
    ensures
        b == chain_keyword(t@),
{
    let words = vec![
        "return", "break", "yield", "become", "box", "let", "if", "while", "match", "for", "loop", "move", "async",
        "static", "unsafe", "const", "mut", "ref", "dyn", "impl", "fn",
    ];
    let b = word_in(t, &words);
    proof {
        if chain_keyword(t@) {
            if t@ == "return"@ { assert(t@ == words@[0]@); }
            else if t@ == "break"@ { assert(t@ == words@[1]@); }
            else if t@ == "yield"@ { assert(t@ == words@[2]@); }
            else if t@ == "become"@ { assert(t@ == words@[3]@); }
            else if t@ == "box"@ { assert(t@ == words@[4]@); }
            else if t@ == "let"@ { assert(t@ == words@[5]@); }
            else if t@ == "if"@ { assert(t@ == words@[6]@); }
            else if t@ == "while"@ { assert(t@ == words@[7]@); }
            else if t@ == "match"@ { assert(t@ == words@[8]@); }
            else if t@ == "for"@ { assert(t@ == words@[9]@); }
            else if t@ == "loop"@ { assert(t@ == words@[10]@); }
            else if t@ == "move"@ { assert(t@ == words@[11]@); }
            else if t@ == "async"@ { assert(t@ == words@[12]@); }
            else if t@ == "static"@ { assert(t@ == words@[13]@); }
            else if t@ == "unsafe"@ { assert(t@ == words@[14]@); }
            else if t@ == "const"@ { assert(t@ == words@[15]@); }
            else if t@ == "mut"@ { assert(t@ == words@[16]@); }
            else if t@ == "ref"@ { assert(t@ == words@[17]@); }
            else if t@ == "dyn"@ { assert(t@ == words@[18]@); }
            else if t@ == "impl"@ { assert(t@ == words@[19]@); }
            else { assert(t@ == words@[20]@); }
        }
        if b {
            let k = choose|k: int| 0 <= k < words@.len() && t@ == #[trigger] words@[k]@;
            assert(chain_keyword(t@));
        }
    }
    b
}

fn add_unfinished_exec(f: Frame) -> (r: Result<Frame, usize>)
    ensures
        r == add_unfinished(f),
{
    if f.unfinished >= MAX_UNFINISHED {
        Err(MAX_UNFINISHED)
    } else {
        Ok(Frame { unfinished: f.unfinished + 1, ..f })
    }
}

fn ident_chain_exec(before: Frame, t: &Vec<char>, f: Frame) -> (r: Result<Frame, usize>)
    ensures
        r == ident_chain(before, t@, f),
{
    let keyword = chain_keyword_exec(t);
    let is_in = chars_eq(t, &chars_of("in"));
    let is_as = chars_eq(t, &chars_of("as"));
    let continues = is_in || is_as || chars_eq(t, &chars_of("else"));
    let lifetime = matches!(before.prev_punct, Some(('\'', true)));
    let operand = if lifetime {
        before.expects_operand
    } else if keyword || is_in || is_as {
        true
    } else {
        f.expects_operand
    };
    let g = Frame { after_close: false, expects_operand: operand, ..f };
    if before.after_close && !continues {
        Ok(Frame { unfinished: g.base, ..g })
    } else if before.expects_operand && keyword {
        add_unfinished_exec(g)
    } else {
        Ok(g)
    }
}

fn counts_punct_exec(before: Frame, ch: char) -> (b: bool)
    ensures
        b == counts_punct(before, ch),
{
    if ch == '=' {
        !matches!(before.prev_punct, Some(('=', true)))
    } else if ch == '@' {
        true
    } else if ch == '>' && matches!(before.prev_punct, Some(('-', true))) {
        true
    } else if ch == ':' || ch == '#' || ch == '\'' || ch == '?' {
        false
    } else if completes_pair_exec(before, ch) {
        before.counted_last
    } else {
        before.expects_operand
    }
}

fn pairs_exec(prev: char, ch: char) -> (b: bool)
    ensures
        b == pairs(prev, ch),
{
    (prev == ':' && ch == ':') || (prev == '.' && ch == '.') || (prev == '-' && ch == '>')
        || ((prev == '=' || prev == '!' || prev == '<' || prev == '>') && (ch == '=' || ch == '>'))
        || (prev == '&' && ch == '&') || (prev == '|' && ch == '|') || (prev == '<' && ch == '<')
        || (ch == '=' && (prev == '+' || prev == '-' || prev == '*' || prev == '/' || prev == '%' || prev == '^'
        || prev == '&' || prev == '|'))
}

fn completes_pair_exec(before: Frame, ch: char) -> (b: bool)
    ensures
        b == completes_pair(before, ch),
{
    before.pair_open && match before.prev_punct {
        Some((pc, true)) => pairs_exec(pc, ch),
        _ => false,
    }
}

fn punct_chain_exec(before: Frame, ch: char, f: Frame) -> (r: Result<Frame, usize>)
    ensures
        r == punct_chain(before, ch, f),
{
    let counted = counts_punct_exec(before, ch);
    let g = Frame { after_close: false, counted_last: counted, pair_open: !completes_pair_exec(before, ch), ..f };
    let arrow = matches!(before.prev_punct, Some(('=', true)));
    if ch == ';' || ch == ',' || (ch == '>' && arrow) || (ch == '#' && before.after_close) {
        Ok(Frame { unfinished: g.base, ..g })
    } else if counted {
        add_unfinished_exec(g)
    } else {
        Ok(g)
    }
}

fn async_or_move_exec(t: &Vec<char>) -> (b: bool)
    ensures
        b == async_or_move(t@),
{
    chars_eq(t, &chars_of("async")) || chars_eq(t, &chars_of("move"))
}

fn ident_step_exec(f: Frame, cs: ClosureState, t: &Vec<char>) -> (r: (Frame, ClosureState))
    ensures
        r == ident_step(f, cs, t@),
{
    let am = async_or_move_exec(t);
    let f1 = if resets_chain_exec(t) {
        Frame { prev_punct: None, operator_chain: 0, generic_depth: 0, expects_operand: true, ..f }
    } else {
        Frame { prev_punct: None, expects_operand: am, ..f }
    };
    let keep = match cs {
        ClosureState::Parameters(_) => true,
        ClosureState::Body(_) => am,
        ClosureState::Idle => false,
    };
    let cs1 = if keep { cs } else { leave_body_exec(cs) };
    (f1, cs1)
}

fn pipe_step_exec(prev: Option<(char, bool)>, f: Frame, cs: ClosureState) -> (r: Result<(Frame, ClosureState), usize>)
    ensures
        r == pipe_step(prev, f, cs),
{
    let doubled = match prev {
        Some((c, j)) => c == '|' && j,
        None => false,
    };
    if doubled {
        match add_operator_exec(Frame { generic_depth: 0, expects_operand: true, ..f }) {
            Ok(g) => Ok((g, ClosureState::Idle)),
            Err(e) => Err(e),
        }
    } else if f.expects_operand || !matches!(cs, ClosureState::Idle) {
        match cs {
            ClosureState::Idle => Ok((f, ClosureState::Parameters(1))),
            ClosureState::Parameters(d) => Ok((f, ClosureState::Body(d))),
            ClosureState::Body(d) => {
                if d >= MAX_GROUP_DEPTH {
                    Err(MAX_GROUP_DEPTH)
                } else {
                    Ok((f, ClosureState::Parameters(d + 1)))
                }
            },
        }
    } else {
        match add_operator_exec(Frame { expects_operand: true, ..f }) {
            Ok(g) => Ok((g, ClosureState::Idle)),
            Err(e) => Err(e),
        }
    }
}

fn compound_step_exec(prev_ch: char, ch: char, f: Frame) -> (r: Option<Result<Frame, usize>>)
    ensures
        r == compound_step(prev_ch, ch, f),
{
    if (prev_ch == ':' && ch == ':') || (prev_ch == '.' && ch == '.') {
        Some(Ok(f))
    } else if prev_ch == '-' && ch == '>' {
        Some(Ok(Frame {
            operator_chain: if f.operator_chain > 0 { f.operator_chain - 1 } else { 0 },
            expects_operand: true,
            ..f
        }))
    } else if prev_ch == '=' && ch == '>' {
        Some(Ok(Frame { operator_chain: 0, expects_operand: true, ..f }))
    } else if (prev_ch == '&' && ch == '&') || (prev_ch == '=' && ch == '=') || (prev_ch == '!' && ch == '=') {
        Some(Ok(Frame { generic_depth: 0, expects_operand: true, ..f }))
    } else if (prev_ch == '<' || prev_ch == '>') && ch == '=' {
        Some(Ok(Frame {
            generic_depth: if f.generic_depth > 0 { f.generic_depth - 1 } else { 0 },
            expects_operand: true,
            ..f
        }))
    } else if prev_ch == '<' && ch == '<' {
        if f.generic_depth >= MAX_GENERIC_DEPTH {
            Some(Err(MAX_GENERIC_DEPTH))
        } else {
            Some(Ok(Frame { generic_depth: f.generic_depth + 1, expects_operand: true, ..f }))
        }
    } else if prev_ch == '>' && ch == '>' {
        Some(Ok(Frame { generic_depth: if f.generic_depth > 0 { f.generic_depth - 1 } else { 0 }, ..f }))
    } else if ch == '=' && (prev_ch == '+' || prev_ch == '-' || prev_ch == '*' || prev_ch == '/' || prev_ch == '%'
        || prev_ch == '^' || prev_ch == '&' || prev_ch == '|') {
        Some(Ok(Frame { operator_chain: 0, expects_operand: true, ..f }))
    } else {
        None
    }
}

fn with_operand(r: Result<Frame, usize>) -> (out: Result<Frame, usize>)
    ensures
        out == operand_after(r),
{
    match r {
        Ok(g) => Ok(Frame { expects_operand: true, ..g }),
        Err(e) => Err(e),
    }
}

fn single_punct_step_exec(ch: char, joint: bool, f: Frame) -> (r: Result<Frame, usize>)
    ensures
        r == single_punct_step(ch, joint, f),
{
    if ch == '<' {
        if f.generic_depth >= MAX_GENERIC_DEPTH {
            Err(MAX_GENERIC_DEPTH)
        } else {
            with_operand(add_operator_exec(Frame { generic_depth: f.generic_depth + 1, ..f }))
        }
    } else if ch == '>' {
        if f.generic_depth > 0 {
            Ok(Frame { generic_depth: f.generic_depth - 1, expects_operand: false, ..f })
        } else {
            with_operand(add_operator_exec(f))
        }
    } else if ch == '=' && !joint {
        Ok(Frame { operator_chain: 0, generic_depth: 0, expects_operand: true, ..f })
    } else if ch == ':' {
        Ok(Frame { expects_operand: true, ..f })
    } else if ch == '+' || ch == '-' || ch == '*' || ch == '/' || ch == '%' || ch == '^' || ch == '&' || ch == '!'
        || ch == '.' {
        with_operand(add_operator_exec(f))
    } else {
        Ok(f)
    }
}

fn punct_step_exec(ch: char, joint: bool, f0: Frame, cs: ClosureState) -> (r: Result<(Frame, ClosureState), usize>)
    ensures
        r == punct_step(ch, joint, f0, cs),
{
    let prev = f0.prev_punct;
    let f = Frame { prev_punct: Some((ch, joint)), ..f0 };
    if ch == ';' {
        Ok((Frame { operator_chain: 0, generic_depth: 0, expects_operand: true, ..f }, leave_body_exec(cs)))
    } else if ch == ',' {
        let cs1 = if f.generic_depth == 0 { leave_body_exec(cs) } else { cs };
        Ok((Frame { operator_chain: 0, expects_operand: true, ..f }, cs1))
    } else if ch == '|' {
        pipe_step_exec(prev, f, cs)
    } else {
        let cs1 = match cs {
            ClosureState::Parameters(_) => cs,
            _ => leave_body_exec(cs),
        };
        let joined = match prev {
            Some((pc, true)) => compound_step_exec(pc, ch, f),
            _ => None,
        };
        match joined {
            Some(Ok(g)) => Ok((g, cs1)),
            Some(Err(e)) => Err(e),
            None => match single_punct_step_exec(ch, joint, f) {
                Ok(g) => Ok((g, cs1)),
                Err(e) => Err(e),
            },
        }
    }
}

proof fn lemma_open_count_step(tokens: Seq<TokenEventView>, k: int)
    requires
        0 <= k < tokens.len(),
    ensures
        open_count(tokens, k + 1) == open_count(tokens, k) + match tokens[k] {
            TokenEventView::Open => 1int,
            TokenEventView::Close => -1int,
            _ => 0int,
        },
{
}

/// Runs the guard over `tokens`: `Err` with the message of the first limit
/// passed.
pub fn check_parse_nesting(tokens: &Vec<TokenEvent>) -> (r: Result<(), String>)
    requires
        well_nested(event_views(tokens@)),
    ensures
        match guard_run(start_state(), event_views(tokens@)) {
            Ok(_) => r is Ok,
            Err(limit) => r matches Err(m) && m@ == limit_message(limit),
        },
        r is Ok ==> forall|k: int| 0 <= k <= event_views(tokens@).len() ==> #[trigger] open_count(event_views(tokens@), k) <= MAX_GROUP_DEPTH,
{
    let mut frames: Vec<Frame> = vec![
        Frame {
            generic_depth: 0,
            operator_chain: 0,
            prev_punct: None,
            expects_operand: false,
            unfinished: 0,
            base: 0,
            after_close: false,
            counted_last: false,
            pair_open: false,
        },
    ];
    let mut depth: usize = 0;
    let mut closure = ClosureState::Idle;
    let mut i: usize = 0;
    assert(event_views(tokens@).skip(0) =~= event_views(tokens@));
    assert(frames@ =~= start_state().frames);
    while i < tokens.len()
        invariant
            i <= tokens.len(),
            well_nested(event_views(tokens@)),
            depth <= MAX_GROUP_DEPTH,
            depth == open_count(event_views(tokens@), i as int),
            forall|k: int| 0 <= k <= i ==> #[trigger] open_count(event_views(tokens@), k) <= MAX_GROUP_DEPTH,
            frames@.len() == 1 + open_count(event_views(tokens@), i as int),
            guard_run(start_state(), event_views(tokens@)) == guard_run(
                GuardState { frames: frames@, depth: depth as int, closure },
                event_views(tokens@).skip(i as int),
            ),
        decreases tokens.len() - i,
    {
        let ghost s = GuardState { frames: frames@, depth: depth as int, closure };
        assert(event_views(tokens@).skip(i as int)[0] == event_views(tokens@)[i as int]);
        assert(event_views(tokens@).skip(i as int).drop_first() =~= event_views(tokens@).skip(i + 1));
        proof {
            lemma_open_count_step(event_views(tokens@), i as int);
            assert(open_count(event_views(tokens@), i + 1) >= 0);
        }
        let last = frames.len() - 1;
        let top = frames[last];
        match &tokens[i] {
            TokenEvent::Open => {
                if depth >= MAX_GROUP_DEPTH {
                    return Err(limit_text(MAX_GROUP_DEPTH));
                }
                frames.set(last, Frame { prev_punct: None, expects_operand: false, after_close: false, ..top });
                frames.push(Frame {
                    generic_depth: 0,
                    operator_chain: 0,
                    prev_punct: None,
                    expects_operand: true,
                    unfinished: top.unfinished,
                    base: top.unfinished,
                    after_close: false,
                    counted_last: false,
                    pair_open: false,
                });
                depth = depth + 1;
                closure = leave_body_exec(closure);
            },
            TokenEvent::Close => {
                frames.pop();
                if frames.len() > 0 {
                    let l = frames.len() - 1;
                    let f = frames[l];
                    frames.set(l, Frame { prev_punct: None, after_close: true, ..f });
                }
                depth = if depth > 0 { depth - 1 } else { 0 };
                closure = leave_body_exec(closure);
            },
            TokenEvent::Ident(text) => {
                let word = chars_of_string(text);
                let (f, cs) = ident_step_exec(top, closure, &word);
                match ident_chain_exec(top, &word, f) {
                    Ok(g) => {
                        frames.set(last, g);
                        closure = cs;
                    },
                    Err(e) => return Err(limit_text(e)),
                }
            },
            TokenEvent::Literal => {
                frames.set(last, Frame { prev_punct: None, expects_operand: false, after_close: false, ..top });
                closure = leave_body_exec(closure);
            },
            TokenEvent::Punct { ch, joint } => {
                match punct_step_exec(*ch, *joint, top, closure) {
                    Ok((f, cs)) => match punct_chain_exec(top, *ch, f) {
                        Ok(g) => {
                            frames.set(last, g);
                            closure = cs;
                        },
                        Err(e) => return Err(limit_text(e)),
                    },
                    Err(e) => return Err(limit_text(e)),
                }
            },
        }
        assert(guard_step(s, event_views(tokens@)[i as int]) == Ok::<GuardState, usize>(GuardState { frames: frames@, depth: depth as int, closure }));
        i = i + 1;
    }
    Ok(())
}

fn limit_text(limit: usize) -> (r: String)
    ensures
        r@ == limit_message(limit),
{
    let mut m = chars_of("source nesting exceeds parser safety limit of ");
    push_all(&mut m, &decimal_of(limit));
    string_of(&m)
}

// ----- from source text to tokens and tree ---------------------------------

/// The tokens of a source text, each group flattened to its opening, its
/// tokens and its closing; or the tokenizer's message.
pub uninterp spec fn lexed(source: Seq<char>) -> Result<Seq<TokenEventView>, Seq<char>>;

/// `proc_macro2::TokenStream::from_str` on `source`, the stream walked with
/// a stack of its own (each group as its opening, its tokens and its
/// closing, so every closing follows its opening); a failure by its message.
/// What it gives depends on the text alone.
#[verifier::external_body]
pub fn lex_source(source: &str) -> (r: Result<Vec<TokenEvent>, String>)
    ensures
        match r {
            Ok(v) => lexed(source@) == Ok::<_, Seq<char>>(event_views(v@)) && well_nested(event_views(v@)),
            Err(e) => lexed(source@) == Err::<Seq<TokenEventView>, _>(e@),
        },
{
    let mut st = vec![TokenStream::from_str(source).map_err(|e| e.to_string())?.into_iter()];
    let mut out = Vec::new();
    while let Some(cur) = st.last_mut() {
        let next = cur.next();
        out.push(match next {
            Some(Group(g)) => { st.push(g.stream().into_iter()); TokenEvent::Open },
            Some(Ident(i)) => TokenEvent::Ident(i.to_string()),
            Some(Punct(p)) => TokenEvent::Punct { ch: p.as_char(), joint: p.spacing() == Joint },
            Some(_) => TokenEvent::Literal,
            None => { st.pop(); TokenEvent::Close },
        });
    }
    out.pop();
    Ok(out)
}

/// The tokens of `source` once the nesting guard has passed them: the
/// tokenizer's message when it fails, the message of the first limit the
/// tokens pass, or the tokens.
pub fn guarded_tokens(source: &str) -> (r: Result<Vec<TokenEvent>, String>)
    ensures
        match lexed(source@) {
            Err(m) => r matches Err(e) && e@ == m,
            Ok(vs) => match guard_run(start_state(), vs) {
                Ok(_) => r matches Ok(v) && event_views(v@) == vs,
                Err(limit) => r matches Err(e) && e@ == limit_message(limit),
            },
        },
{
    let tokens = match lex_source(source) {
        Ok(t) => t,
        Err(e) => return Err(e),
    };
    match check_parse_nesting(&tokens) {
        Ok(()) => Ok(tokens),
        Err(e) => Err(e),
    }
}

#[verifier::external_type_specification]
#[verifier::external_body]
pub struct ExSynFile(syn::File);

/// Whether a `syn::File` is built from the tokens of `source`: `Ok`
/// where it is, the parser's message where it is not.
pub uninterp spec fn syn_file_parse(source: Seq<char>) -> Result<(), Seq<char>>;

/// `proc_macro2::TokenStream::from_str` on `source`, then
/// `syn::parse2::<syn::File>` on the tokens; a failure by its message.
/// Whether the tree is built, and the message where it is not, depend on
/// the text alone. syn builds the tree by recursive descent, so the call is
/// made only on a source whose tokens pass the nesting guard, whose limits
/// bound how deep that descent goes. Nothing is stated of the tree itself.
#[verifier::external_body]
fn syntax_tree(source: &str) -> (r: Result<syn::File, String>)
    requires
        lexed(source@) is Ok,
        guard_run(start_state(), lexed(source@)->Ok_0) is Ok,
    ensures
        match r {
            Ok(_) => syn_file_parse(source@) == Ok::<(), Seq<char>>(()),
            Err(e) => syn_file_parse(source@) == Err::<(), Seq<char>>(e@),
        },
{
    let tokens = TokenStream::from_str(source).map_err(|e| e.to_string())?;
    syn::parse2::<syn::File>(tokens).map_err(|e| e.to_string())
}

/// Tokenizes `source`, runs the nesting guard on its tokens, and only then
/// builds the syntax tree: every tokenizer or guard failure comes out as
/// its message, before any tree is built; otherwise the tree, or the
/// parser's message.
pub fn parse_file(source: &str) -> (r: Result<syn::File, String>)
    ensures
        match lexed(source@) {
            Err(m) => r matches Err(e) && e@ == m,
            Ok(vs) => match guard_run(start_state(), vs) {
                Err(limit) => r matches Err(e) && e@ == limit_message(limit),
                Ok(_) => match syn_file_parse(source@) {
                    Ok(_) => r is Ok,
                    Err(m) => r matches Err(e) && e@ == m,
                },
            },
        },
{
    match guarded_tokens(source) {
        Ok(_) => syntax_tree(source),
        Err(e) => Err(e),
    }
}

} // verus!
