//! Cyclomatic and NPath complexity of a function body, computed on the
//! body's control-flow shape.
//!
//! Decision points are `if`, `while`, `for`, `loop`, each match arm that is
//! not a lone `_`, each match guard, `&&` and `||`. NPath multiplies the
//! paths of consecutive statements; `if`, `match` and the loops add the
//! paths of their branches and the boolean complexity of their conditions.
//! Every sum and product stops at `usize::MAX`.

use vstd::prelude::*;

verus! {

/// An expression, by what the complexity counts read of it.
pub enum Node {
    If { cond: Box<Node>, then: Vec<Stmt>, otherwise: Option<Box<Node>> },
    Match { scrutinee: Box<Node>, arms: Vec<MatchArm> },
    /// A `for` loop; `pat` holds the expressions inside its pattern.
    ForLoop { pat: Vec<Node>, iter: Box<Node>, body: Vec<Stmt> },
    While { cond: Box<Node>, body: Vec<Stmt> },
    Loop { body: Vec<Stmt> },
    /// A block, `async` block, `try` block or `unsafe` block.
    Block { stmts: Vec<Stmt> },
    Return { value: Option<Box<Node>> },
    /// `&&` or `||`.
    Logic { left: Box<Node>, right: Box<Node> },
    /// Any other expression, with the expressions directly inside it, in
    /// order.
    Other { children: Vec<Node> },
}

/// A match arm; `pat` holds the expressions inside its pattern.
pub struct MatchArm {
    pub wild: bool,
    pub pat: Vec<Node>,
    pub guard: Option<Box<Node>>,
    pub body: Box<Node>,
}

/// A statement.
pub enum Stmt {
    Expr(Node),
    /// A `let`; `pat` holds the expressions inside its pattern, `diverge`
    /// the `else` of a `let .. else`.
    Local { pat: Vec<Node>, init: Option<Node>, diverge: Option<Node> },
    /// An item, with the expressions inside it.
    Item(Vec<Node>),
    /// A macro invocation.
    Macro,
}

pub open spec fn clamp(n: nat) -> nat {
    if n > usize::MAX {
        usize::MAX as nat
    } else {
        n
    }
}

pub open spec fn sat_add(a: nat, b: nat) -> nat {
    clamp(a + b)
}

pub open spec fn sat_mul(a: nat, b: nat) -> nat {
    clamp(a * b)
}

pub open spec fn sat_sub1(a: nat) -> nat {
    if a == 0 {
        0
    } else {
        (a - 1) as nat
    }
}

pub open spec fn max_nat(a: nat, b: nat) -> nat {
    if a >= b {
        a
    } else {
        b
    }
}

// ----- counts over the whole tree ----------------------------------------------

/// How many `&&` and `||` the expression holds, at any depth.
pub open spec fn logic_in(n: Node) -> nat
    decreases n, 1nat,
{
    match n {
        Node::If { cond, then, otherwise } => logic_in(*cond) + logic_in_stmts(then@, then@.len() as int) + match otherwise {
            Some(o) => logic_in(*o),
            None => 0,
        },
        Node::Match { scrutinee, arms } => logic_in(*scrutinee) + logic_in_arms(arms@, arms@.len() as int),
        Node::ForLoop { pat, iter, body } => logic_in_nodes(pat@, pat@.len() as int) + logic_in(*iter) + logic_in_stmts(body@, body@.len() as int),
        Node::While { cond, body } => logic_in(*cond) + logic_in_stmts(body@, body@.len() as int),
        Node::Loop { body } => logic_in_stmts(body@, body@.len() as int),
        Node::Block { stmts } => logic_in_stmts(stmts@, stmts@.len() as int),
        Node::Return { value } => match value {
            Some(v) => logic_in(*v),
            None => 0,
        },
        Node::Logic { left, right } => 1 + logic_in(*left) + logic_in(*right),
        Node::Other { children } => logic_in_nodes(children@, children@.len() as int),
    }
}

pub open spec fn logic_in_nodes(ns: Seq<Node>, k: int) -> nat
    decreases ns, 0nat, k,
{
    if k <= 0 || k > ns.len() {
        0
    } else {
        logic_in_nodes(ns, k - 1) + logic_in(ns[k - 1])
    }
}

pub open spec fn logic_in_arms(arms: Seq<MatchArm>, k: int) -> nat
    decreases arms, 0nat, k,
{
    if k <= 0 || k > arms.len() {
        0
    } else {
        let a = arms[k - 1];
        logic_in_arms(arms, k - 1) + logic_in_nodes(a.pat@, a.pat@.len() as int) + match a.guard {
            Some(g) => logic_in(*g),
            None => 0,
        } + logic_in(*a.body)
    }
}

pub open spec fn logic_in_stmt(s: Stmt) -> nat
    decreases s, 1nat,
{
    match s {
        Stmt::Expr(n) => logic_in(n),
        Stmt::Local { pat, init, diverge } => logic_in_nodes(pat@, pat@.len() as int) + match init {
            Some(i) => logic_in(i),
            None => 0,
        } + match diverge {
            Some(d) => logic_in(d),
            None => 0,
        },
        Stmt::Item(ns) => logic_in_nodes(ns@, ns@.len() as int),
        Stmt::Macro => 0,
    }
}

pub open spec fn logic_in_stmts(ss: Seq<Stmt>, k: int) -> nat
    decreases ss, 0nat, k,
{
    if k <= 0 || k > ss.len() {
        0
    } else {
        logic_in_stmts(ss, k - 1) + logic_in_stmt(ss[k - 1])
    }
}

/// How many decision points the expression holds, at any depth.
pub open spec fn decisions_in(n: Node) -> nat
    decreases n, 1nat,
{
    match n {
        Node::If { cond, then, otherwise } => 1 + decisions_in(*cond) + decisions_in_stmts(then@, then@.len() as int) + match otherwise {
            Some(o) => decisions_in(*o),
            None => 0,
        },
        Node::Match { scrutinee, arms } => decisions_in(*scrutinee) + decisions_in_arms(arms@, arms@.len() as int),
        Node::ForLoop { pat, iter, body } => 1 + decisions_in_nodes(pat@, pat@.len() as int) + decisions_in(*iter) + decisions_in_stmts(body@, body@.len() as int),
        Node::While { cond, body } => 1 + decisions_in(*cond) + decisions_in_stmts(body@, body@.len() as int),
        Node::Loop { body } => 1 + decisions_in_stmts(body@, body@.len() as int),
        Node::Block { stmts } => decisions_in_stmts(stmts@, stmts@.len() as int),
        Node::Return { value } => match value {
            Some(v) => decisions_in(*v),
            None => 0,
        },
        Node::Logic { left, right } => 1 + decisions_in(*left) + decisions_in(*right),
        Node::Other { children } => decisions_in_nodes(children@, children@.len() as int),
    }
}

pub open spec fn decisions_in_nodes(ns: Seq<Node>, k: int) -> nat
    decreases ns, 0nat, k,
{
    if k <= 0 || k > ns.len() {
        0
    } else {
        decisions_in_nodes(ns, k - 1) + decisions_in(ns[k - 1])
    }
}

pub open spec fn decisions_in_arms(arms: Seq<MatchArm>, k: int) -> nat
    decreases arms, 0nat, k,
{
    if k <= 0 || k > arms.len() {
        0
    } else {
        let a = arms[k - 1];
        decisions_in_arms(arms, k - 1) + (if a.wild { 0nat } else { 1nat }) + decisions_in_nodes(a.pat@, a.pat@.len() as int)
            + match a.guard {
            Some(g) => 1 + decisions_in(*g),
            None => 0,
        } + decisions_in(*a.body)
    }
}

pub open spec fn decisions_in_stmt(s: Stmt) -> nat
    decreases s, 1nat,
{
    match s {
        Stmt::Expr(n) => decisions_in(n),
        Stmt::Local { pat, init, diverge } => decisions_in_nodes(pat@, pat@.len() as int) + match init {
            Some(i) => decisions_in(i),
            None => 0,
        } + match diverge {
            Some(d) => decisions_in(d),
            None => 0,
        },
        Stmt::Item(ns) => decisions_in_nodes(ns@, ns@.len() as int),
        Stmt::Macro => 0,
    }
}

pub open spec fn decisions_in_stmts(ss: Seq<Stmt>, k: int) -> nat
    decreases ss, 0nat, k,
{
    if k <= 0 || k > ss.len() {
        0
    } else {
        decisions_in_stmts(ss, k - 1) + decisions_in_stmt(ss[k - 1])
    }
}

/// Cyclomatic complexity of a body: one more than its decision points
/// (1 without a body).
pub open spec fn cyclomatic_spec(body: Option<Vec<Stmt>>) -> nat {
    match body {
        None => 1,
        Some(ss) => clamp(1 + decisions_in_stmts(ss@, ss@.len() as int)),
    }
}


// ----- NPath -------------------------------------------------------------------

/// The boolean complexity NPath gives a condition: its `&&` and `||`, or
/// one less than its own paths, whichever is more.
pub open spec fn condition_paths(n: Node) -> nat
    decreases n, 2nat,
{
    max_nat(clamp(logic_in(n)), sat_sub1(npath_of(n)))
}

/// The paths through an expression.
pub open spec fn npath_of(n: Node) -> nat
    decreases n, 1nat,
{
    match n {
        Node::If { cond, then, otherwise } => sat_add(
            sat_add(
                match otherwise {
                    None => 1nat,
                    Some(o) => match *o {
                        Node::If { .. } => npath_of(*o),
                        Node::Block { stmts } => npath_stmts(stmts@, stmts@.len() as int),
                        _ => 1nat,
                    },
                },
                npath_stmts(then@, then@.len() as int),
            ),
            condition_paths(*cond),
        ),
        Node::Match { scrutinee, arms } => {
            let total = npath_arms(arms@, arms@.len() as int, condition_paths(*scrutinee));
            if total == 0 {
                1
            } else {
                total
            }
        },
        Node::ForLoop { pat, iter, body } => sat_add(sat_add(condition_paths(*iter), 1), npath_stmts(body@, body@.len() as int)),
        Node::While { cond, body } => sat_add(sat_add(condition_paths(*cond), 1), npath_stmts(body@, body@.len() as int)),
        Node::Loop { body } => sat_add(1, npath_stmts(body@, body@.len() as int)),
        Node::Block { stmts } => npath_stmts(stmts@, stmts@.len() as int),
        Node::Return { value } => max_nat(
            match value {
                Some(v) => condition_paths(*v),
                None => 0,
            },
            1,
        ),
        Node::Logic { left, right } => sat_mul(sat_mul(1, npath_of(*left)), npath_of(*right)),
        Node::Other { children } => npath_nodes(children@, children@.len() as int),
    }
}

/// The product of the paths of the first `k` expressions.
pub open spec fn npath_nodes(ns: Seq<Node>, k: int) -> nat
    decreases ns, 0nat, k,
{
    if k <= 0 || k > ns.len() {
        1
    } else {
        sat_mul(npath_nodes(ns, k - 1), npath_of(ns[k - 1]))
    }
}

/// `start`, plus the guard and body paths of the first `k` arms.
pub open spec fn npath_arms(arms: Seq<MatchArm>, k: int, start: nat) -> nat
    decreases arms, 0nat, k,
{
    if k <= 0 || k > arms.len() {
        start
    } else {
        let a = arms[k - 1];
        let before = npath_arms(arms, k - 1, start);
        let guarded = match a.guard {
            Some(g) => sat_add(before, condition_paths(*g)),
            None => before,
        };
        sat_add(guarded, npath_of(*a.body))
    }
}

/// The paths through a statement.
pub open spec fn npath_stmt(s: Stmt) -> nat
    decreases s, 1nat,
{
    match s {
        Stmt::Expr(n) => npath_of(n),
        Stmt::Local { pat, init, diverge } => match init {
            None => 1,
            Some(i) => match diverge {
                Some(d) => sat_add(npath_of(i), npath_of(d)),
                None => npath_of(i),
            },
        },
        Stmt::Item(_) => 1,
        Stmt::Macro => 1,
    }
}

/// The product of the paths of the first `k` statements.
pub open spec fn npath_stmts(ss: Seq<Stmt>, k: int) -> nat
    decreases ss, 0nat, k,
{
    if k <= 0 || k > ss.len() {
        1
    } else {
        sat_mul(npath_stmts(ss, k - 1), npath_stmt(ss[k - 1]))
    }
}

/// NPath complexity of a body (1 without a body).
pub open spec fn npath_spec(body: Option<Vec<Stmt>>) -> nat {
    match body {
        None => 1,
        Some(ss) => npath_stmts(ss@, ss@.len() as int),
    }
}


proof fn lemma_sat_mul_pos(a: nat, b: nat)
    requires
        a >= 1,
        b >= 1,
    ensures
        sat_mul(a, b) >= 1,
{
    assert(a * b >= 1) by (nonlinear_arith)
        requires
            a >= 1,
            b >= 1,
    ;
}

/// Every expression has at least one path through it.
pub proof fn lemma_npath_of_positive(n: Node)
    ensures
        npath_of(n) >= 1,
    decreases n, 1nat,
{
    match n {
        Node::If { cond, then, otherwise } => {
            match otherwise {
                Some(o) => match *o {
                    Node::If { .. } => lemma_npath_of_positive(*o),
                    Node::Block { stmts } => lemma_npath_stmts_positive(stmts@, stmts@.len() as int),
                    _ => {},
                },
                None => {},
            }
        },
        Node::Logic { left, right } => {
            lemma_npath_of_positive(*left);
            lemma_npath_of_positive(*right);
            lemma_sat_mul_pos(1, npath_of(*left));
            lemma_sat_mul_pos(sat_mul(1, npath_of(*left)), npath_of(*right));
        },
        Node::Block { stmts } => lemma_npath_stmts_positive(stmts@, stmts@.len() as int),
        Node::Other { children } => lemma_npath_nodes_positive(children@, children@.len() as int),
        _ => {},
    }
}

/// A run of expressions has at least one path through it.
pub proof fn lemma_npath_nodes_positive(ns: Seq<Node>, k: int)
    ensures
        npath_nodes(ns, k) >= 1,
    decreases ns, 0nat, k,
{
    if 0 < k <= ns.len() {
        lemma_npath_nodes_positive(ns, k - 1);
        lemma_npath_of_positive(ns[k - 1]);
        lemma_sat_mul_pos(npath_nodes(ns, k - 1), npath_of(ns[k - 1]));
    }
}

/// Every statement has at least one path through it.
pub proof fn lemma_npath_stmt_positive(s: Stmt)
    ensures
        npath_stmt(s) >= 1,
    decreases s, 1nat,
{
    match s {
        Stmt::Expr(n) => lemma_npath_of_positive(n),
        Stmt::Local { pat, init, diverge } => match init {
            Some(i) => lemma_npath_of_positive(i),
            None => {},
        },
        _ => {},
    }
}

/// A run of statements has at least one path through it.
pub proof fn lemma_npath_stmts_positive(ss: Seq<Stmt>, k: int)
    ensures
        npath_stmts(ss, k) >= 1,
    decreases ss, 0nat, k,
{
    if 0 < k <= ss.len() {
        lemma_npath_stmts_positive(ss, k - 1);
        lemma_npath_stmt_positive(ss[k - 1]);
        lemma_sat_mul_pos(npath_stmts(ss, k - 1), npath_stmt(ss[k - 1]));
    }
}

/// NPath is at least 1 for every body, and cyclomatic complexity too.
pub proof fn law_complexities_at_least_one(body: Option<Vec<Stmt>>)
    ensures
        npath_spec(body) >= 1,
        cyclomatic_spec(body) >= 1,
{
    match body {
        Some(ss) => lemma_npath_stmts_positive(ss@, ss@.len() as int),
        None => {},
    }
}


/// Each loop, each `if` and each `&&` or `||` is one decision point:
/// wrapping statements `body` in one of them (with a condition or iterator
/// that decides nothing) gives a body whose cyclomatic complexity is exactly
/// one more than `body`'s (below the `usize::MAX` cap).
pub proof fn law_each_branch_is_one_decision(body: Vec<Stmt>, pat: Vec<Node>, children: Vec<Node>, wrapped: Vec<Stmt>)
    requires
        pat@.len() == 0,
        children@.len() == 0,
        wrapped@ == seq![Stmt::Expr((Node::ForLoop { pat, iter: Box::new((Node::Other { children })), body }))]
            || wrapped@ == seq![Stmt::Expr((Node::While { cond: Box::new((Node::Other { children })), body }))]
            || wrapped@ == seq![Stmt::Expr((Node::Loop { body }))]
            || wrapped@ == seq![Stmt::Expr((Node::If { cond: Box::new((Node::Other { children })), then: body, otherwise: None }))]
            || wrapped@ == seq![Stmt::Expr((Node::Logic {
                left: Box::new((Node::Block { stmts: body })),
                right: Box::new((Node::Other { children })),
            }))],
        cyclomatic_spec(Some(body)) < usize::MAX,
    ensures
        cyclomatic_spec(Some(wrapped)) == cyclomatic_spec(Some(body)) + 1,
{
    let s = wrapped@[0];
    assert(decisions_in_stmts(wrapped@, 1) == decisions_in_stmts(wrapped@, 0) + decisions_in_stmt(s));
    assert(decisions_in_nodes(children@, 0) == 0);
    assert(decisions_in_nodes(pat@, 0) == 0);
    assert(decisions_in((Node::Other { children })) == 0);
    assert(decisions_in((Node::Block { stmts: body })) == decisions_in_stmts(body@, body@.len() as int));
}

/// Each match arm but a lone `_` is one decision point: a `match` on an
/// operand that decides nothing, with one arm whose pattern decides nothing
/// and whose body is the block `body`, has a cyclomatic complexity one more
/// than `body`'s, or equal to it for a lone `_` arm.
pub proof fn law_match_arms_are_decisions(body: Vec<Stmt>, children: Vec<Node>, arms: Vec<MatchArm>, wrapped: Vec<Stmt>)
    requires
        children@.len() == 0,
        arms@.len() == 1,
        arms@[0].pat@.len() == 0,
        arms@[0].guard is None,
        arms@[0].body == Box::new((Node::Block { stmts: body })),
        wrapped@ == seq![Stmt::Expr((Node::Match { scrutinee: Box::new((Node::Other { children })), arms }))],
        cyclomatic_spec(Some(body)) < usize::MAX,
    ensures
        cyclomatic_spec(Some(wrapped)) == cyclomatic_spec(Some(body)) + if arms@[0].wild {
            0int
        } else {
            1int
        },
{
    let s = wrapped@[0];
    assert(decisions_in_stmts(wrapped@, 1) == decisions_in_stmts(wrapped@, 0) + decisions_in_stmt(s));
    assert(decisions_in_nodes(children@, 0) == 0);
    assert(decisions_in_nodes(arms@[0].pat@, 0) == 0);
    assert(decisions_in((Node::Other { children })) == 0);
    assert(decisions_in((Node::Block { stmts: body })) == decisions_in_stmts(body@, body@.len() as int));
    assert(decisions_in_arms(arms@, 1) == decisions_in_arms(arms@, 0) + (if arms@[0].wild { 0nat } else { 1nat })
        + decisions_in_nodes(arms@[0].pat@, arms@[0].pat@.len() as int) + decisions_in(*arms@[0].body));
}

// ----- computing them ----------------------------------------------------------

fn sadd(a: usize, b: usize) -> (r: usize)
    ensures
        r == sat_add(a as nat, b as nat),
{
    a.saturating_add(b)
}

fn smul(a: usize, b: usize) -> (r: usize)
    ensures
        r == sat_mul(a as nat, b as nat),
{
    match a.checked_mul(b) {
        Some(v) => v,
        None => usize::MAX,
    }
}

fn opt_logic(n: &Option<Box<Node>>) -> (r: usize)
    ensures
        r == clamp(match *n {
            Some(b) => logic_in(*b),
            None => 0,
        }),
    decreases *n, 2nat,
{
    match n {
        Some(b) => logic_count(b),
        None => 0,
    }
}

/// `logic_in`, stopping at `usize::MAX`.
fn logic_count(n: &Node) -> (r: usize)
    ensures
        r == clamp(logic_in(*n)),
    decreases *n, 1nat,
{
    match n {
        Node::If { cond, then, otherwise } => sadd(sadd(logic_count(cond), logic_stmts(then)), opt_logic(otherwise)),
        Node::Match { scrutinee, arms } => sadd(logic_count(scrutinee), logic_arms(arms)),
        Node::ForLoop { pat, iter, body } => sadd(sadd(logic_nodes(pat), logic_count(iter)), logic_stmts(body)),
        Node::While { cond, body } => sadd(logic_count(cond), logic_stmts(body)),
        Node::Loop { body } => logic_stmts(body),
        Node::Block { stmts } => logic_stmts(stmts),
        Node::Return { value } => opt_logic(value),
        Node::Logic { left, right } => sadd(sadd(1, logic_count(left)), logic_count(right)),
        Node::Other { children } => logic_nodes(children),
    }
}

fn logic_nodes(ns: &Vec<Node>) -> (r: usize)
    ensures
        r == clamp(logic_in_nodes(ns@, ns@.len() as int)),
    decreases ns@, 0nat,
{
    let mut acc: usize = 0;
    let mut k: usize = 0;
    while k < ns.len()
        invariant
            k <= ns.len(),
            acc == clamp(logic_in_nodes(ns@, k as int)),
        decreases ns.len() - k,
    {
        acc = sadd(acc, logic_count(&ns[k]));
        k = k + 1;
    }
    acc
}

fn logic_arms(arms: &Vec<MatchArm>) -> (r: usize)
    ensures
        r == clamp(logic_in_arms(arms@, arms@.len() as int)),
    decreases arms@, 0nat,
{
    let mut acc: usize = 0;
    let mut k: usize = 0;
    while k < arms.len()
        invariant
            k <= arms.len(),
            acc == clamp(logic_in_arms(arms@, k as int)),
        decreases arms.len() - k,
    {
        let a = &arms[k];
        acc = sadd(sadd(sadd(acc, logic_nodes(&a.pat)), opt_logic(&a.guard)), logic_count(&a.body));
        k = k + 1;
    }
    acc
}

fn logic_stmt(st: &Stmt) -> (r: usize)
    ensures
        r == clamp(logic_in_stmt(*st)),
    decreases *st, 1nat,
{
    match st {
        Stmt::Expr(n) => logic_count(n),
        Stmt::Local { pat, init, diverge } => {
            let a = logic_nodes(pat);
            let b = match init {
                Some(i) => logic_count(i),
                None => 0,
            };
            let c = match diverge {
                Some(d) => logic_count(d),
                None => 0,
            };
            sadd(sadd(a, b), c)
        },
        Stmt::Item(ns) => logic_nodes(ns),
        Stmt::Macro => 0,
    }
}

fn logic_stmts(ss: &Vec<Stmt>) -> (r: usize)
    ensures
        r == clamp(logic_in_stmts(ss@, ss@.len() as int)),
    decreases ss@, 0nat,
{
    let mut acc: usize = 0;
    let mut k: usize = 0;
    while k < ss.len()
        invariant
            k <= ss.len(),
            acc == clamp(logic_in_stmts(ss@, k as int)),
        decreases ss.len() - k,
    {
        acc = sadd(acc, logic_stmt(&ss[k]));
        k = k + 1;
    }
    acc
}


fn opt_decisions(n: &Option<Box<Node>>) -> (r: usize)
    ensures
        r == clamp(match *n {
            Some(b) => decisions_in(*b),
            None => 0,
        }),
    decreases *n, 2nat,
{
    match n {
        Some(b) => decision_count(b),
        None => 0,
    }
}

/// `decisions_in`, stopping at `usize::MAX`.
fn decision_count(n: &Node) -> (r: usize)
    ensures
        r == clamp(decisions_in(*n)),
    decreases *n, 1nat,
{
    match n {
        Node::If { cond, then, otherwise } => sadd(sadd(sadd(1, decision_count(cond)), decision_stmts(then)), opt_decisions(otherwise)),
        Node::Match { scrutinee, arms } => sadd(decision_count(scrutinee), decision_arms(arms)),
        Node::ForLoop { pat, iter, body } => sadd(sadd(sadd(1, decision_nodes(pat)), decision_count(iter)), decision_stmts(body)),
        Node::While { cond, body } => sadd(sadd(1, decision_count(cond)), decision_stmts(body)),
        Node::Loop { body } => sadd(1, decision_stmts(body)),
        Node::Block { stmts } => decision_stmts(stmts),
        Node::Return { value } => opt_decisions(value),
        Node::Logic { left, right } => sadd(sadd(1, decision_count(left)), decision_count(right)),
        Node::Other { children } => decision_nodes(children),
    }
}

fn decision_nodes(ns: &Vec<Node>) -> (r: usize)
    ensures
        r == clamp(decisions_in_nodes(ns@, ns@.len() as int)),
    decreases ns@, 0nat,
{
    let mut acc: usize = 0;
    let mut k: usize = 0;
    while k < ns.len()
        invariant
            k <= ns.len(),
            acc == clamp(decisions_in_nodes(ns@, k as int)),
        decreases ns.len() - k,
    {
        acc = sadd(acc, decision_count(&ns[k]));
        k = k + 1;
    }
    acc
}

fn decision_arms(arms: &Vec<MatchArm>) -> (r: usize)
    ensures
        r == clamp(decisions_in_arms(arms@, arms@.len() as int)),
    decreases arms@, 0nat,
{
    let mut acc: usize = 0;
    let mut k: usize = 0;
    while k < arms.len()
        invariant
            k <= arms.len(),
            acc == clamp(decisions_in_arms(arms@, k as int)),
        decreases arms.len() - k,
    {
        let a = &arms[k];
        let own: usize = if a.wild { 0 } else { 1 };
        let guard = match &a.guard {
            Some(g) => sadd(1, decision_count(g)),
            None => 0,
        };
        acc = sadd(sadd(sadd(sadd(acc, own), decision_nodes(&a.pat)), guard), decision_count(&a.body));
        k = k + 1;
    }
    acc
}

fn decision_stmt(st: &Stmt) -> (r: usize)
    ensures
        r == clamp(decisions_in_stmt(*st)),
    decreases *st, 1nat,
{
    match st {
        Stmt::Expr(n) => decision_count(n),
        Stmt::Local { pat, init, diverge } => {
            let a = decision_nodes(pat);
            let b = match init {
                Some(i) => decision_count(i),
                None => 0,
            };
            let c = match diverge {
                Some(d) => decision_count(d),
                None => 0,
            };
            sadd(sadd(a, b), c)
        },
        Stmt::Item(ns) => decision_nodes(ns),
        Stmt::Macro => 0,
    }
}

fn decision_stmts(ss: &Vec<Stmt>) -> (r: usize)
    ensures
        r == clamp(decisions_in_stmts(ss@, ss@.len() as int)),
    decreases ss@, 0nat,
{
    let mut acc: usize = 0;
    let mut k: usize = 0;
    while k < ss.len()
        invariant
            k <= ss.len(),
            acc == clamp(decisions_in_stmts(ss@, k as int)),
        decreases ss.len() - k,
    {
        acc = sadd(acc, decision_stmt(&ss[k]));
        k = k + 1;
    }
    acc
}

/// Cyclomatic complexity of a body: 1 plus its decision points (1 without
/// a body).
pub fn cyclomatic_complexity(body: &Option<Vec<Stmt>>) -> (r: usize)
    ensures
        r == cyclomatic_spec(*body),
{
    match body {
        None => 1,
        Some(ss) => sadd(1, decision_stmts(ss)),
    }
}

fn condition_exec(n: &Node) -> (r: usize)
    ensures
        r == condition_paths(*n),
    decreases *n, 2nat,
{
    let l = logic_count(n);
    let p = npath_exec(n);
    let q = if p == 0 { 0 } else { p - 1 };
    if l >= q { l } else { q }
}

/// `npath_of`.
fn npath_exec(n: &Node) -> (r: usize)
    ensures
        r == npath_of(*n),
        r <= usize::MAX,
    decreases *n, 1nat,
{
    match n {
        Node::If { cond, then, otherwise } => {
            let else_part = match otherwise {
                None => 1,
                Some(o) => match &**o {
                    Node::If { .. } => npath_exec(o),
                    Node::Block { stmts } => npath_stmts_exec(stmts),
                    _ => 1,
                },
            };
            sadd(sadd(else_part, npath_stmts_exec(then)), condition_exec(cond))
        },
        Node::Match { scrutinee, arms } => {
            let total = npath_arms_exec(arms, condition_exec(scrutinee));
            if total == 0 { 1 } else { total }
        },
        Node::ForLoop { pat, iter, body } => sadd(sadd(condition_exec(iter), 1), npath_stmts_exec(body)),
        Node::While { cond, body } => sadd(sadd(condition_exec(cond), 1), npath_stmts_exec(body)),
        Node::Loop { body } => sadd(1, npath_stmts_exec(body)),
        Node::Block { stmts } => npath_stmts_exec(stmts),
        Node::Return { value } => {
            let v = match value {
                Some(v) => condition_exec(v),
                None => 0,
            };
            if v >= 1 { v } else { 1 }
        },
        Node::Logic { left, right } => smul(smul(1, npath_exec(left)), npath_exec(right)),
        Node::Other { children } => npath_nodes_exec(children),
    }
}

fn npath_nodes_exec(ns: &Vec<Node>) -> (r: usize)
    ensures
        r == npath_nodes(ns@, ns@.len() as int),
    decreases ns@, 0nat,
{
    let mut acc: usize = 1;
    let mut k: usize = 0;
    while k < ns.len()
        invariant
            k <= ns.len(),
            acc == npath_nodes(ns@, k as int),
        decreases ns.len() - k,
    {
        acc = smul(acc, npath_exec(&ns[k]));
        k = k + 1;
    }
    acc
}

fn npath_arms_exec(arms: &Vec<MatchArm>, start: usize) -> (r: usize)
    ensures
        r == npath_arms(arms@, arms@.len() as int, start as nat),
    decreases arms@, 0nat,
{
    let mut acc: usize = start;
    let mut k: usize = 0;
    while k < arms.len()
        invariant
            k <= arms.len(),
            acc == npath_arms(arms@, k as int, start as nat),
        decreases arms.len() - k,
    {
        let a = &arms[k];
        let guarded = match &a.guard {
            Some(g) => sadd(acc, condition_exec(g)),
            None => acc,
        };
        acc = sadd(guarded, npath_exec(&a.body));
        k = k + 1;
    }
    acc
}

fn npath_stmt_exec(st: &Stmt) -> (r: usize)
    ensures
        r == npath_stmt(*st),
    decreases *st, 1nat,
{
    match st {
        Stmt::Expr(n) => npath_exec(n),
        Stmt::Local { pat, init, diverge } => match init {
            None => 1,
            Some(i) => match diverge {
                Some(d) => sadd(npath_exec(i), npath_exec(d)),
                None => npath_exec(i),
            },
        },
        Stmt::Item(_) => 1,
        Stmt::Macro => 1,
    }
}

fn npath_stmts_exec(ss: &Vec<Stmt>) -> (r: usize)
    ensures
        r == npath_stmts(ss@, ss@.len() as int),
    decreases ss@, 0nat,
{
    let mut acc: usize = 1;
    let mut k: usize = 0;
    while k < ss.len()
        invariant
            k <= ss.len(),
            acc == npath_stmts(ss@, k as int),
        decreases ss.len() - k,
    {
        acc = smul(acc, npath_stmt_exec(&ss[k]));
        k = k + 1;
    }
    acc
}

/// NPath complexity of a body: the number of acyclic paths through it,
/// stopping at `usize::MAX` (1 without a body).
pub fn npath_complexity(body: &Option<Vec<Stmt>>) -> (r: usize)
    ensures
        r == npath_spec(*body),
{
    match body {
        None => 1,
        Some(ss) => npath_stmts_exec(ss),
    }
}

} // verus!
