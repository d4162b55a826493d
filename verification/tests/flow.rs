use messrust::analyze::flow::{cyclomatic_complexity, npath_complexity, MatchArm, Node, Stmt};

fn leaf() -> Node {
    Node::Other { children: vec![] }
}

fn if_else(cond: Node) -> Node {
    Node::If {
        cond: Box::new(cond),
        then: vec![Stmt::Expr(leaf())],
        otherwise: Some(Box::new(Node::Block { stmts: vec![Stmt::Expr(leaf())] })),
    }
}

fn logic() -> Node {
    Node::Logic { left: Box::new(leaf()), right: Box::new(leaf()) }
}

#[test]
fn a_body_without_branches_has_one_path() {
    let body = Some(vec![Stmt::Expr(leaf()), Stmt::Macro, Stmt::Local { pat: vec![], init: Some(leaf()), diverge: None }]);
    assert_eq!(cyclomatic_complexity(&body), 1);
    assert_eq!(npath_complexity(&body), 1);
    assert_eq!(cyclomatic_complexity(&None), 1);
    assert_eq!(npath_complexity(&None), 1);
}

#[test]
fn conditions_add_their_boolean_operators() {
    let body = Some(vec![Stmt::Expr(if_else(logic()))]);
    assert_eq!(cyclomatic_complexity(&body), 3);
    assert_eq!(npath_complexity(&body), 3);
}

#[test]
fn consecutive_branches_multiply() {
    let body = Some(vec![Stmt::Expr(if_else(leaf())), Stmt::Expr(if_else(leaf()))]);
    assert_eq!(cyclomatic_complexity(&body), 3);
    assert_eq!(npath_complexity(&body), 4);
}

#[test]
fn match_arms_add_paths_and_wildcards_are_no_decision() {
    let arm = |wild: bool| MatchArm { wild, pat: vec![], guard: None, body: Box::new(leaf()) };
    let guarded = MatchArm { wild: false, pat: vec![], guard: Some(Box::new(logic())), body: Box::new(leaf()) };
    let m = Node::Match { scrutinee: Box::new(leaf()), arms: vec![arm(false), guarded, arm(true)] };
    let body = Some(vec![Stmt::Expr(m)]);
    // two arms that are no wildcard, one guard, one `&&`
    assert_eq!(cyclomatic_complexity(&body), 5);
    // 0 + 1 + (1 + 1) + 1
    assert_eq!(npath_complexity(&body), 4);
}

#[test]
fn loops_add_one_path_around_their_body() {
    let body = Some(vec![Stmt::Expr(Node::While { cond: Box::new(leaf()), body: vec![Stmt::Expr(if_else(leaf()))] })]);
    assert_eq!(cyclomatic_complexity(&body), 3);
    // 0 + 1 + 2
    assert_eq!(npath_complexity(&body), 3);
    let looped = Some(vec![Stmt::Expr(Node::Loop { body: vec![] })]);
    assert_eq!(npath_complexity(&looped), 2);
    let ret = Some(vec![Stmt::Expr(Node::Return { value: None })]);
    assert_eq!(npath_complexity(&ret), 1);
}
