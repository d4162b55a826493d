use messrust::nesting::{check_parse_nesting, guarded_tokens, is_well_nested, parse_file, TokenEvent};

fn nested_parentheses(depth: usize) -> String {
    let mut source = String::from("fn main() { ");
    source.extend(std::iter::repeat_n('(', depth));
    source.push('1');
    source.extend(std::iter::repeat_n(')', depth));
    source.push_str("; }\n");
    source
}

fn nested_struct_literals(depth: usize) -> String {
    let mut source = String::from("struct S { field: Option<Box<S>> }\nfn main() { let value = ");
    source.extend(std::iter::repeat_n("S { field: Some(", depth));
    source.push_str("None");
    source.extend(std::iter::repeat_n(") }", depth));
    source.push_str("; }\n");
    source
}

fn nested_if_blocks(depth: usize) -> String {
    let mut source = String::from("fn main() { ");
    source.extend(std::iter::repeat_n("if true { ", depth));
    source.push_str("1;");
    source.extend(std::iter::repeat_n(" }", depth));
    source.push_str(" }\n");
    source
}

#[test]
fn rejects_deep_parentheses_before_syn_parses() {
    assert_eq!(
        parse_file(&nested_parentheses(2683)).err().as_deref(),
        Some("source nesting exceeds parser safety limit of 256")
    );
}

#[test]
fn rejects_deep_closure_chain_before_syn_parses() {
    let mut source = String::from("fn main() { let value = ");
    source.extend(std::iter::repeat_n("|value| ", 1952));
    source.push_str("value; }\n");

    assert_eq!(
        parse_file(&source).err().as_deref(),
        Some("source nesting exceeds parser safety limit of 256")
    );
}

#[test]
fn rejects_deep_struct_literals_before_syn_parses() {
    assert_eq!(
        parse_file(&nested_struct_literals(914)).err().as_deref(),
        Some("source nesting exceeds parser safety limit of 256")
    );
}

#[test]
fn rejects_deep_if_blocks_before_syn_parses() {
    assert_eq!(
        parse_file(&nested_if_blocks(2000)).err().as_deref(),
        Some("source nesting exceeds parser safety limit of 256")
    );
}

#[test]
fn rejects_deep_generics_before_syn_parses() {
    let mut source = String::from("fn f() -> ");
    source.extend(std::iter::repeat_n("Option<", 200));
    source.push_str("i32");
    source.extend(std::iter::repeat_n('>', 200));
    source.push_str(" { None }\n");

    assert_eq!(
        parse_file(&source).err().as_deref(),
        Some("source nesting exceeds parser safety limit of 64")
    );
}

#[test]
fn rejects_deep_binary_operator_chain_before_syn_parses() {
    let mut source = String::from("fn f() -> bool { ");
    for i in 0..1000 {
        if i > 0 {
            source.push_str(" && ");
        }
        source.push_str("true");
    }
    source.push_str(" }\n");

    assert_eq!(
        parse_file(&source).err().as_deref(),
        Some("source nesting exceeds parser safety limit of 500")
    );
}

#[test]
fn parses_shallow_nesting() {
    assert!(parse_file(&nested_parentheses(32)).is_ok());
}

#[test]
fn exactly_the_deepest_allowed_group_passes() {
    let mut events = Vec::new();
    for _ in 0..256 {
        events.push(TokenEvent::Open);
    }
    for _ in 0..256 {
        events.push(TokenEvent::Close);
    }
    assert!(check_parse_nesting(&events).is_ok());
    events.insert(0, TokenEvent::Open);
    events.push(TokenEvent::Close);
    assert_eq!(check_parse_nesting(&events).err().as_deref(), Some("source nesting exceeds parser safety limit of 256"));
}

#[test]
fn groups_must_open_before_they_close() {
    assert!(is_well_nested(&vec![TokenEvent::Open, TokenEvent::Literal, TokenEvent::Close]));
    assert!(!is_well_nested(&vec![TokenEvent::Close, TokenEvent::Open]));
    assert!(is_well_nested(&vec![TokenEvent::Open]));
    assert!(is_well_nested(&vec![]));
}

#[test]
fn guarded_tokens_flatten_groups_and_report_tokenizer_errors() {
    let tokens = guarded_tokens("f(a, 1)").unwrap();
    assert!(matches!(tokens[0], TokenEvent::Ident(ref n) if n == "f"));
    assert!(matches!(tokens[1], TokenEvent::Open));
    assert!(matches!(tokens[tokens.len() - 1], TokenEvent::Close));
    assert_eq!(tokens.len(), 6);
    assert!(guarded_tokens("fn f() { \"unterminated }").is_err());
    assert_eq!(
        guarded_tokens(&nested_parentheses(300)).err().as_deref(),
        Some("source nesting exceeds parser safety limit of 256")
    );
}

fn chain(head: &str, link: &str, count: usize, tail: &str) -> String {
    let mut source = String::from(head);
    for _ in 0..count {
        source.push_str(link);
    }
    source.push_str(tail);
    source
}

#[test]
fn rejects_long_assignment_chains_before_syn_parses() {
    let limit = Some("source nesting exceeds parser safety limit of 400");
    assert_eq!(parse_file(&chain("fn f() { a", " = a", 100_000, "; }")).err().as_deref(), limit);
    assert_eq!(parse_file(&chain("fn f() { a", " += a", 100_000, "; }")).err().as_deref(), limit);
    assert_eq!(parse_file(&chain("fn f() { a", " >>= a", 100_000, "; }")).err().as_deref(), limit);
    assert!(parse_file(&chain("fn f() { a", " = a", 100, "; }")).is_ok());
}

#[test]
fn rejects_long_prefix_chains_before_syn_parses() {
    let limit = Some("source nesting exceeds parser safety limit of 400");
    assert_eq!(parse_file(&chain("fn f() { let x = ", "&&", 50_000, "y; }")).err().as_deref(), limit);
    assert_eq!(parse_file(&chain("fn f() { let x = ", "!", 50_000, "y; }")).err().as_deref(), limit);
    assert_eq!(parse_file(&chain("fn f() { ", "return ", 50_000, "; }")).err().as_deref(), limit);
    assert_eq!(parse_file(&chain("type T = ", "fn() -> ", 50_000, "u8;")).err().as_deref(), limit);
    assert_eq!(parse_file(&chain("type T = ", "Fn() -> ", 50_000, "u8;")).err().as_deref(), limit);
    assert_eq!(parse_file(&chain("fn f() { let ", "a @ ", 50_000, "b = 1; }")).err().as_deref(), limit);
    assert_eq!(parse_file(&chain("fn f() { let y = x as ", "&", 50_000, "u8; }")).err().as_deref(), limit);
    assert_eq!(parse_file(&chain("fn f() { let y = a && ", "&", 50_000, "b; }")).err().as_deref(), limit);
    assert_eq!(parse_file(&chain("type T<'a> = ", "&'a ", 50_000, "u8;")).err().as_deref(), limit);
    assert_eq!(
        parse_file(&chain("fn f() { a", " = a = (a", 250, &format!("{}; }}", ")".repeat(250)))).err().as_deref(),
        limit
    );
}

#[test]
fn long_binary_chains_items_and_statements_stay_within_the_limits() {
    assert!(parse_file(&chain("fn f() -> bool { a", " && a", 450, " }")).is_ok());
    assert!(parse_file(&chain("", "pub fn f() -> u8 { 0 }\n", 1_000, "")).is_ok());
    assert!(parse_file(&chain("fn f() { ", "if a { b = c; } else if d { e = &&f; }\n", 1_000, "}")).is_ok());
    assert!(parse_file(&chain("fn f() { ", "let x = -1;\n", 1_000, "}")).is_ok());
}

#[test]
fn parser_failures_come_out_as_the_parser_message() {
    let e = parse_file("fn f() { let = ; }").err().unwrap();
    assert!(!e.is_empty());
    assert!(!e.starts_with("source nesting"));
    assert!(parse_file("struct S;").is_ok());
}

#[test]
fn ordinary_sources_pass_the_guard() {
    let lines = [
        "use std::collections::HashMap;",
        "",
        "#[derive(Debug, Clone)]",
        "pub struct Store<'a, T: Clone + Default> where T: Send {",
        "    items: HashMap<&'a str, Vec<Option<Box<T>>>>,",
        "    count: usize,",
        "}",
        "",
        "impl<'a, T: Clone + Default + Send> Store<'a, T> {",
        "    pub fn new() -> Self { Self { items: HashMap::new(), count: 0 } }",
        "",
        "    pub fn add(&mut self, key: &'a str, value: T) -> Result<&mut Self, String> {",
        "        if key.is_empty() || key.len() > 10 && !key.starts_with('_') {",
        "            return Err(format!(\"bad key {key}\"));",
        "        } else if let Some(v) = self.items.get_mut(key) {",
        "            v.push(Some(Box::new(value)));",
        "        } else {",
        "            self.items.insert(key, vec![Some(Box::new(value))]);",
        "        }",
        "        self.count += 1;",
        "        self.count = self.count.saturating_mul(2) >> 1;",
        "        let total: usize = self.items.values().map(|v| v.len()).filter(|&n| n != 0).sum();",
        "        match total {",
        "            0 => {},",
        "            1..=9 => self.count -= 0,",
        "            n if n >= 10 => { let _ = &&n; },",
        "            _ => unreachable!(),",
        "        }",
        "        Ok(self)",
        "    }",
        "",
        "    async fn later(&self) -> impl Fn(u8) -> Option<u8> + '_ {",
        "        move |x| x.checked_add(1).map(|y| -(y as i8) as u8)",
        "    }",
        "}",
        "",
        "fn main() {",
        "    let mut s: Store<'_, u32> = Store::new();",
        "    let _ = s.add(\"a\", 1).and_then(|s| s.add(\"b\", 2));",
        "    for (i, c) in \"abc\".chars().enumerate() { if c == 'a' { continue; } let _ = i; }",
        "    let r = r\"raw\" ; let b = b'x'; let rb = br#\"bytes\"#;",
        "    let _ = (r, b, rb);",
        "}",
    ];
    let source = lines.join("\n");
    assert!(guarded_tokens(&source).is_ok());
    assert!(parse_file(&source).is_ok());
}
