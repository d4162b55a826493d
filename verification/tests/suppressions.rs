use messrust::suppressions::Suppressions;

#[test]
fn supports_next_line_regions_and_case_insensitive_names() {
    let source = "// messrust-disable-next-line longvariable\nfn first() {}\n// messrust-disable ShortMethodName\nfn second() {}\n// messrust-enable shortmethodname\nfn third() {}\n";
    let suppressions = Suppressions::from_source(source);
    assert!(suppressions.contains(2, "LongVariable"));
    assert!(suppressions.contains(4, "shortmethodname"));
    assert!(!suppressions.contains(6, "ShortMethodName"));
}

#[test]
fn ignores_directive_text_in_strings_and_accepts_block_comments() {
    let source = "let text = \"// messrust-disable LongVariable\";\n/* messrust-disable-next-line LongVariable */\nlet value = 1;\n";
    let suppressions = Suppressions::from_source(source);
    assert!(!suppressions.contains(1, "LongVariable"));
    assert!(suppressions.contains(3, "LongVariable"));
}

#[test]
fn keeps_line_numbers_after_multiline_strings_and_rejects_bad_commands() {
    let source = "let text = r#\"first\n// messrust-disable LongVariable\nlast\"#;\n// messrust-disable-next-line LongVariable\nlet value = 1;\n// messrust-disable-next-linefoo\nlet other = 2;\n";
    let suppressions = Suppressions::from_source(source);
    assert!(suppressions.contains(5, "LongVariable"));
    assert!(!suppressions.contains(7, "foo"));
}

#[test]
fn one_active_rule_uses_one_interval_for_many_lines() {
    let mut source = String::from("// messrust-disable LongVariable\n");
    source.extend(std::iter::repeat_n("let value = 1;\n", 10_000));

    let suppressions = Suppressions::from_source(&source);
    let rule = suppressions.rule_entry("longvariable").unwrap();

    assert_eq!(rule.intervals(), &vec![(2, usize::MAX)]);
    assert!(rule.lines().is_empty());
}

#[test]
fn many_directives_create_one_interval_for_each_active_region() {
    let mut source = String::new();
    for _ in 0..5_000 {
        source.push_str("// messrust-disable LongVariable\n");
        source.push_str("let suppressed = 1;\n");
        source.push_str("// messrust-enable LongVariable\n");
        source.push_str("let active = 1;\n");
    }

    let suppressions = Suppressions::from_source(&source);
    let rule = suppressions.rule_entry("longvariable").unwrap();

    assert_eq!(rule.intervals().len(), 5_000);
    assert_eq!(rule.intervals()[0], (2, 2));
    assert_eq!(rule.intervals()[4_999], (19_998, 19_998));
    assert!(rule.lines().is_empty());
}

#[test]
fn try_from_source_refuses_a_source_ending_inside_an_escape() {
    assert!(Suppressions::try_from_source("let s = \"ab\\").is_none());
    assert!(Suppressions::try_from_source("let c = 'a';\n").is_some());
}

#[test]
fn a_rule_no_directive_names_has_no_entry() {
    let suppressions = Suppressions::from_source("// messrust-disable LongVariable\nlet x = 1;\n");
    assert!(suppressions.rule_entry("ShortVariable").is_none());
    assert!(!suppressions.contains(2, "ShortVariable"));
    assert!(suppressions.contains(2, "LONGVARIABLE"));
    assert!(!suppressions.contains(1, "LongVariable"));
}

#[test]
fn next_line_directive_covers_only_the_following_line() {
    let suppressions = Suppressions::from_source("// messrust-disable-next-line A, B\nx\ny\n");
    assert!(suppressions.contains(2, "a"));
    assert!(suppressions.contains(2, "b"));
    assert!(!suppressions.contains(3, "a"));
    assert_eq!(suppressions.rule_entry("A").unwrap().lines(), &vec![2]);
}

#[test]
fn directive_case_does_not_change_what_is_suppressed() {
    let lower = "// messrust-disable-next-line longvariable\nlet a = 1;\n/* messrust-disable shortvariable */\nlet b = 2;\n// messrust-enable shortvariable\nlet c = 3;\n";
    let upper = "// MESSRUST-DISABLE-NEXT-LINE LONGVARIABLE\nlet a = 1;\n/* Messrust-Disable ShortVariable */\nlet b = 2;\n// MessRust-Enable SHORTVARIABLE\nlet c = 3;\n";
    let a = Suppressions::from_source(lower);
    let b = Suppressions::from_source(upper);
    for line in 1..8 {
        for rule in ["LongVariable", "longvariable", "ShortVariable", "SHORTVARIABLE", "Other"] {
            assert_eq!(a.contains(line, rule), b.contains(line, rule), "line {line}, rule {rule}");
        }
    }
    assert!(b.contains(2, "longVariable"));
    assert!(b.contains(4, "ShortVariable"));
    assert!(!b.contains(6, "ShortVariable"));
}

#[test]
fn the_case_of_code_and_comments_does_not_change_what_is_suppressed() {
    let a = "let bar = \"x\"; // messrust-disable-next-line longvariable\nlet r = br\"q\";\n/* messrust-disable shortvariable */\nlet b = 2;\n";
    let b = "LET BAR = \"x\"; // MESSRUST-DISABLE-NEXT-LINE LONGVARIABLE\nLET R = br\"q\";\n/* MESSRUST-DISABLE SHORTVARIABLE */\nLET B = 2;\n";
    let first = Suppressions::from_source(a);
    let second = Suppressions::from_source(b);
    for line in 1..6 {
        for rule in ["LongVariable", "ShortVariable", "Other"] {
            assert_eq!(first.contains(line, rule), second.contains(line, rule), "line {line}, rule {rule}");
        }
    }
    assert!(second.contains(2, "longvariable"));
    assert!(second.contains(4, "shortvariable"));
}
