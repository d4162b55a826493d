use messrust::analyze::kind::RuleKind;
use messrust::analyze::rules::cleancode::duplicate_keys;
use messrust::analyze::rules::design::{counting_hits, exit_line_of, mutated_names};
use messrust::analyze::{analyze_files, analyze_one, input_ready_check, sort_by_location, FileInput, TestModuleRanges};
use messrust::metrics::effective_lines;
use messrust::report::Violation;

fn finding(file: &str, line: usize, rule: &str) -> Violation {
    Violation {
        file: file.to_string(),
        begin_line: line,
        end_line: line,
        rule_name: rule.to_string(),
        ruleset_name: String::new(),
        description: String::new(),
        priority: 3,
        package: String::new(),
        function: String::new(),
        class: String::new(),
        method: String::new(),
        external_info_url: String::new(),
        suppressed: false,
    }
}

#[test]
fn many_production_findings_use_logarithmic_range_queries() {
    let count = 4_096;
    let ranges = (0..count)
        .map(|index| (10_000 + index * 2, 10_000 + index * 2))
        .collect();
    let test_modules = TestModuleRanges::new(ranges);

    for line in 1..=count {
        assert!(!test_modules.contains(line));
    }
}

#[test]
fn many_one_line_spans_scan_the_source_once() {
    let line_count = 4_000;
    let source = (0..line_count)
        .map(|index| format!("fn function_{index}() {{}}"))
        .collect::<Vec<_>>()
        .join("\n");

    let prefix = effective_lines(&source);
    for line in 1..=line_count {
        assert_eq!(prefix.count(line, line), 1);
    }
}

#[test]
fn test_ranges_answer_for_every_line_they_cover() {
    let ranges = TestModuleRanges::new(vec![(20, 30), (5, 8), (25, 40), (41, 41)]);
    for line in [5, 6, 8, 20, 29, 30, 31, 40, 41] {
        assert!(ranges.contains(line), "line {line}");
    }
    for line in [1, 4, 9, 19, 42] {
        assert!(!ranges.contains(line), "line {line}");
    }
}

#[test]
fn effective_lines_skip_blanks_and_comments() {
    let source = "fn a() {\n\n    // note\n    /* block\n       still */\n    let s = \"x\";\n}\n";
    let lines = effective_lines(source);
    assert_eq!(lines.count(1, 7), 3);
    assert_eq!(lines.count(2, 5), 0);
    assert_eq!(lines.count(6, 6), 1);
}

#[test]
fn findings_sort_by_file_then_line() {
    let sorted = sort_by_location(vec![finding("b.rs", 1, "X"), finding("a.rs", 9, "Y"), finding("a.rs", 2, "Z")]);
    let order: Vec<(String, usize)> = sorted.iter().map(|v| (v.file.clone(), v.begin_line)).collect();
    assert_eq!(order, vec![("a.rs".to_string(), 2), ("a.rs".to_string(), 9), ("b.rs".to_string(), 1)]);
}

fn empty_usage() -> messrust::analyze::model::UseDefModel {
    messrust::analyze::model::UseDefModel {
        locals: vec![],
        params: vec![],
        private_fields: vec![],
        private_methods: vec![],
        ident_reads: vec![],
        field_reads: vec![],
        method_calls: vec![],
    }
}

fn model_with_types(types: Vec<messrust::analyze::model::TypeModel>) -> messrust::analyze::model::FileModel {
    messrust::analyze::model::FileModel {
        functions: vec![],
        types,
        variables: vec![],
        constants: vec![],
        usage: empty_usage(),
        duplicate_struct_keys: vec![],
        static_muts: vec![],
        mutated_statics: vec![],
    }
}

fn heavy_method(name: &str, ccn: usize) -> messrust::analyze::model::MethodRef {
    messrust::analyze::model::MethodRef {
        name: name.to_string(),
        begin_line: 2,
        end_line: 3,
        is_public: true,
        has_body: true,
        ccn,
        accessor_field: None,
        used_fields: vec![],
        called_methods: vec![],
    }
}

fn type_of(methods: Vec<messrust::analyze::model::MethodRef>) -> messrust::analyze::model::TypeModel {
    messrust::analyze::model::TypeModel {
        key: "T".to_string(),
        name: "T".to_string(),
        node_type: "struct".to_string(),
        begin_line: 1,
        end_line: 4,
        field_count: 0,
        public_fields: 0,
        fields: vec![],
        methods,
    }
}

fn rule_of(kind: messrust::analyze::kind::RuleKind) -> messrust::ruleset::LoadedRule {
    messrust::ruleset::LoadedRule {
        name: "R".to_string(),
        ruleset_name: "s".to_string(),
        priority: 3,
        properties: vec![],
        kind,
        message: String::new(),
    }
}

fn parsed(source: &str, model: messrust::analyze::model::FileModel) -> messrust::analyze::FileInput {
    messrust::analyze::FileInput::Parsed {
        path: "a.rs".to_string(),
        source: source.to_string(),
        model,
        test_ranges: vec![],
    }
}

#[test]
fn inputs_are_ready_unless_a_scan_or_a_sum_cannot_finish() {
    let complexity = vec![rule_of(RuleKind::ExcessiveClassComplexity)];
    let fine = model_with_types(vec![type_of(vec![heavy_method("a", 3), heavy_method("b", 4)])]);
    assert!(input_ready_check(&parsed("struct T;\n", fine), &complexity));
    let unterminated = model_with_types(vec![]);
    assert!(!input_ready_check(&parsed("let s = \"ab\\", unterminated), &complexity));
    let huge = model_with_types(vec![type_of(vec![heavy_method("a", usize::MAX), heavy_method("b", 1)])]);
    assert!(!input_ready_check(&parsed("struct T;\n", huge), &complexity));
    let huge_again = model_with_types(vec![type_of(vec![heavy_method("a", usize::MAX), heavy_method("b", 1)])]);
    let other = vec![rule_of(RuleKind::TooManyMethods)];
    assert!(input_ready_check(&parsed("struct T;\n", huge_again), &other));
    let failed = messrust::analyze::FileInput::Failed { path: "b.rs".to_string(), message: "unreadable".to_string() };
    assert!(input_ready_check(&failed, &complexity));
}

fn site(name: &str, line: usize) -> messrust::analyze::model::NamedSite {
    messrust::analyze::model::NamedSite { name: name.to_string(), begin_line: line }
}

#[test]
fn repeated_struct_literal_fields_point_at_their_first_writing() {
    let fields = vec![site("a", 1), site("b", 2), site("a", 3), site("c", 4), site("a", 5), site("b", 6)];
    let keys = duplicate_keys(&fields);
    let seen: Vec<(&str, usize, usize)> = keys.iter().map(|k| (k.display.as_str(), k.line, k.first_line)).collect();
    assert_eq!(seen, vec![("a", 3, 1), ("a", 5, 1), ("b", 6, 2)]);
    assert!(duplicate_keys(&vec![site("x", 1), site("y", 2)]).is_empty());
}

fn call(segments: &[&str], line: usize, is_macro: bool) -> messrust::analyze::model::Invocation {
    messrust::analyze::model::Invocation {
        is_macro,
        segments: segments.iter().map(|s| s.to_string()).collect(),
        path_line: line,
        name_line: line,
    }
}

#[test]
fn the_first_exit_or_abort_call_marks_the_exit_line() {
    let calls = vec![
        call(&["exit"], 1, true),
        call(&["helper"], 2, false),
        call(&["std", "process", "abort"], 3, false),
        call(&["process", "exit"], 4, false),
    ];
    assert_eq!(exit_line_of(&calls), Some(3));
    assert_eq!(exit_line_of(&vec![call(&["quit"], 1, false)]), None);
}

fn hit(name: &str, line: usize) -> messrust::analyze::model::CountLoopHit {
    messrust::analyze::model::CountLoopHit { line, func_name: name.to_string(), loop_kind: "while".to_string() }
}

#[test]
fn only_counting_calls_in_loop_heads_are_hits() {
    let hits = counting_hits(vec![hit("len", 1), hit("iter", 2), hit("capacity", 3), hit("count", 4)]);
    let names: Vec<(&str, usize)> = hits.iter().map(|h| (h.func_name.as_str(), h.line)).collect();
    assert_eq!(names, vec![("len", 1), ("capacity", 3)]);
}

#[test]
fn only_assigned_statics_count_as_mutated() {
    let statics = vec![
        ("COUNT".to_string(), site("COUNT", 1)),
        ("inner::COUNT".to_string(), site("COUNT", 5)),
        ("LIMIT".to_string(), site("LIMIT", 2)),
    ];
    let names = mutated_names(&statics, &vec!["inner::COUNT".to_string(), "other".to_string()]);
    assert_eq!(names, vec!["COUNT".to_string()]);
    assert!(mutated_names(&statics, &vec![]).is_empty());
}

fn short_variable_model() -> messrust::analyze::model::FileModel {
    let mut model = model_with_types(vec![]);
    model.variables = vec![
        messrust::analyze::model::NamedBinding { name: "x".to_string(), begin_line: 2, is_loop_binder: false },
        messrust::analyze::model::NamedBinding { name: "y".to_string(), begin_line: 3, is_loop_binder: false },
    ];
    model
}

fn short_variable_rule() -> messrust::ruleset::LoadedRule {
    let mut rule = rule_of(RuleKind::ShortVariable);
    rule.name = "ShortVariable".to_string();
    rule.message = "Avoid variables with short names like {0}".to_string();
    rule
}

#[test]
fn strict_mode_keeps_suppressed_findings_marked() {
    let directive_source = "fn f() {\n    // messrust-disable-next-line shortvariable\n    let y = 2;\n}\n";
    let rules = vec![short_variable_rule()];
    let plain = analyze_one("a.rs", directive_source, &short_variable_model(), vec![], &rules, false, false);
    let strict = analyze_one("a.rs", directive_source, &short_variable_model(), vec![], &rules, true, false);
    let plain_lines: Vec<(usize, bool)> = plain.iter().map(|v| (v.begin_line, v.suppressed)).collect();
    let strict_lines: Vec<(usize, bool)> = strict.iter().map(|v| (v.begin_line, v.suppressed)).collect();
    assert_eq!(plain_lines, vec![(2, false)]);
    assert_eq!(strict_lines, vec![(2, false), (3, true)]);
}

#[test]
fn findings_of_one_line_keep_their_order() {
    let sorted = sort_by_location(vec![
        finding("a.rs", 5, "First"),
        finding("a.rs", 1, "Early"),
        finding("a.rs", 5, "Second"),
        finding("a.rs", 5, "Third"),
    ]);
    let rules: Vec<&str> = sorted.iter().map(|v| v.rule_name.as_str()).collect();
    assert_eq!(rules, vec!["Early", "First", "Second", "Third"]);
}

#[test]
fn getter_names_need_a_word_boundary_after_get() {
    use_getter_names();
}

fn use_getter_names() {
    for name in ["get", "get_ready", "get_status", "getStatus", "GetValue"] {
        assert!(messrust::analyze::helpers::is_getter_name(&name.to_string()), "{name}");
    }
    for name in ["getting_started", "getter", "gets_updated", "ge", "target"] {
        assert!(!messrust::analyze::helpers::is_getter_name(&name.to_string()), "{name}");
    }
}

fn report_inputs() -> Vec<FileInput> {
    let directive_source = "fn f() {\n    // messrust-disable-next-line shortvariable\n    let y = 2;\n}\n";
    let region_source = "// messrust-disable shortvariable\nfn g() {\n    let y = 2;\n}\n";
    vec![
        FileInput::Parsed { path: "b.rs".to_string(), source: region_source.to_string(), model: short_variable_model(), test_ranges: vec![] },
        FileInput::Failed { path: "c.rs".to_string(), message: "unreadable".to_string() },
        FileInput::Parsed { path: "a.rs".to_string(), source: directive_source.to_string(), model: short_variable_model(), test_ranges: vec![] },
    ]
}

#[test]
fn a_strict_report_differs_only_by_marked_findings() {
    let rules = vec![short_variable_rule()];
    let plain = analyze_files(report_inputs(), &rules, false, false);
    let strict = analyze_files(report_inputs(), &rules, true, false);
    let shown = |r: &messrust::report::Report| -> Vec<(String, usize, bool)> {
        r.violations.iter().map(|v| (v.file.clone(), v.begin_line, v.suppressed)).collect()
    };
    assert_eq!(shown(&plain), vec![("a.rs".to_string(), 2, false)]);
    assert_eq!(
        shown(&strict),
        vec![("a.rs".to_string(), 2, false), ("a.rs".to_string(), 3, true), ("b.rs".to_string(), 2, true), ("b.rs".to_string(), 3, true)]
    );
    let unmarked: Vec<(String, usize, bool)> = shown(&strict).into_iter().filter(|v| !v.2).collect();
    assert_eq!(shown(&plain), unmarked);
    assert_eq!(plain.errors.len(), 1);
    assert_eq!(strict.errors.len(), 1);
    assert_eq!(plain.errors[0].file, strict.errors[0].file);
}
