use messrust::render::{
    checkstyle_severity, gitlab_fingerprint, gitlab_severity, group_positions, reindent_json, render,
    render_fits, sarif_level, write_github, write_xml,
};
use messrust::report::{exit_code_for, escaped, Escape, ProcessingError, Report, ReportFormat, Violation};

fn violation(file: &str, line: usize, rule: &str, description: &str, priority: u8) -> Violation {
    Violation {
        file: file.to_string(),
        begin_line: line,
        end_line: line,
        rule_name: rule.to_string(),
        ruleset_name: String::new(),
        description: description.to_string(),
        priority,
        package: String::new(),
        function: String::new(),
        class: String::new(),
        method: String::new(),
        external_info_url: String::new(),
        suppressed: false,
    }
}

fn synthetic_report() -> Report {
    Report {
        violations: vec![Violation {
            file: "fixture.rs".to_string(),
            begin_line: 4,
            end_line: 4,
            rule_name: "SyntheticRule".to_string(),
            ruleset_name: "synthetic".to_string(),
            description: "A synthetic finding".to_string(),
            priority: 1,
            package: "fixture".to_string(),
            function: "run".to_string(),
            class: String::new(),
            method: String::new(),
            external_info_url: String::new(),
            suppressed: false,
        }],
        errors: vec![ProcessingError {
            file: "broken.rs".to_string(),
            message: "A synthetic processing error".to_string(),
        }],
    }
}

/// The GitLab document of a report, serialized as the program does it.
fn gitlab_document(report: &Report) -> String {
    let mut entries = Vec::new();
    for v in &report.violations {
        let mut lines = serde_json::Map::new();
        lines.insert("begin".to_string(), serde_json::Value::from(v.begin_line));
        let mut location = serde_json::Map::new();
        location.insert("path".to_string(), serde_json::Value::from(v.file.clone()));
        location.insert("lines".to_string(), serde_json::Value::Object(lines));
        let mut entry = serde_json::Map::new();
        entry.insert("type".to_string(), serde_json::Value::from("issue"));
        entry.insert("check_name".to_string(), serde_json::Value::from(v.rule_name.clone()));
        entry.insert("description".to_string(), serde_json::Value::from(v.description.clone()));
        entry.insert("fingerprint".to_string(), serde_json::Value::from(gitlab_fingerprint(v)));
        entry.insert("severity".to_string(), serde_json::Value::from(gitlab_severity(v.priority)));
        entry.insert("suppressed".to_string(), serde_json::Value::from(v.suppressed));
        entry.insert("location".to_string(), serde_json::Value::Object(location));
        entries.push(serde_json::Value::Object(entry));
    }
    serde_json::to_string_pretty(&serde_json::Value::Array(entries)).unwrap()
}

fn render_to_string(format: ReportFormat) -> String {
    let report = synthetic_report();
    let document = match format {
        ReportFormat::Gitlab => gitlab_document(&report),
        _ => String::new(),
    };
    render(format, &report, false, "2024-01-01T00:00:00+00:00", &document)
}

fn assert_renders_to_memory(format: ReportFormat) {
    let output = render_to_string(format);
    assert!(output.contains("fixture.rs"), "format={format:?}: {output}");
}

#[test]
fn escapes_annotation_properties_and_data() {
    let report = Report {
        violations: vec![Violation {
            file: "fixture,colon:%\r\n.rs".to_string(),
            begin_line: 1,
            end_line: 1,
            rule_name: "Rule%".to_string(),
            ruleset_name: String::new(),
            description: "message%\r\n".to_string(),
            priority: 1,
            package: String::new(),
            function: String::new(),
            class: String::new(),
            method: String::new(),
            external_info_url: String::new(),
            suppressed: false,
        }],
        errors: vec![ProcessingError {
            file: "error,file:%.rs".to_string(),
            message: "error%\r\n".to_string(),
        }],
    };

    let out = write_github(&report);

    assert_eq!(
        out,
        "::warning file=fixture%2Ccolon%3A%25%0D%0A.rs,line=1,col=1::message%25%0D%0A (Rule%25)\n::error file=error%2Cfile%3A%25.rs::error%25%0D%0A\n"
    );
}

#[test]
fn every_format_parses_from_its_name() {
    for format in ReportFormat::all() {
        assert_eq!(ReportFormat::parse(format.name()), Some(format));
    }
    assert_eq!(ReportFormat::parse("unknown"), None);
}

#[test]
fn text_renders_to_memory() {
    assert_renders_to_memory(ReportFormat::Text);
}

#[test]
fn ansi_renders_to_memory() {
    assert_renders_to_memory(ReportFormat::Ansi);
}

#[test]
fn xml_renders_a_valid_document_to_memory() {
    let output = render_to_string(ReportFormat::Xml);
    let document = roxmltree::Document::parse(&output).unwrap();
    let root = document.root_element();
    let violation = root
        .descendants()
        .find(|node| node.has_tag_name("violation"))
        .unwrap();
    let error = root
        .descendants()
        .find(|node| node.has_tag_name("error"))
        .unwrap();

    assert_eq!(root.tag_name().name(), "pmd");
    let file = violation
        .ancestors()
        .find(|node| node.has_tag_name("file"))
        .unwrap();
    assert_eq!(file.attribute("name"), Some("fixture.rs"));
    assert_eq!(violation.attribute("rule"), Some("SyntheticRule"));
    assert_eq!(violation.attribute("beginline"), Some("4"));
    assert_eq!(error.attribute("filename"), Some("broken.rs"));
    assert_eq!(error.attribute("msg"), Some("A synthetic processing error"));
}

#[test]
fn html_renders_to_memory() {
    assert_renders_to_memory(ReportFormat::Html);
}

#[test]
fn github_renders_to_memory() {
    assert_renders_to_memory(ReportFormat::Github);
}

#[test]
fn gitlab_renders_to_memory() {
    assert_renders_to_memory(ReportFormat::Gitlab);
}

#[test]
fn checkstyle_renders_to_memory() {
    assert_renders_to_memory(ReportFormat::Checkstyle);
}

#[test]
fn xml_report_carries_the_timestamp_and_escapes_text() {
    let mut report = synthetic_report();
    report.violations[0].description = "a < b & \"c\"".to_string();
    let output = write_xml(&report, "T0");
    assert!(output.contains("timestamp=\"T0\""), "{output}");
    assert!(output.contains("a &lt; b &amp; &quot;c&quot;"), "{output}");
    roxmltree::Document::parse(&output).unwrap();
}

#[test]
fn json_formats_reindent_to_four_spaces_and_end_with_a_newline() {
    assert_eq!(reindent_json("{\n  \"a\": [\n    1\n  ]\n}"), "{\n    \"a\": [\n        1\n    ]\n}");
    let report = synthetic_report();
    let doc = "{\n  \"x\": 1\n}";
    assert_eq!(render(ReportFormat::Json, &report, false, "", doc), "{\n    \"x\": 1\n}\n");
    assert_eq!(render(ReportFormat::Sarif, &report, false, "", doc), "{\n  \"x\": 1\n}\n");
}

#[test]
fn severities_follow_the_priority() {
    assert_eq!(checkstyle_severity(1), "error");
    assert_eq!(checkstyle_severity(2), "error");
    assert_eq!(checkstyle_severity(3), "warning");
    assert_eq!(checkstyle_severity(4), "info");
    assert_eq!(gitlab_severity(1), "blocker");
    assert_eq!(gitlab_severity(2), "critical");
    assert_eq!(gitlab_severity(3), "major");
    assert_eq!(gitlab_severity(4), "minor");
    assert_eq!(gitlab_severity(5), "info");
    assert_eq!(sarif_level(2), "error");
    assert_eq!(sarif_level(3), "warning");
}

#[test]
fn gitlab_fingerprint_is_the_hex_of_file_line_and_rule() {
    let v = violation("a.rs", 12, "R", "d", 1);
    // "a.rs:12:R"
    assert_eq!(gitlab_fingerprint(&v), "612e72733a31323a52");
    let w = violation("é", 1, "", "d", 1);
    assert_eq!(gitlab_fingerprint(&w), "c3a93a313a");
}

#[test]
fn escaping_kinds() {
    assert_eq!(escaped(Escape::Xml, "<a & 'b'>"), "&lt;a &amp; &#039;b&#039;&gt;");
    assert_eq!(escaped(Escape::GithubData, "50%\n"), "50%25%0A");
    assert_eq!(escaped(Escape::GithubProperty, "a:b,c"), "a%3Ab%2Cc");
}

#[test]
fn exit_codes_follow_findings_and_errors() {
    let clean = Report { violations: vec![], errors: vec![] };
    assert_eq!(exit_code_for(&clean, false, false), 0);
    let with_error = Report {
        violations: vec![],
        errors: vec![ProcessingError { file: "x".to_string(), message: "m".to_string() }],
    };
    assert_eq!(exit_code_for(&with_error, false, false), 1);
    assert_eq!(exit_code_for(&with_error, true, false), 0);
    let with_finding = Report { violations: vec![violation("a.rs", 1, "R", "d", 1)], errors: vec![] };
    assert_eq!(exit_code_for(&with_finding, false, false), 2);
    assert_eq!(exit_code_for(&with_finding, false, true), 0);
}

#[test]
fn groups_keep_first_seen_order_and_all_positions() {
    let keys: Vec<String> = ["b.rs", "a.rs", "b.rs", "c.rs", "a.rs"].iter().map(|s| s.to_string()).collect();
    let (names, lists) = group_positions(&keys);
    assert_eq!(names, vec!["b.rs".to_string(), "a.rs".to_string(), "c.rs".to_string()]);
    assert_eq!(lists, vec![vec![0, 2], vec![1, 4], vec![3]]);
}

#[test]
fn format_names_round_trip_and_unknown_names_fail() {
    assert_eq!(ReportFormat::parse("json"), Some(ReportFormat::Json));
    assert_eq!(ReportFormat::parse("JSON"), None);
    assert!(ReportFormat::Ansi.uses_color(false));
    assert!(!ReportFormat::Text.uses_color(false));
    assert!(ReportFormat::Text.uses_color(true));
}

#[test]
fn ordinary_reports_fit_the_renderer() {
    let report = Report { violations: vec![violation("a.rs", 3, "R", "d", 2)], errors: vec![] };
    assert!(render_fits(&report, "{}"));
    assert!(render_fits(&Report { violations: vec![], errors: vec![] }, ""));
}
