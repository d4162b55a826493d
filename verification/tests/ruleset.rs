use messrust::ruleset::{apply_name_filters, load_and_filter, parse_ruleset, ruleset_from_nodes, LoadError, LoadOptions, LoadedRule, SourceFacts, XmlNode};
use messrust::analyze::kind::RuleKind;

const RULES_XML: &str = "<?xml version=\"1.0\"?>\n<ruleset name=\"Mine\">\n  <rule name=\"CyclomaticComplexity\" class=\"PHPMD\\Rule\\CyclomaticComplexity\" message=\"too complex\">\n    <priority>2</priority>\n    <properties><property name=\"reportLevel\" value=\"5\"/></properties>\n  </rule>\n  <rule name=\"NPathComplexity\" class=\"PHPMD\\Rule\\Design\\NpathComplexity\"/>\n  <rule name=\"Odd\" class=\"No\\Such\\Class\"/>\n</ruleset>\n";

fn file_facts(ident: &str, text: &str) -> SourceFacts {
    SourceFacts {
        ident: ident.to_string(),
        is_file: true,
        canonical: Ok(format!("/rules/{ident}")),
        contents: Ok(text.to_string()),
        builtin: None,
    }
}

fn no_options() -> LoadOptions {
    LoadOptions { min_priority: 0, max_priority: 0 }
}

fn rule(name: &str) -> LoadedRule {
    LoadedRule {
        name: name.to_string(),
        ruleset_name: "s".to_string(),
        priority: 3,
        properties: vec![],
        kind: RuleKind::CyclomaticComplexity,
        message: String::new(),
    }
}

#[test]
fn loads_the_rules_of_a_ruleset_file() {
    let catalog = vec![file_facts("mine.xml", RULES_XML)];
    let loaded = match load_and_filter(&vec!["mine.xml".to_string()], &vec![], &vec![], &no_options(), &catalog) {
        Ok(l) => l,
        Err(_) => panic!("load failed"),
    };
    let names: Vec<&str> = loaded.rules.iter().map(|r| r.name.as_str()).collect();
    assert_eq!(names, vec!["CyclomaticComplexity", "NPathComplexity"]);
    assert_eq!(loaded.rules[0].priority, 2);
    assert_eq!(loaded.rules[1].priority, 3);
    assert_eq!(loaded.rules[0].ruleset_name, "Mine");
    assert_eq!(loaded.rules[0].message, "too complex");
    assert_eq!(loaded.rules[0].get_property("reportLevel").map(|s| s.as_str()), Some("5"));
    assert_eq!(loaded.warnings, vec!["Skipping unimplemented rule Odd (No\\Such\\Class)".to_string()]);
}

#[test]
fn asks_for_the_facts_it_lacks() {
    match load_and_filter(&vec!["other.xml".to_string()], &vec![], &vec![], &no_options(), &vec![]) {
        Err(LoadError::Need(n)) => assert_eq!(n, "other.xml"),
        _ => panic!("expected a request for facts"),
    }
}

#[test]
fn no_rulesets_is_an_error() {
    match load_and_filter(&vec![], &vec![], &vec![], &no_options(), &vec![]) {
        Err(LoadError::Failed(m)) => assert_eq!(m, "no rulesets specified"),
        _ => panic!("expected a failure"),
    }
}

#[test]
fn priority_bounds_filter_rules() {
    let catalog = vec![file_facts("mine.xml", RULES_XML)];
    let opts = LoadOptions { min_priority: 2, max_priority: 0 };
    let loaded = match load_and_filter(&vec!["mine.xml".to_string()], &vec![], &vec![], &opts, &catalog) {
        Ok(l) => l,
        Err(_) => panic!("load failed"),
    };
    let names: Vec<&str> = loaded.rules.iter().map(|r| r.name.as_str()).collect();
    assert_eq!(names, vec!["CyclomaticComplexity"]);
}

#[test]
fn name_filters_keep_only_and_drop_disabled() {
    let rules = vec![rule("A"), rule("B"), rule("C")];
    let kept = apply_name_filters(rules, &vec!["A".to_string(), "C".to_string()], &vec!["C".to_string()]).ok().unwrap();
    let names: Vec<&str> = kept.iter().map(|r| r.name.as_str()).collect();
    assert_eq!(names, vec!["A"]);
}

#[test]
fn name_filters_reject_unknown_names() {
    let rules = vec![rule("A")];
    let e = apply_name_filters(rules, &vec![], &vec!["Z".to_string()]).err().unwrap();
    assert_eq!(e, "rule 'Z' is not present in the loaded rulesets");
}

#[test]
fn a_rule_reference_loads_one_rule_with_overrides() {
    let root = "<ruleset name=\"Root\"><rule ref=\"mine.xml/NPathComplexity\"><priority>1</priority></rule></ruleset>";
    let catalog = vec![file_facts("root.xml", root), file_facts("mine.xml", RULES_XML), SourceFacts {
        ident: "mine.xml/NPathComplexity".to_string(),
        is_file: false,
        canonical: Err("not a file".to_string()),
        contents: Err("not a file".to_string()),
        builtin: None,
    }];
    let loaded = match load_and_filter(&vec!["root.xml".to_string()], &vec![], &vec![], &no_options(), &catalog) {
        Ok(l) => l,
        Err(LoadError::Need(n)) => panic!("needs {n}"),
        Err(LoadError::Failed(m)) => panic!("failed: {m}"),
    };
    assert_eq!(loaded.rules.len(), 1);
    assert_eq!(loaded.rules[0].name, "NPathComplexity");
    assert_eq!(loaded.rules[0].priority, 1);
    assert_eq!(loaded.rules[0].ruleset_name, "Mine");
}

#[test]
fn malformed_xml_is_reported() {
    let e = parse_ruleset("<ruleset").err().unwrap();
    assert!(e.starts_with("invalid ruleset XML: "), "{e}");
}

#[test]
fn ruleset_documents_read_rules_properties_priorities_and_excludes() {
    let xml = "<ruleset name=\"Team\">\n  <rule ref=\"rust\">\n    <exclude name=\"LongVariable\"/>\n    <exclude/>\n  </rule>\n  <rule name=\"X\" class=\"C\" message=\"m\">\n    <priority> 2 </priority>\n    <priority>300</priority>\n    <properties>\n      <property name=\"minimum\" value=\"5\"/>\n      <property name=\"pattern\"><value>  ab  </value></property>\n      <property name=\"minimum\" value=\"7\"/>\n      <property value=\"ignored\"/>\n    </properties>\n    <nested><priority>1</priority></nested>\n  </rule>\n  <other/>\n</ruleset>\n";
    let doc = parse_ruleset(xml).unwrap();
    assert_eq!(doc.name, "Team");
    assert_eq!(doc.rules.len(), 2);
    assert_eq!(doc.rules[0].ref_path, "rust");
    assert_eq!(doc.rules[0].excludes, vec!["LongVariable".to_string()]);
    let x = &doc.rules[1];
    assert_eq!((x.name.as_str(), x.class.as_str(), x.message.as_str()), ("X", "C", "m"));
    assert_eq!(x.priority, Some(2));
    assert_eq!(
        x.properties,
        vec![("minimum".to_string(), "7".to_string()), ("pattern".to_string(), "ab".to_string())]
    );
}

#[test]
fn ruleset_documents_need_a_ruleset_root() {
    let e = parse_ruleset("<rules/>").err().unwrap();
    assert_eq!(e, "ruleset XML root must be <ruleset>");
}

fn node(depth: usize, tag: &str, attributes: &[(&str, &str)], text: Option<&str>) -> XmlNode {
    XmlNode {
        depth,
        element: true,
        tag: tag.to_string(),
        attributes: attributes.iter().map(|(k, v)| (k.to_string(), v.to_string())).collect(),
        text: text.map(|t| t.to_string()),
    }
}

#[test]
fn ruleset_nodes_keep_only_direct_rule_children() {
    let nodes = vec![
        node(1, "ruleset", &[("name", "N")], None),
        node(2, "rule", &[("name", "A"), ("class", "K")], None),
        node(3, "priority", &[], Some("4")),
        node(3, "rule", &[("name", "Deep")], None),
        node(2, "rule", &[("ref", "r/B")], None),
    ];
    let doc = ruleset_from_nodes(&nodes).unwrap();
    assert_eq!(doc.name, "N");
    let names: Vec<&str> = doc.rules.iter().map(|r| r.name.as_str()).collect();
    assert_eq!(names, vec!["A", ""]);
    assert_eq!(doc.rules[0].priority, Some(4));
    assert_eq!(doc.rules[1].ref_path, "r/B");
    assert!(ruleset_from_nodes(&vec![]).is_err());
}

fn not_a_file(ident: &str) -> SourceFacts {
    SourceFacts {
        ident: ident.to_string(),
        is_file: false,
        canonical: Err("not a file".to_string()),
        contents: Err("not a file".to_string()),
        builtin: None,
    }
}

fn load(specs: &[&str], catalog: &Vec<SourceFacts>) -> Result<Vec<LoadedRule>, String> {
    let specs: Vec<String> = specs.iter().map(|s| s.to_string()).collect();
    match load_and_filter(&specs, &vec![], &vec![], &no_options(), catalog) {
        Ok(l) => Ok(l.rules),
        Err(LoadError::Need(n)) => Err(format!("need {n}")),
        Err(LoadError::Failed(m)) => Err(m),
    }
}

#[test]
fn whole_ruleset_references_skip_excluded_rules() {
    let root = "<ruleset name=\"Root\"><rule ref=\"mine.xml\"><exclude name=\"CyclomaticComplexity\"/></rule></ruleset>";
    let catalog = vec![file_facts("root.xml", root), file_facts("mine.xml", RULES_XML)];
    let rules = load(&["root.xml"], &catalog).unwrap();
    let names: Vec<&str> = rules.iter().map(|r| r.name.as_str()).collect();
    assert_eq!(names, vec!["NPathComplexity"]);
    assert_eq!(rules[0].ruleset_name, "Mine");
}

#[test]
fn a_named_reference_overrides_properties_and_message() {
    let root = "<ruleset name=\"Root\"><rule ref=\"mine.xml/CyclomaticComplexity\" message=\"mine\"><properties><property name=\"reportLevel\" value=\"9\"/><property name=\"extra\" value=\"x\"/></properties></rule></ruleset>";
    let catalog = vec![file_facts("root.xml", root), file_facts("mine.xml", RULES_XML), not_a_file("mine.xml/CyclomaticComplexity")];
    let rules = load(&["root.xml"], &catalog).unwrap();
    assert_eq!(rules.len(), 1);
    assert_eq!(rules[0].priority, 2);
    assert_eq!(rules[0].message, "mine");
    assert_eq!(
        rules[0].properties,
        vec![("reportLevel".to_string(), "9".to_string()), ("extra".to_string(), "x".to_string())]
    );
}

#[test]
fn the_first_load_of_a_rule_name_wins() {
    let catalog = vec![file_facts("a.xml", RULES_XML), file_facts("b.xml", RULES_XML.replace("Mine", "Other").as_str())];
    let rules = load(&["a.xml", "b.xml"], &catalog).unwrap();
    let sets: Vec<&str> = rules.iter().map(|r| r.ruleset_name.as_str()).collect();
    assert_eq!(sets, vec!["Mine", "Mine"]);
}

#[test]
fn reference_cycles_are_refused() {
    let a = "<ruleset name=\"A\"><rule ref=\"b.xml\"/></ruleset>";
    let b = "<ruleset name=\"B\"><rule ref=\"a.xml\"/></ruleset>";
    let catalog = vec![file_facts("a.xml", a), file_facts("b.xml", b)];
    let e = load(&["a.xml"], &catalog).err().unwrap();
    assert_eq!(e, "ruleset reference cycle: /rules/a.xml -> /rules/b.xml -> /rules/a.xml");
}

#[test]
fn references_to_nothing_are_passed_over() {
    let root = "<ruleset name=\"Root\"><rule ref=\"nowhere/Thing\"/><rule name=\"NPathComplexity\" class=\"PHPMD\\Rule\\Design\\NpathComplexity\"/></ruleset>";
    let catalog = vec![file_facts("root.xml", root), not_a_file("nowhere/Thing"), not_a_file("nowhere")];
    let rules = load(&["root.xml"], &catalog).unwrap();
    assert_eq!(rules.len(), 1);
    assert_eq!(rules[0].ruleset_name, "Root");
}

#[test]
fn priorities_outside_one_to_five_are_ignored() {
    let xml = "<ruleset name=\"P\"><rule name=\"NPathComplexity\" class=\"PHPMD\\Rule\\Design\\NpathComplexity\"><priority>9</priority></rule><rule name=\"CyclomaticComplexity\" class=\"PHPMD\\Rule\\CyclomaticComplexity\"><priority>4</priority><priority>0</priority></rule></ruleset>";
    let doc = parse_ruleset(xml).unwrap();
    assert_eq!(doc.rules[0].priority, None);
    assert_eq!(doc.rules[1].priority, Some(4));
    let catalog = vec![file_facts("p.xml", xml)];
    let rules = load(&["p.xml"], &catalog).unwrap();
    let priorities: Vec<u8> = rules.iter().map(|r| r.priority).collect();
    assert_eq!(priorities, vec![3, 4]);
}

#[test]
fn long_rule_names_use_iterative_trie_operations() {
    let prefix = "x".repeat(8_192);
    let left_name = format!("{prefix}Left");
    let right_name = format!("{prefix}Right");
    let mine = format!(
        "<ruleset name=\"Long\"><rule name=\"{left_name}\" class=\"PHPMD\\Rule\\CyclomaticComplexity\"/><rule name=\"{right_name}\" class=\"PHPMD\\Rule\\Design\\NpathComplexity\"/></ruleset>"
    );
    let root = format!("<ruleset name=\"Root\"><rule ref=\"long.xml\"><exclude name=\"{left_name}\"/></rule></ruleset>");
    let catalog = vec![file_facts("long.xml", &mine), file_facts("root.xml", &root)];

    let both = load(&["long.xml"], &catalog).unwrap();
    let names: Vec<&str> = both.iter().map(|r| r.name.as_str()).collect();
    assert_eq!(names, vec![left_name.as_str(), right_name.as_str()]);

    let kept = load(&["root.xml"], &catalog).unwrap();
    let names: Vec<&str> = kept.iter().map(|r| r.name.as_str()).collect();
    assert_eq!(names, vec![right_name.as_str()]);
}
