use messrust::cli::{parse_priority, run, usage, Step};

fn args(list: &[&str]) -> Vec<String> {
    list.iter().map(|s| s.to_string()).collect()
}

#[test]
fn version_flag_prints_the_version() {
    match run(&args(&["--version"])) {
        Step::Exit { code, stdout, stderr } => {
            assert_eq!(code, 0);
            assert_eq!(stdout, "messrust 0.1.0\n");
            assert_eq!(stderr, "");
        },
        Step::Analyze(_) => panic!("expected an exit"),
    }
}

#[test]
fn help_flag_prints_usage() {
    match run(&args(&["--help"])) {
        Step::Exit { code, stdout, .. } => {
            assert_eq!(code, 0);
            assert_eq!(stdout, usage());
        },
        Step::Analyze(_) => panic!("expected an exit"),
    }
}

#[test]
fn a_full_command_line_asks_for_analysis() {
    match run(&args(&["src", "json", "cleancode,codesize", "--exclude", "gen", "--minimumpriority", "2"])) {
        Step::Analyze(opt) => {
            assert_eq!(opt.input.paths, vec!["src".to_string()]);
            assert_eq!(opt.output.format, "json");
            assert_eq!(opt.rules.rulesets, vec!["cleancode".to_string(), "codesize".to_string()]);
            assert_eq!(opt.input.exclude, vec!["gen".to_string()]);
            assert_eq!(opt.rules.min_priority, 2);
        },
        Step::Exit { stderr, .. } => panic!("unexpected exit: {stderr}"),
    }
}

#[test]
fn priorities_must_be_between_one_and_five() {
    assert_eq!(parse_priority("--minimumpriority", "3"), Ok(3));
    assert!(parse_priority("--minimumpriority", "0").is_err());
    assert!(parse_priority("--minimumpriority", "6").is_err());
    assert!(parse_priority("--minimumpriority", "x").is_err());
}
