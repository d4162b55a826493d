use messrust::discover::{
    discover, is_excluded, is_test_dir, is_test_file, is_test_path, matches_suffix, should_skip_dir, DiscoverOptions,
    FoundFile, PathPart,
};

fn found(path: &str, walked: bool) -> FoundFile {
    let mut key = vec![PathPart { rank: 0, text: String::new() }];
    for part in path.split('/').filter(|p| !p.is_empty()) {
        key.push(PathPart { rank: 4, text: part.to_string() });
    }
    FoundFile {
        path: path.to_string(),
        file_name: path.rsplit('/').next().map(|s| s.to_string()),
        relative: Some(path.split('/').filter(|p| !p.is_empty()).map(|s| s.to_string()).collect()),
        key,
        walked,
        root_name: None,
    }
}

fn options(ignore_tests: bool) -> DiscoverOptions {
    DiscoverOptions { suffixes: vec![".rs".to_string()], exclude: vec!["gen".to_string()], ignore_tests }
}

#[test]
fn walks_keep_sources_once_in_path_order() {
    let files = vec![
        found("/p/src/b.rs", true),
        found("/p/src/a.rs", true),
        found("/p/README.md", true),
        found("/p/src/a.rs", true),
        found("/p/gen/x.rs", true),
        found("/p/a-b.rs", true),
    ];
    let kept = discover(files, &options(false));
    let paths: Vec<&str> = kept.iter().map(|f| f.path.as_str()).collect();
    assert_eq!(paths, vec!["/p/a-b.rs", "/p/src/a.rs", "/p/src/b.rs"]);
}

#[test]
fn named_files_need_no_suffix_and_tests_can_be_left_out() {
    let files = vec![found("/p/notes.txt", false), found("/p/tests/t.rs", true), found("/p/src/foo_test.rs", true)];
    let kept = discover(files, &options(true));
    let paths: Vec<&str> = kept.iter().map(|f| f.path.as_str()).collect();
    assert_eq!(paths, vec!["/p/notes.txt"]);
}

#[test]
fn decisions_on_names() {
    assert!(should_skip_dir("target"));
    assert!(should_skip_dir(".git"));
    assert!(should_skip_dir("node_modules"));
    assert!(!should_skip_dir("src"));
    assert!(is_test_file(&Some("tests.rs".to_string())));
    assert!(is_test_file(&Some("test_io.rs".to_string())));
    assert!(is_test_file(&Some("io_test.rs".to_string())));
    assert!(!is_test_file(&Some("testing.rs".to_string())));
    assert!(!is_test_file(&None));
    assert!(is_test_dir("__tests__"));
    assert!(!is_test_dir("testdata"));
    assert!(is_test_path(&Some("a.rs".to_string()), &Some(vec!["x".to_string(), "test".to_string()])));
    assert!(!is_test_path(&Some("a.rs".to_string()), &None));
    assert!(matches_suffix("a/b.rs", &vec![".py".to_string(), ".rs".to_string()]));
    assert!(!matches_suffix("a/b.rsx", &vec![".rs".to_string()]));
    assert!(is_excluded("a/generated/b.rs", &vec!["gen".to_string()]));
    assert!(!is_excluded("a/b.rs", &vec!["gen".to_string()]));
    assert!(is_excluded("a/b.rs", &vec![String::new()]));
}

fn walked_from(root: &str, relative: &str) -> FoundFile {
    let mut f = found(&format!("/{root}/{relative}"), true);
    f.root_name = Some(root.to_string());
    f.relative = Some(relative.split('/').map(|s| s.to_string()).collect());
    f
}

#[test]
fn walks_leave_out_build_and_vcs_directories() {
    let files = vec![
        walked_from("p", "src/a.rs"),
        walked_from("p", "target/debug/b.rs"),
        walked_from("p", "src/.git/c.rs"),
        walked_from("p", "node_modules/x/d.rs"),
        walked_from("target", "e.rs"),
    ];
    let kept: Vec<String> = discover(files, &options(false)).iter().map(|f| f.path.clone()).collect();
    assert_eq!(kept, vec!["/p/src/a.rs".to_string()]);
}

fn test_root_files() -> Vec<FoundFile> {
    vec![walked_from("tests", "a.rs"), walked_from("src", "b.rs")]
}

#[test]
fn a_test_named_search_root_is_left_out_when_tests_are_ignored() {
    let kept: Vec<String> = discover(test_root_files(), &options(true)).iter().map(|f| f.path.clone()).collect();
    assert_eq!(kept, vec!["/src/b.rs".to_string()]);
    let all: Vec<String> = discover(test_root_files(), &options(false)).iter().map(|f| f.path.clone()).collect();
    assert_eq!(all, vec!["/src/b.rs".to_string(), "/tests/a.rs".to_string()]);
}
