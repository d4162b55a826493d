use messrust::analyze::uses::{collect_macro_reads, derives_read_fields, format_capture_names, is_binding_name, is_format_macro};
use messrust::nesting::TokenEvent;

#[test]
fn binding_names_start_lower_case_or_with_an_underscore() {
    assert!(is_binding_name("value"));
    assert!(is_binding_name("_unused"));
    assert!(is_binding_name("élan"));
    assert!(!is_binding_name("Value"));
    assert!(!is_binding_name("MAX"));
    assert!(!is_binding_name(""));
}

#[test]
fn format_macros_are_known_by_name() {
    assert!(is_format_macro("println"));
    assert!(is_format_macro("debug_assert_ne"));
    assert!(!is_format_macro("vec"));
}

#[test]
fn format_strings_capture_inline_names() {
    assert_eq!(format_capture_names("{a} {{b}} {c:>3} {0} {}"), vec!["a".to_string(), "c".to_string()]);
    assert!(format_capture_names("plain").is_empty());
}

#[test]
fn macro_bodies_read_identifiers_and_fields() {
    let tokens = vec![
        TokenEvent::Ident("x".to_string()),
        TokenEvent::Punct { ch: '.', joint: false },
        TokenEvent::Ident("field".to_string()),
        TokenEvent::Open,
        TokenEvent::Ident("y".to_string()),
        TokenEvent::Close,
    ];
    let mut idents = vec!["before".to_string()];
    let mut fields = Vec::new();
    collect_macro_reads(&tokens, &mut idents, &mut fields);
    assert_eq!(idents, vec!["before".to_string(), "x".to_string(), "field".to_string(), "y".to_string()]);
    assert_eq!(fields, vec!["field".to_string()]);
}

#[test]
fn serde_derives_read_every_field() {
    let names = |xs: &[&str]| xs.iter().map(|x| x.to_string()).collect::<Vec<String>>();
    assert!(derives_read_fields(&names(&["Debug", "Serialize"])));
    assert!(derives_read_fields(&names(&["Deserialize"])));
    assert!(!derives_read_fields(&names(&["Debug", "Clone", "serialize"])));
    assert!(!derives_read_fields(&names(&[])));
}
