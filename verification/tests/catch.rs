use messrust::analyze::catch::{is_empty_catch, is_error_pattern, BodyShape, PatternShape};

fn tuple(last: &str) -> PatternShape {
    PatternShape::TupleStruct { last: last.to_string() }
}

#[test]
fn err_patterns_are_found_inside_or_patterns() {
    assert!(is_error_pattern(&tuple("Err")));
    assert!(!is_error_pattern(&tuple("Ok")));
    assert!(!is_error_pattern(&tuple("err")));
    assert!(!is_error_pattern(&PatternShape::Other));
    assert!(is_error_pattern(&PatternShape::Or { cases: vec![tuple("Ok"), tuple("Err")] }));
    assert!(!is_error_pattern(&PatternShape::Or { cases: vec![tuple("Some"), PatternShape::Other] }));
    assert!(is_error_pattern(&PatternShape::Or { cases: vec![PatternShape::Or { cases: vec![tuple("Err")] }] }));
}

#[test]
fn only_bodies_that_do_nothing_make_an_empty_catch() {
    assert!(is_empty_catch(&tuple("Err"), &BodyShape::Block { statements: 0 }));
    assert!(is_empty_catch(&tuple("Err"), &BodyShape::Tuple { elements: 0 }));
    assert!(!is_empty_catch(&tuple("Err"), &BodyShape::Block { statements: 1 }));
    assert!(!is_empty_catch(&tuple("Err"), &BodyShape::Tuple { elements: 2 }));
    assert!(!is_empty_catch(&tuple("Err"), &BodyShape::Other));
    assert!(!is_empty_catch(&tuple("None"), &BodyShape::Block { statements: 0 }));
}
