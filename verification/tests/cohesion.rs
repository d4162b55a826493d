use messrust::analyze::cohesion::lcom4;
use messrust::analyze::model::{FieldInfo, MethodRef, TypeModel};

fn field(name: &str) -> FieldInfo {
    FieldInfo { name: name.to_string(), begin_line: 1, type_names: vec![] }
}

fn method(name: &str, uses: &[&str], calls: &[&str], accessor: Option<&str>) -> MethodRef {
    MethodRef {
        name: name.to_string(),
        begin_line: 1,
        end_line: 2,
        is_public: true,
        has_body: true,
        ccn: 1,
        accessor_field: accessor.map(|s| s.to_string()),
        used_fields: uses.iter().map(|s| s.to_string()).collect(),
        called_methods: calls.iter().map(|s| s.to_string()).collect(),
    }
}

fn type_with(fields: &[&str], methods: Vec<MethodRef>) -> TypeModel {
    TypeModel {
        key: "T".to_string(),
        name: "T".to_string(),
        node_type: "struct".to_string(),
        begin_line: 1,
        end_line: 10,
        field_count: fields.len(),
        public_fields: 0,
        fields: fields.iter().map(|f| field(f)).collect(),
        methods,
    }
}

#[test]
fn methods_sharing_no_field_form_separate_groups() {
    let t = type_with(&["a", "b"], vec![method("f", &["a"], &[], None), method("g", &["b"], &[], None)]);
    assert_eq!(lcom4(&t), 2);
}

#[test]
fn a_shared_field_or_a_call_joins_methods() {
    let t = type_with(
        &["a", "b", "c"],
        vec![
            method("f", &["a"], &[], None),
            method("g", &["a", "b"], &[], None),
            method("h", &["c"], &["f"], None),
            method("k", &["c"], &[], None),
        ],
    );
    assert_eq!(lcom4(&t), 1);
}

#[test]
fn accessors_stand_for_their_field() {
    let t = type_with(
        &["a", "b"],
        vec![
            method("get_a", &["a"], &[], Some("a")),
            method("f", &[], &["get_a"], None),
            method("g", &["a"], &[], None),
            method("h", &["b"], &[], None),
        ],
    );
    assert_eq!(lcom4(&t), 2);
}

#[test]
fn a_type_without_cohesive_methods_counts_one() {
    let t = type_with(&["a"], vec![method("f", &["zzz"], &["nothing"], None)]);
    assert_eq!(lcom4(&t), 1);
    assert_eq!(lcom4(&type_with(&[], vec![])), 1);
}
