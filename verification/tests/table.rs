use messrust::analyze::model::{FieldInfo, FnModel, MethodRef};
use messrust::analyze::table::{impl_methods, ImplBlock, ImplMethod, TypeDefinition, TypeTable};

fn field(name: &str) -> FieldInfo {
    FieldInfo { name: name.to_string(), begin_line: 2, type_names: vec![] }
}

fn method(name: &str, line: usize) -> MethodRef {
    MethodRef {
        name: name.to_string(),
        begin_line: line,
        end_line: line + 1,
        is_public: true,
        has_body: true,
        ccn: 1,
        accessor_field: None,
        used_fields: vec![],
        called_methods: vec![],
    }
}

fn definition(name: &str, kind: &str, begin: usize, fields: Vec<FieldInfo>) -> TypeDefinition {
    TypeDefinition {
        name: name.to_string(),
        node_type: kind.to_string(),
        begin_line: begin,
        end_line: begin + 3,
        field_count: fields.len(),
        public_fields: 1,
        fields,
    }
}

#[test]
fn impl_before_declaration_keeps_its_methods() {
    let mut table = TypeTable::new();
    table.attach_methods("Point".to_string(), "Point".to_string(), 10, 20, vec![method("len", 11)]);
    table.upsert_type("Point".to_string(), definition("Point", "struct", 1, vec![field("x"), field("y")]));
    let types = table.into_types();
    assert_eq!(types.len(), 1);
    assert_eq!(types[0].node_type, "struct");
    assert_eq!(types[0].begin_line, 1);
    assert_eq!(types[0].end_line, 4);
    assert_eq!(types[0].field_count, 2);
    assert_eq!(types[0].public_fields, 1);
    assert_eq!(types[0].fields.len(), 2);
    assert_eq!(types[0].methods.len(), 1);
    assert_eq!(types[0].methods[0].name, "len");
}

#[test]
fn impl_of_an_undeclared_type_makes_a_struct_entry() {
    let mut table = TypeTable::new();
    table.attach_methods("a::Thing".to_string(), "Thing".to_string(), 5, 9, vec![method("run", 6)]);
    table.attach_methods("a::Thing".to_string(), "Thing".to_string(), 12, 15, vec![method("stop", 13)]);
    let types = table.into_types();
    assert_eq!(types.len(), 1);
    assert_eq!(types[0].key, "a::Thing");
    assert_eq!(types[0].node_type, "struct");
    assert_eq!((types[0].begin_line, types[0].end_line), (5, 9));
    assert_eq!(types[0].field_count, 0);
    let names: Vec<&str> = types[0].methods.iter().map(|m| m.name.as_str()).collect();
    assert_eq!(names, vec!["run", "stop"]);
}

#[test]
fn redeclaration_without_fields_keeps_the_known_ones() {
    let mut table = TypeTable::new();
    table.upsert_type("E".to_string(), definition("E", "enum", 1, vec![field("0")]));
    table.upsert_type("E".to_string(), definition("E", "struct", 30, vec![]));
    let types = table.into_types();
    assert_eq!(types.len(), 1);
    assert_eq!(types[0].node_type, "struct");
    assert_eq!(types[0].begin_line, 30);
    assert_eq!(types[0].field_count, 0);
    assert_eq!(types[0].fields.len(), 1);
}

#[test]
fn trait_definition_merges_into_a_known_key() {
    let mut table = TypeTable::new();
    table.upsert_type("Shape".to_string(), definition("Shape", "struct", 1, vec![field("a")]));
    table.insert_trait("Shape".to_string(), "Shape".to_string(), 8, 12, vec![method("area", 9)]);
    table.insert_trait("Other".to_string(), "Other".to_string(), 14, 16, vec![]);
    let types = table.into_types();
    assert_eq!(types.len(), 2);
    assert_eq!(types[0].node_type, "trait");
    assert_eq!((types[0].begin_line, types[0].end_line), (8, 12));
    assert_eq!(types[0].field_count, 1);
    assert_eq!(types[0].public_fields, 0);
    assert_eq!(types[0].methods.len(), 1);
    assert_eq!(types[1].key, "Other");
    assert_eq!(types[1].node_type, "trait");
    assert_eq!(types[1].methods.len(), 0);
}

#[test]
fn impl_key_prefers_a_known_resolved_then_scoped_then_written_path() {
    let mut table = TypeTable::new();
    table.upsert_type("m::W".to_string(), definition("W", "struct", 1, vec![]));
    table.upsert_type("W".to_string(), definition("W", "struct", 5, vec![]));
    let key = table.impl_type_key("x::W".to_string(), "m::W".to_string(), "W".to_string());
    assert_eq!(key, "m::W");
    let key = table.impl_type_key("x::W".to_string(), "n::W".to_string(), "W".to_string());
    assert_eq!(key, "W");
    let key = table.impl_type_key("x::V".to_string(), "n::V".to_string(), "V".to_string());
    assert_eq!(key, "x::V");
    assert!(table.contains(&"m::W".to_string()));
    assert_eq!(table.position(&"W".to_string()), Some(1));
    assert_eq!(table.position(&"V".to_string()), None);
}

fn function(name: &str, line: usize) -> FnModel {
    FnModel {
        name: name.to_string(),
        parent: Some("S".to_string()),
        begin_line: line,
        end_line: line + 1,
        param_count: 0,
        bool_params: vec![],
        has_body: true,
        returns_bool: false,
        dep_types: vec![],
        counts_for_type_metrics: true,
        ccn: 1,
        npath: 1,
        else_lines: vec![],
        condition_assignments: vec![],
        invocations: vec![],
        exit_line: None,
        count_in_loop: vec![],
        empty_catch_lines: vec![],
    }
}

fn block(for_type: &str, inherent: bool, test_only: bool) -> ImplBlock {
    let methods = vec![
        ImplMethod { method: method("run", 2), function: function("run", 2), test_only: false },
        ImplMethod { method: method("check", 5), function: function("check", 5), test_only: true },
    ];
    ImplBlock { for_type: for_type.to_string(), inherent, test_only, methods }
}

fn names(refs: &[MethodRef], fs: &[FnModel]) -> (Vec<String>, Vec<String>) {
    (refs.iter().map(|m| m.name.clone()).collect(), fs.iter().map(|f| f.name.clone()).collect())
}

#[test]
fn impl_blocks_add_methods_and_functions() {
    let (refs, fs) = impl_methods(block("S", true, false), false).unwrap();
    assert_eq!(names(&refs, &fs), (vec!["run".to_string(), "check".to_string()], vec!["run".to_string(), "check".to_string()]));
    let (refs, fs) = impl_methods(block("S", true, false), true).unwrap();
    assert_eq!(names(&refs, &fs), (vec!["run".to_string()], vec!["run".to_string()]));
    let (refs, fs) = impl_methods(block("S", false, false), false).unwrap();
    assert_eq!(names(&refs, &fs), (vec![], vec!["run".to_string(), "check".to_string()]));
    assert!(impl_methods(block("S", true, true), true).is_none());
    assert!(impl_methods(block("S", true, true), false).is_some());
    assert!(impl_methods(block("", true, false), false).is_none());
}
