use messrust::analyze::scope::{assigned_static, resolve_type_path, static_key_with_imports, static_path_key, PlaceShape, UseBinding};

fn strings(parts: &[&str]) -> Vec<String> {
    parts.iter().map(|part| part.to_string()).collect()
}

fn binding(scope: &[&str], name: &str, path: &[&str]) -> UseBinding {
    UseBinding { scope: strings(scope), name: name.to_string(), path: strings(path) }
}

#[test]
fn unbound_path_is_taken_relative_to_its_module() {
    let resolved = resolve_type_path(&Vec::new(), &strings(&["Widget"]), &strings(&["outer", "inner"]));
    assert_eq!(resolved, strings(&["outer", "inner", "Widget"]));
}

#[test]
fn crate_self_and_super_prefixes_move_the_module() {
    let none = Vec::new();
    let scope = strings(&["outer", "inner"]);
    assert_eq!(resolve_type_path(&none, &strings(&["crate", "Widget"]), &scope), strings(&["Widget"]));
    assert_eq!(resolve_type_path(&none, &strings(&["self", "Widget"]), &scope), strings(&["outer", "inner", "Widget"]));
    assert_eq!(resolve_type_path(&none, &strings(&["super", "Widget"]), &scope), strings(&["outer", "Widget"]));
    assert_eq!(resolve_type_path(&none, &strings(&["super", "super", "Widget"]), &scope), strings(&["Widget"]));
}

#[test]
fn use_binding_in_an_enclosing_module_is_followed() {
    let bindings = vec![binding(&[], "Widget", &["parts", "Widget"])];
    let resolved = resolve_type_path(&bindings, &strings(&["Widget"]), &strings(&["outer"]));
    assert_eq!(resolved, strings(&["parts", "Widget"]));
}

#[test]
fn later_binding_of_a_name_wins_and_chains_are_followed() {
    let bindings = vec![
        binding(&["outer"], "W", &["first", "W"]),
        binding(&["outer"], "W", &["super", "Alias"]),
        binding(&[], "Alias", &["deep", "Widget"]),
    ];
    let resolved = resolve_type_path(&bindings, &strings(&["W", "Inner"]), &strings(&["outer"]));
    assert_eq!(resolved, strings(&["deep", "Widget", "Inner"]));
}

#[test]
fn cyclic_bindings_stop() {
    let bindings = vec![binding(&[], "A", &["B"]), binding(&[], "B", &["A"])];
    let resolved = resolve_type_path(&bindings, &strings(&["A"]), &Vec::new());
    assert_eq!(resolved, strings(&["A"]));
}

#[test]
fn static_keys_follow_module_prefixes() {
    let scope = strings(&["outer", "inner"]);
    assert_eq!(static_path_key(false, &strings(&["COUNT"]), &scope), Some(strings(&["outer", "inner", "COUNT"])));
    assert_eq!(static_path_key(true, &strings(&["COUNT"]), &scope), Some(strings(&["COUNT"])));
    assert_eq!(static_path_key(false, &strings(&["crate", "COUNT"]), &scope), Some(strings(&["COUNT"])));
    assert_eq!(static_path_key(false, &strings(&["super", "COUNT"]), &scope), Some(strings(&["outer", "COUNT"])));
    assert_eq!(static_path_key(false, &strings(&["self"]), &scope), None);
}

#[test]
fn static_keys_follow_use_imports() {
    let bindings = vec![
        binding(&[], "COUNTER", &["counter_mod", "COUNTER"]),
        binding(&["worker_mod"], "TOTAL", &["super", "TOTAL"]),
    ];
    assert_eq!(
        static_key_with_imports(&bindings, false, &strings(&["COUNTER"]), &strings(&[])),
        Some(strings(&["counter_mod", "COUNTER"]))
    );
    assert_eq!(
        static_key_with_imports(&bindings, false, &strings(&["TOTAL"]), &strings(&["worker_mod"])),
        Some(strings(&["TOTAL"]))
    );
    assert_eq!(
        static_key_with_imports(&bindings, false, &strings(&["super", "TOTAL"]), &strings(&["worker_mod"])),
        Some(strings(&["TOTAL"]))
    );
    assert_eq!(
        static_key_with_imports(&bindings, false, &strings(&["OTHER"]), &strings(&["worker_mod"])),
        Some(strings(&["worker_mod", "OTHER"]))
    );
    assert_eq!(static_key_with_imports(&bindings, true, &strings(&["COUNTER"]), &strings(&["worker_mod"])), Some(strings(&["COUNTER"])));
    assert_eq!(static_key_with_imports(&bindings, false, &strings(&["super"]), &strings(&["worker_mod"])), None);
}

#[test]
fn assignments_through_fields_indexes_and_derefs_reach_the_static() {
    let bindings = vec![binding(&[], "COUNTER", &["counter_mod", "COUNTER"])];
    let path = |parts: &[&str]| PlaceShape::Path { leading_colon: false, segments: strings(parts) };
    let through = |base: PlaceShape| PlaceShape::Through { base: Box::new(base) };
    assert_eq!(assigned_static(&bindings, &path(&["COUNTER"]), &vec![]), Some(strings(&["counter_mod", "COUNTER"])));
    assert_eq!(
        assigned_static(&bindings, &through(through(path(&["TABLE"]))), &strings(&["m"])),
        Some(strings(&["m", "TABLE"]))
    );
    assert_eq!(assigned_static(&bindings, &through(PlaceShape::Other), &vec![]), None);
    assert_eq!(assigned_static(&bindings, &path(&["self"]), &vec![]), None);
}
