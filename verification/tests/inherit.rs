use tombi_ext::accessor::Accessor;
use tombi_ext::document::{Key, Position, Range, TableKind, Value};
use tombi_ext::inherit_dependency::{
    calculate_feature_array_append, inherited_default_feature_additions,
    render_inherited_dependency_inline_table, use_workspace_dependency_code_action,
    workspace_dependency_default_features, ArrayLayout,
};

fn r(line: u32, start: u32, end: u32) -> Range {
    Range::new(Position::new(line, start), Position::new(line, end))
}

fn key(name: &str, line: u32) -> Key {
    Key {
        value: name.to_string(),
        range: r(line, 0, name.len() as u32),
    }
}

fn s(value: &str, line: u32, column: u32) -> Value {
    Value::String {
        value: value.to_string(),
        range: r(line, column, column + value.len() as u32 + 2),
    }
}

fn b(value: bool, line: u32) -> Value {
    Value::Boolean {
        value,
        range: r(line, 20, 25),
    }
}

fn table(kind: TableKind, range: Range, entries: Vec<(Key, Value)>) -> Value {
    Value::Table { entries, range, kind }
}

fn t(line: u32, entries: Vec<(Key, Value)>) -> Value {
    table(TableKind::Table, r(line, 0, 80), entries)
}

fn array(line: u32, values: Vec<Value>) -> Value {
    Value::Array {
        values,
        range: r(line, 11, 21),
    }
}

fn k(name: &str) -> Accessor {
    Accessor::Key(name.to_string())
}

fn strings(items: &[&str]) -> Vec<String> {
    items.iter().map(|s| s.to_string()).collect()
}

fn workspace(default_features: Option<bool>) -> Value {
    let mut entries = vec![(key("version", 3), s("1.0", 3, 10))];
    if let Some(flag) = default_features {
        entries.push((key("default-features", 3), b(flag, 3)));
    }
    t(0, vec![(
        key("workspace", 0),
        t(1, vec![(key("dependencies", 1), t(2, vec![(key("serde", 3), table(TableKind::InlineTable, r(3, 8, 60), entries))]))]),
    )])
}

fn member(entry: Value) -> Value {
    t(0, vec![(key("dependencies", 6), t(6, vec![(key("serde", 7), entry)]))])
}

fn ranges(n: usize, line: u32) -> Vec<Option<Range>> {
    (0..n).map(|i| Some(r(line + i as u32, 0, 5))).collect()
}

#[test]
fn version_string_inherits_with_dropped_default_features() {
    let document = member(s("1.0", 7, 8));
    let accessors = vec![k("dependencies"), k("serde")];
    let key_ranges = vec![Some(r(6, 0, 12)), Some(r(7, 0, 5))];
    let defaults = strings(&["std", "derive"]);
    let action = use_workspace_dependency_code_action(
        &document,
        &accessors,
        &key_ranges,
        &workspace(Some(false)),
        Some(&defaults),
        &[],
        &[],
        None,
    )
    .unwrap();
    assert_eq!(action.title, "Inherit Dependency from Workspace");
    assert_eq!(action.edits.len(), 1);
    assert_eq!(action.edits[0].range, r(7, 0, 13));
    assert_eq!(
        action.edits[0].new_text,
        "serde = { workspace = true, features = [\"std\", \"derive\"] }"
    );

    let plain = use_workspace_dependency_code_action(
        &document,
        &accessors,
        &key_ranges,
        &workspace(None),
        Some(&defaults),
        &[],
        &[],
        None,
    )
    .unwrap();
    assert_eq!(plain.edits[0].new_text, "serde = { workspace = true }");
}

#[test]
fn inline_table_keeps_its_other_entries() {
    let entry = table(
        TableKind::InlineTable,
        r(7, 8, 60),
        vec![
            (key("version", 7), s("1.0", 7, 20)),
            (key("features", 7), array(7, vec![s("derive", 7, 40)])),
            (key("optional", 7), b(true, 7)),
        ],
    );
    let document = member(entry);
    let accessors = vec![k("dependencies"), k("serde")];
    let key_ranges = vec![Some(r(6, 0, 12)), Some(r(7, 0, 5))];
    let defaults = strings(&["std", "derive"]);
    let rendered = strings(&["\"1.0\"", "[\"derive\"]", "true"]);
    let items = strings(&["\"derive\""]);
    let action = use_workspace_dependency_code_action(
        &document,
        &accessors,
        &key_ranges,
        &workspace(Some(false)),
        Some(&defaults),
        &rendered,
        &items,
        None,
    )
    .unwrap();
    assert_eq!(action.edits.len(), 1);
    assert_eq!(action.edits[0].range, r(7, 0, 60));
    assert_eq!(
        action.edits[0].new_text,
        "serde = { workspace = true, features = [\"derive\", \"std\"], optional = true }"
    );
}

#[test]
fn header_table_replaces_its_version_and_appends_features() {
    let entry = t(
        8,
        vec![
            (key("version", 9), s("1.0", 9, 10)),
            (key("features", 10), array(10, vec![s("derive", 10, 12)])),
        ],
    );
    let document = member(entry);
    let accessors = vec![k("dependencies"), k("serde"), k("version")];
    let key_ranges = ranges(3, 6);
    let defaults = strings(&["std"]);
    let layout = ArrayLayout {
        bracket_start_end: Some(Position::new(10, 12)),
        last_value: Some((r(10, 12, 20), None)),
        multiline: false,
    };
    let action = use_workspace_dependency_code_action(
        &document,
        &accessors,
        &key_ranges,
        &workspace(Some(false)),
        Some(&defaults),
        &strings(&["\"1.0\"", "[\"derive\"]"]),
        &[],
        Some(&layout),
    )
    .unwrap();
    assert_eq!(action.edits.len(), 2);
    assert_eq!(action.edits[0].range, r(9, 0, 15));
    assert_eq!(action.edits[0].new_text, "workspace = true");
    assert_eq!(action.edits[1].range, r(10, 20, 20));
    assert_eq!(action.edits[1].new_text, ", \"std\"");

    // Without the array's layout no edit can be made.
    assert!(use_workspace_dependency_code_action(
        &document,
        &accessors,
        &key_ranges,
        &workspace(Some(false)),
        Some(&defaults),
        &strings(&["\"1.0\"", "[\"derive\"]"]),
        &[],
        None,
    )
    .is_none());
}

#[test]
fn header_table_without_features_gets_a_features_line() {
    let entry = t(8, vec![(key("version", 9), s("1.0", 9, 10))]);
    let document = member(entry);
    let accessors = vec![k("dependencies"), k("serde")];
    let defaults = strings(&["std"]);
    let action = use_workspace_dependency_code_action(
        &document,
        &accessors,
        &ranges(2, 6),
        &workspace(Some(false)),
        Some(&defaults),
        &strings(&["\"1.0\""]),
        &[],
        None,
    )
    .unwrap();
    assert_eq!(action.edits.len(), 1);
    assert_eq!(action.edits[0].new_text, "workspace = true\nfeatures = [\"std\"]");
}

#[test]
fn no_action_without_a_workspace_entry_or_when_inherited() {
    let accessors = vec![k("dependencies"), k("serde")];
    let key_ranges = ranges(2, 6);
    let empty_workspace = t(0, vec![]);
    assert!(use_workspace_dependency_code_action(&member(s("1.0", 7, 8)), &accessors, &key_ranges, &empty_workspace, None, &[], &[], None).is_none());
    let inherited = table(TableKind::InlineTable, r(7, 8, 30), vec![(key("workspace", 7), b(true, 7))]);
    assert!(use_workspace_dependency_code_action(&member(inherited), &accessors, &key_ranges, &workspace(None), None, &strings(&["true"]), &[], None).is_none());
    let no_version = table(TableKind::InlineTable, r(7, 8, 30), vec![(key("path", 7), s("../serde", 7, 16))]);
    assert!(use_workspace_dependency_code_action(&member(no_version), &accessors, &key_ranges, &workspace(None), None, &strings(&["\"../serde\""]), &[], None).is_none());
    let package = vec![k("package"), k("name")];
    assert!(use_workspace_dependency_code_action(&member(s("1.0", 7, 8)), &package, &key_ranges, &workspace(None), None, &[], &[], None).is_none());
}

#[test]
fn target_dependencies_are_recognised() {
    let document = t(0, vec![(
        key("target", 5),
        t(5, vec![(key("cfg(unix)", 5), t(5, vec![(key("dependencies", 6), t(6, vec![(key("serde", 7), s("1.0", 7, 8))]))]))]),
    )]);
    let accessors = vec![k("target"), k("cfg(unix)"), k("dependencies"), k("serde")];
    let action = use_workspace_dependency_code_action(&document, &accessors, &ranges(4, 4), &workspace(None), None, &[], &[], None).unwrap();
    assert_eq!(action.edits[0].range, r(7, 0, 13));
    assert_eq!(action.edits[0].new_text, "serde = { workspace = true }");
}

#[test]
fn default_feature_additions_skip_listed_and_disabled() {
    let defaults = strings(&["std", "derive", "alloc"]);
    let own = t(7, vec![(key("features", 7), array(7, vec![s("derive", 7, 12)]))]);
    assert_eq!(
        inherited_default_feature_additions(Some(&own), "serde", &workspace(Some(false)), Some(&defaults)),
        strings(&["std", "alloc"])
    );
    let off = t(7, vec![(key("default-features", 7), b(false, 7))]);
    assert!(inherited_default_feature_additions(Some(&off), "serde", &workspace(Some(false)), Some(&defaults)).is_empty());
    assert!(inherited_default_feature_additions(None, "serde", &workspace(Some(true)), Some(&defaults)).is_empty());
    assert!(inherited_default_feature_additions(None, "serde", &workspace(Some(false)), None).is_empty());
}

#[test]
fn workspace_default_features_come_from_the_matching_manifest() {
    let entry = t(3, vec![(key("path", 3), s("crates/serde", 3, 10))]);
    let manifest = t(0, vec![
        (key("package", 1), t(1, vec![(key("name", 2), s("serde", 2, 7)), (key("version", 3), s("1.2.0", 3, 10))])),
        (key("features", 5), t(5, vec![(key("default", 6), array(6, vec![s("std", 6, 12), s("derive", 6, 19)]))])),
    ]);
    let ws = t(0, vec![]);
    assert_eq!(
        workspace_dependency_default_features("serde", &entry, Some(&manifest), &ws, "1.2.0"),
        Some(strings(&["std", "derive"]))
    );
    assert_eq!(workspace_dependency_default_features("serde", &entry, Some(&manifest), &ws, "1.3.0"), None);
    assert_eq!(workspace_dependency_default_features("json", &entry, Some(&manifest), &ws, "1.2.0"), None);
    assert_eq!(workspace_dependency_default_features("serde", &entry, None, &ws, "1.2.0"), None);
    let versionless = t(3, vec![(key("version", 3), s("1", 3, 10))]);
    assert_eq!(workspace_dependency_default_features("serde", &versionless, Some(&manifest), &ws, "1.2.0"), None);
}

#[test]
fn feature_arrays_grow_at_their_end() {
    let additions = strings(&["std", "alloc"]);
    let empty = ArrayLayout {
        bracket_start_end: Some(Position::new(1, 12)),
        last_value: None,
        multiline: false,
    };
    assert_eq!(
        calculate_feature_array_append(&empty, &additions),
        Some((Position::new(1, 12), "\"std\", \"alloc\"".to_string()))
    );
    let with_comma = ArrayLayout {
        bracket_start_end: Some(Position::new(1, 12)),
        last_value: Some((r(1, 12, 20), Some(r(1, 20, 21)))),
        multiline: false,
    };
    assert_eq!(
        calculate_feature_array_append(&with_comma, &additions),
        Some((Position::new(1, 21), " \"std\", \"alloc\"".to_string()))
    );
    let multiline = ArrayLayout {
        bracket_start_end: Some(Position::new(1, 12)),
        last_value: Some((r(2, 4, 12), None)),
        multiline: true,
    };
    assert_eq!(
        calculate_feature_array_append(&multiline, &additions),
        Some((Position::new(2, 12), ",\n    \"std\",\n    \"alloc\",".to_string()))
    );
    let broken = ArrayLayout {
        bracket_start_end: None,
        last_value: None,
        multiline: false,
    };
    assert_eq!(calculate_feature_array_append(&broken, &additions), None);
}

#[test]
fn inline_table_gets_features_where_it_has_none() {
    let entry = table(TableKind::InlineTable, r(7, 8, 40), vec![(key("version", 7), s("1.0", 7, 20)), (key("optional", 7), b(true, 7))]);
    let text = render_inherited_dependency_inline_table("serde", &entry, &strings(&["\"1.0\"", "true"]), &[], &strings(&["std"]));
    assert_eq!(text, "serde = { workspace = true, optional = true, features = [\"std\"] }");
}
