use tombi_ext::accessor::Accessor;
use tombi_ext::document::{Key, Position, Range, TableKind, Value};
use tombi_ext::nagi::{
    is_nagi_config, is_path, member_patterns, source_reference_location,
    workspace_navigation_kind, workspace_source_definition_location, workspace_source_location,
    NagiNavigation,
};
use tombi_ext::py_accessor::{completion_path_kind, PathCompletion};

fn r(line: u32, start: u32, end: u32) -> Range {
    Range::new(Position::new(line, start), Position::new(line, end))
}

fn key(name: &str, line: u32) -> Key {
    Key {
        value: name.to_string(),
        range: r(line, 0, name.len() as u32),
    }
}

fn t(line: u32, entries: Vec<(Key, Value)>) -> Value {
    Value::Table {
        entries,
        range: r(line, 0, 80),
        kind: TableKind::Table,
    }
}

fn b(value: bool, line: u32) -> Value {
    Value::Boolean {
        value,
        range: r(line, 20, 24),
    }
}

fn k(name: &str) -> Accessor {
    Accessor::Key(name.to_string())
}

#[test]
fn nagi_configs_are_recognised_by_file_name() {
    assert!(is_nagi_config("/project/nagi.toml"));
    assert!(is_nagi_config("/project/.nagi.toml"));
    assert!(is_nagi_config("nagi.toml"));
    assert!(!is_nagi_config("/project/nagi.toml.bak"));
    assert!(!is_nagi_config("/project/my-nagi.toml"));
    assert!(!is_nagi_config("/nagi.toml/"));
}

#[test]
fn path_values_offer_path_completion() {
    assert!(is_path(&[k("rules"), k("include"), Accessor::Index(0)]));
    assert!(is_path(&[k("sources"), k("warehouse"), k("dbt"), k("project-root")]));
    assert!(is_path(&[k("workspace"), k("sources"), k("w"), k("overrides"), Accessor::Index(1), k("exclude"), Accessor::Index(0)]));
    assert!(!is_path(&[k("rules"), k("include")]));
    assert!(!is_path(&[k("sources"), k("warehouse"), k("name")]));

    let member = [k("tool"), k("uv"), k("workspace"), k("members"), Accessor::Index(0)];
    assert_eq!(completion_path_kind(&member), Some(PathCompletion::Directory));
    assert_eq!(completion_path_kind(&[k("project"), k("readme")]), Some(PathCompletion::File));
    assert_eq!(completion_path_kind(&[k("tool"), k("uv"), k("sources"), k("pkg"), k("path")]), Some(PathCompletion::File));
    assert_eq!(completion_path_kind(&[k("project"), k("name")]), None);
}

fn workspace_config() -> Value {
    t(0, vec![
        (key("workspace", 0), t(0, vec![
            (key("members", 1), Value::Array {
                values: vec![Value::String { value: "models/*".to_string(), range: r(1, 11, 21) }],
                range: r(1, 10, 22),
            }),
            (key("sources", 2), t(2, vec![(key("warehouse", 3), t(3, vec![]))])),
        ])),
        (key("sources", 5), t(5, vec![(key("warehouse", 6), t(6, vec![(key("workspace", 6), b(true, 6))]))])),
    ])
}

#[test]
fn workspace_sources_are_found() {
    let config = workspace_config();
    assert_eq!(
        workspace_source_definition_location(&config, &[k("workspace"), k("sources"), k("warehouse")]),
        Some(r(3, 0, 9))
    );
    assert_eq!(workspace_source_definition_location(&config, &[k("workspace"), k("sources")]), None);
    assert_eq!(source_reference_location(&config, "warehouse"), Some(r(6, 0, 9)));
    assert_eq!(source_reference_location(&config, "lake"), None);
    // The workspace itself declares the source it inherits.
    assert_eq!(
        workspace_source_location(&config, &[k("sources"), k("warehouse")], None),
        Some((true, r(3, 0, 9)))
    );
    // A member finds it in the workspace configuration above it.
    let member = t(0, vec![(key("sources", 1), t(1, vec![(key("warehouse", 2), t(2, vec![(key("workspace", 2), b(true, 2))]))]))]);
    assert_eq!(
        workspace_source_location(&member, &[k("sources"), k("warehouse"), k("workspace")], Some(&config)),
        Some((false, r(3, 0, 9)))
    );
    assert_eq!(workspace_source_location(&member, &[k("sources"), k("warehouse")], None), None);
}

#[test]
fn navigation_kinds_and_members() {
    assert_eq!(workspace_navigation_kind(&[k("workspace"), k("members")]), NagiNavigation::Members);
    assert_eq!(workspace_navigation_kind(&[k("sources"), k("x"), k("workspace")]), NagiNavigation::WorkspaceSource);
    assert_eq!(workspace_navigation_kind(&[k("rules")]), NagiNavigation::Nothing);
    let config = workspace_config();
    let patterns = member_patterns(&config, &[k("workspace"), k("members")]);
    assert_eq!(patterns.len(), 1);
    assert_eq!(patterns[0].0, "models/*");
}
