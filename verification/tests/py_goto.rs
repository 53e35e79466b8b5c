use tombi_ext::accessor::Accessor;
use tombi_ext::document::{Key, Position, Range, TableKind, Value};
use tombi_ext::py_accessor::{
    is_dependency_group_name_accessors, is_dependency_groups_include_group_accessors, is_dependency_name_accessors,
    is_project_name_accessors, is_uv_source_path_accessors, is_uv_source_workspace_accessors, is_uv_sources_accessors,
};
use tombi_ext::py_goto::{
    dependency_source_declaration, find_member_project_toml, get_current_declaration, goto_member_pyprojects,
    project_name_location, workspace_source_package, SourceDeclaration,
};

fn r(line: u32, start: u32, end: u32) -> Range {
    Range::new(Position::new(line, start), Position::new(line, end))
}

fn key(name: &str, line: u32) -> Key {
    Key {
        value: name.to_string(),
        range: r(line, 0, name.len() as u32),
    }
}

fn s(value: &str, line: u32, column: u32) -> Value {
    Value::String {
        value: value.to_string(),
        range: r(line, column, column + value.len() as u32 + 2),
    }
}

fn t(line: u32, entries: Vec<(Key, Value)>) -> Value {
    Value::Table {
        entries,
        range: r(line, 0, 80),
        kind: TableKind::Table,
    }
}

fn k(name: &str) -> Accessor {
    Accessor::Key(name.to_string())
}

fn project(name: &str, line: u32) -> Value {
    t(0, vec![(key("project", line), t(line, vec![(key("name", line), s(name, line, 7))]))])
}

fn inside(range: Range) -> Range {
    Range::new(
        Position::new(range.start.line, range.start.column + 1),
        Position::new(range.end.line, range.end.column - 1),
    )
}

fn found() -> Vec<(Range, String, Value)> {
    vec![
        (r(3, 12, 22), "/w/packages/a/pyproject.toml".to_string(), project("a", 1)),
        (r(3, 12, 22), "/w/packages/x/pyproject.toml".to_string(), t(0, vec![])),
        (r(4, 12, 20), "/w/libs/b/pyproject.toml".to_string(), project("b", 2)),
    ]
}

#[test]
fn project_names_are_member_locations() {
    let location = project_name_location("/p/pyproject.toml", &project("demo", 2)).unwrap();
    assert_eq!(location.range, inside(r(2, 7, 13)));
    let locations = goto_member_pyprojects(&found());
    assert_eq!(locations.len(), 2);
    assert_eq!(locations[1].path, "/w/libs/b/pyproject.toml");
}

#[test]
fn members_are_found_by_project_name() {
    assert_eq!(
        find_member_project_toml(&found(), "b"),
        Some(("/w/libs/b/pyproject.toml".to_string(), inside(r(4, 12, 20))))
    );
    assert_eq!(find_member_project_toml(&found(), "c"), None);
}

#[test]
fn workspace_sources_name_their_package() {
    let document = t(
        0,
        vec![(
            key("tool", 1),
            t(
                1,
                vec![(
                    key("uv", 1),
                    t(
                        1,
                        vec![(
                            key("sources", 1),
                            t(
                                1,
                                vec![
                                    (key("a", 2), t(2, vec![(key("workspace", 2), Value::Boolean { value: true, range: r(2, 20, 24) })])),
                                    (key("b", 3), t(3, vec![(key("path", 3), s("../b", 3, 12))])),
                                ],
                            ),
                        )],
                    ),
                )],
            ),
        )],
    );
    let a = vec![k("tool"), k("uv"), k("sources"), k("a")];
    let b = vec![k("tool"), k("uv"), k("sources"), k("b")];
    let a_flag = vec![k("tool"), k("uv"), k("sources"), k("a"), k("workspace")];
    assert_eq!(workspace_source_package(&document, &a).map(|s| s.as_str()), Some("a"));
    assert_eq!(workspace_source_package(&document, &b), None);
    assert_eq!(workspace_source_package(&document, &a_flag).map(|s| s.as_str()), Some("a"));
    assert_eq!(workspace_source_package(&document, &[k("tool"), k("uv")]), None);
}

#[test]
fn pyproject_paths_are_classified_by_shape() {
    use_accessor_predicates();
}

fn use_accessor_predicates() {
    let name = vec![k("project"), k("name")];
    let dependency = vec![k("project"), k("dependencies"), Accessor::Index(0)];
    let optional = vec![k("project"), k("optional-dependencies"), k("test"), Accessor::Index(1)];
    let group = vec![k("dependency-groups"), k("dev")];
    let group_item = vec![k("dependency-groups"), k("dev"), Accessor::Index(0), k("include-group")];
    let source = vec![k("tool"), k("uv"), k("sources"), k("demo")];
    let source_flag = vec![k("tool"), k("uv"), k("sources"), k("demo"), k("workspace")];
    let source_path = vec![k("tool"), k("uv"), k("sources"), k("demo"), k("path")];
    assert!(is_project_name_accessors(&name));
    assert!(!is_project_name_accessors(&dependency));
    assert!(is_dependency_name_accessors(&dependency));
    assert!(is_dependency_name_accessors(&optional));
    assert!(is_dependency_name_accessors(&[k("dependency-groups"), k("dev"), Accessor::Index(0)]));
    assert!(!is_dependency_name_accessors(&group));
    assert!(is_dependency_group_name_accessors(&group));
    assert!(is_dependency_groups_include_group_accessors(&group_item));
    assert!(is_uv_sources_accessors(&source));
    assert!(!is_uv_sources_accessors(&source_flag));
    assert!(is_uv_source_workspace_accessors(&source_flag));
    assert!(is_uv_source_path_accessors(&source_path));
    assert!(!is_uv_source_path_accessors(&source_flag));
}

fn sources_document() -> Value {
    let sources = t(
        1,
        vec![
            (key("a", 2), t(2, vec![(key("workspace", 2), Value::Boolean { value: true, range: r(2, 20, 24) })])),
            (key("b", 3), t(3, vec![(key("path", 3), s("../b", 3, 12))])),
            (key("c", 4), t(4, vec![(key("workspace", 4), Value::Boolean { value: false, range: r(4, 20, 25) })])),
            (key("d", 5), s("plain", 5, 6)),
        ],
    );
    t(0, vec![(key("tool", 1), t(1, vec![(key("uv", 1), t(1, vec![(key("sources", 1), sources)]))]))])
}

#[test]
fn uv_sources_lead_to_their_declaration() {
    let document = sources_document();
    assert_eq!(dependency_source_declaration(&document, "a"), Some(SourceDeclaration::WorkspaceMember));
    assert_eq!(dependency_source_declaration(&document, "b"), Some(SourceDeclaration::SourceKey(r(3, 0, 1))));
    assert_eq!(dependency_source_declaration(&document, "c"), Some(SourceDeclaration::SourceKey(r(4, 0, 1))));
    assert_eq!(dependency_source_declaration(&document, "d"), None);
    assert_eq!(dependency_source_declaration(&document, "missing"), None);
    assert_eq!(dependency_source_declaration(&project("demo", 1), "a"), None);
}

#[test]
fn dependency_group_keys_are_their_own_declaration() {
    let document = t(0, vec![(key("dependency-groups", 1), t(1, vec![(key("dev", 2), Value::Array { values: vec![], range: r(2, 6, 8) })]))]);
    assert_eq!(get_current_declaration(&document, &[k("dependency-groups"), k("dev")]), Some(r(2, 0, 3)));
    assert_eq!(get_current_declaration(&document, &[k("dependency-groups"), k("test")]), None);
    assert_eq!(get_current_declaration(&document, &[k("dependency-groups")]), None);
    assert_eq!(get_current_declaration(&document, &[k("dependency-groups"), Accessor::Index(0)]), None);
    assert_eq!(get_current_declaration(&document, &[k("project"), k("dev")]), None);
}
