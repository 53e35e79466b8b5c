use tombi_ext::accessor::{
    classify_cargo_navigation_feature, dependency_parent_accessors, dig_accessors,
    is_any_dependency_accessor, is_any_dependency_path_accessor, is_dependency_accessor,
    is_dependency_path_accessor, is_feature_key_accessor, is_optional_dependency_accessor,
    is_package_name_accessor, is_workspace_definition_accessor, is_workspace_dependency_accessor,
    is_workspace_flag_accessor, is_workspace_key_accessor,
    is_workspace_managed_dependency_accessor, matches_accessors, Accessor,
    CargoNavigationFeature,
};
use tombi_ext::document::{TableKind, Key, Position, Range, Value};

fn key(value: &str) -> Accessor {
    Accessor::Key(value.to_string())
}

fn keys(values: &[&str]) -> Vec<Accessor> {
    values.iter().map(|v| key(v)).collect()
}

#[test]
fn classify_workspace_members_as_member_feature() {
    let feature = classify_cargo_navigation_feature(&[key("workspace"), key("members")]);

    assert!(matches!(feature, CargoNavigationFeature::Member));
}

#[test]
fn classify_workspace_dependencies_as_dependency_feature() {
    let feature = classify_cargo_navigation_feature(&[key("workspace"), key("dependencies"), key("foo")]);

    assert!(matches!(feature, CargoNavigationFeature::Dependency));
}

#[test]
fn classify_path_keys_first() {
    assert_eq!(
        classify_cargo_navigation_feature(&keys(&["dependencies", "member", "path"])),
        CargoNavigationFeature::Path
    );
    assert_eq!(
        classify_cargo_navigation_feature(&keys(&["workspace", "default-members"])),
        CargoNavigationFeature::Member
    );
}

#[test]
fn patterns_need_the_exact_length() {
    assert!(matches_accessors(&keys(&["dependencies", "serde"]), &[Some("dependencies"), None]));
    assert!(!matches_accessors(&keys(&["dependencies", "serde", "version"]), &[Some("dependencies"), None]));
    assert!(matches_accessors(&[key("a"), Accessor::Index(3)], &[Some("a"), None]));
    assert!(!matches_accessors(&[Accessor::Index(0), key("b")], &[Some("a"), None]));
}

#[test]
fn cargo_accessor_shapes() {
    assert!(is_package_name_accessor(&keys(&["package", "name"])));
    assert!(is_feature_key_accessor(&keys(&["features", "default"])));
    assert!(is_dependency_accessor(&keys(&["dev-dependencies", "serde"])));
    assert!(is_dependency_accessor(&keys(&["target", "cfg(unix)", "build-dependencies", "cc"])));
    assert!(!is_dependency_accessor(&keys(&["workspace", "dependencies", "serde"])));
    assert!(is_workspace_dependency_accessor(&keys(&["workspace", "dependencies", "serde"])));
    assert!(is_any_dependency_accessor(&keys(&["workspace", "dependencies", "serde"])));
    assert!(is_dependency_path_accessor(&keys(&["dependencies", "member", "path"])));
    assert!(is_any_dependency_path_accessor(&keys(&["workspace", "dependencies", "member", "path"])));
    assert!(is_workspace_key_accessor(&keys(&["dependencies", "serde", "workspace"])));
    assert!(!is_workspace_key_accessor(&[]));
    assert!(is_optional_dependency_accessor(&keys(&["dependencies", "serde", "optional"])));
    assert!(is_workspace_flag_accessor(&keys(&["target", "x", "dependencies", "serde", "workspace"])));
    assert!(is_workspace_definition_accessor(&keys(&["workspace", "members"])));
    assert!(is_workspace_definition_accessor(&[key("workspace"), key("default-members"), Accessor::Index(0)]));
    assert!(!is_workspace_definition_accessor(&keys(&["workspace", "package"])));
    let accessors = keys(&["dependencies", "serde", "version"]);
    assert_eq!(dependency_parent_accessors(&accessors), &accessors[..2]);
    assert!(dependency_parent_accessors(&[]).is_empty());
}

fn at() -> Range {
    Range::new(Position::new(0, 0), Position::new(0, 0))
}

fn table(entries: Vec<(&str, Value)>) -> Value {
    Value::Table {
        entries: entries
            .into_iter()
            .map(|(k, v)| (Key { value: k.to_string(), range: at() }, v))
            .collect(),
        range: at(),
        kind: TableKind::Table,
    }
}

#[test]
fn workspace_managed_dependencies_are_found_by_path() {
    let document = table(vec![(
        "dependencies",
        table(vec![
            ("serde", table(vec![("workspace", Value::Boolean { value: true, range: at() })])),
            ("rand", Value::String { value: "0.8".to_string(), range: at() }),
        ]),
    )]);
    assert!(is_workspace_managed_dependency_accessor(&document, &keys(&["dependencies", "serde"])));
    assert!(!is_workspace_managed_dependency_accessor(&document, &keys(&["dependencies", "rand"])));
    let list = table(vec![(
        "members",
        Value::Array {
            values: vec![Value::String { value: "a".to_string(), range: at() }],
            range: at(),
        },
    )]);
    assert!(matches!(
        dig_accessors(&list, &[key("members"), Accessor::Index(0)]),
        Some(Value::String { value, .. }) if value == "a"
    ));
    assert!(dig_accessors(&list, &[key("members"), Accessor::Index(1)]).is_none());
}
