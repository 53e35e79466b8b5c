use tombi_ext::accessor::Accessor;
use tombi_ext::document::{Key, Position, Range, TableKind, Value};
use tombi_ext::feature_navigation::{
    dependency_entries, dependency_feature_string_context, dependency_optional_accessors,
    feature_key_at_accessors, feature_table_string_at_accessors,
    feature_usage_target_for_feature_key, feature_usage_target_for_optional_dependency,
    find_local_feature, find_non_workspace_dependency_entry, find_optional_dependency,
    has_explicit_dep_feature, named_dependency_source, optional_dependency_value_at_accessors,
    parse_cargo_feature_ref, resolve_feature_table_string, workspace_dependency_path,
    CargoFeatureRef, CargoFeatureUsageTarget, DependencySource, FeatureResolution,
};

fn r(line: u32, start: u32, end: u32) -> Range {
    Range::new(Position::new(line, start), Position::new(line, end))
}

fn key(name: &str, line: u32) -> Key {
    Key {
        value: name.to_string(),
        range: r(line, 0, name.len() as u32),
    }
}

fn s(value: &str, line: u32) -> Value {
    Value::String {
        value: value.to_string(),
        range: r(line, 10, 12 + value.len() as u32),
    }
}

fn b(value: bool, line: u32) -> Value {
    Value::Boolean {
        value,
        range: r(line, 30, 34),
    }
}

fn t(line: u32, entries: Vec<(Key, Value)>) -> Value {
    Value::Table {
        entries,
        range: r(line, 0, 80),
        kind: TableKind::Table,
    }
}

fn a(line: u32, values: Vec<Value>) -> Value {
    Value::Array {
        values,
        range: r(line, 8, 60),
    }
}

fn k(name: &str) -> Accessor {
    Accessor::Key(name.to_string())
}

fn keys(path: &[Accessor]) -> Vec<String> {
    path.iter()
        .map(|a| match a {
            Accessor::Key(k) => k.clone(),
            Accessor::Index(i) => i.to_string(),
        })
        .collect()
}

fn manifest() -> Value {
    t(0, vec![
        (key("features", 1), t(1, vec![
            (key("default", 2), a(2, vec![s("std", 2), s("serde", 2)])),
            (key("std", 3), a(3, vec![s("dep:libc", 3), s("tokio?/rt", 3)])),
            (key("full", 4), a(4, vec![s("regex/unicode", 4)])),
        ])),
        (key("dependencies", 6), t(6, vec![
            (key("serde", 7), t(7, vec![(key("version", 7), s("1", 7)), (key("optional", 7), b(true, 7))])),
            (key("libc", 8), t(8, vec![(key("version", 8), s("0.2", 8)), (key("optional", 8), b(true, 8))])),
            (key("local", 9), t(9, vec![(key("path", 9), s("../local", 9))])),
            (key("shared", 10), t(10, vec![(key("workspace", 10), b(true, 10))])),
        ])),
        (key("target", 12), t(12, vec![(
            key("cfg(unix)", 12),
            t(12, vec![(key("dev-dependencies", 13), t(13, vec![(key("regex", 14), s("1", 14))]))]),
        )])),
    ])
}

#[test]
fn feature_refs_are_parsed() {
    assert_eq!(parse_cargo_feature_ref("std"), CargoFeatureRef::LocalFeature("std"));
    assert_eq!(parse_cargo_feature_ref("dep:libc"), CargoFeatureRef::OptionalDependency("libc"));
    assert_eq!(
        parse_cargo_feature_ref("tokio?/rt"),
        CargoFeatureRef::DependencyFeature { dep_key: "tokio", feature: "rt", weak: true }
    );
    assert_eq!(
        parse_cargo_feature_ref("regex/unicode"),
        CargoFeatureRef::DependencyFeature { dep_key: "regex", feature: "unicode", weak: false }
    );
    assert_eq!(
        parse_cargo_feature_ref("a/b?/c"),
        CargoFeatureRef::DependencyFeature { dep_key: "a/b", feature: "c", weak: true }
    );
    assert_eq!(parse_cargo_feature_ref("dep:"), CargoFeatureRef::OptionalDependency(""));
    assert_eq!(parse_cargo_feature_ref("de"), CargoFeatureRef::LocalFeature("de"));
}

#[test]
fn features_and_optional_dependencies_are_found() {
    let m = manifest();
    assert_eq!(find_local_feature(&m, "std"), Some(r(3, 0, 3)));
    assert_eq!(find_local_feature(&m, "missing"), None);
    assert_eq!(find_optional_dependency(&m, "serde"), Some(r(7, 30, 34)));
    assert_eq!(find_optional_dependency(&m, "local"), None);
    assert!(has_explicit_dep_feature(&m, "libc"));
    assert!(!has_explicit_dep_feature(&m, "serde"));
    assert_eq!(keys(&find_non_workspace_dependency_entry(&m, "libc").unwrap()), vec!["dependencies", "libc"]);
    assert_eq!(
        keys(&find_non_workspace_dependency_entry(&m, "regex").unwrap()),
        vec!["target", "cfg(unix)", "dev-dependencies", "regex"]
    );
    assert!(find_non_workspace_dependency_entry(&m, "tokio").is_none());
}

#[test]
fn feature_strings_resolve_within_the_manifest() {
    let m = manifest();
    match resolve_feature_table_string(&m, "std") {
        Some(FeatureResolution::LocalFeature { range, feature_name }) => {
            assert_eq!(range, r(3, 0, 3));
            assert_eq!(feature_name, "std");
        }
        other => panic!("unexpected {other:?}"),
    }
    // `serde` is no feature but an optional dependency that no `dep:` names.
    match resolve_feature_table_string(&m, "serde") {
        Some(FeatureResolution::OptionalDependency { range, dep_key }) => {
            assert_eq!(range, r(7, 30, 34));
            assert_eq!(dep_key, "serde");
        }
        other => panic!("unexpected {other:?}"),
    }
    // `libc` is named with `dep:`, so it is no implicit feature.
    assert!(resolve_feature_table_string(&m, "libc").is_none());
    assert!(matches!(
        resolve_feature_table_string(&m, "dep:libc"),
        Some(FeatureResolution::OptionalDependency { .. })
    ));
    match resolve_feature_table_string(&m, "regex/unicode") {
        Some(FeatureResolution::DependencyFeature { entry, feature_name }) => {
            assert_eq!(keys(&entry), vec!["target", "cfg(unix)", "dev-dependencies", "regex"]);
            assert_eq!(feature_name, "unicode");
        }
        other => panic!("unexpected {other:?}"),
    }
    assert!(resolve_feature_table_string(&m, "tokio?/rt").is_none());
}

#[test]
fn dependency_sources_are_read() {
    let m = manifest();
    assert_eq!(
        named_dependency_source(&m, &[k("dependencies"), k("local")]),
        Some(DependencySource::Path("../local".to_string()))
    );
    assert_eq!(
        named_dependency_source(&m, &[k("dependencies"), k("shared")]),
        Some(DependencySource::Workspace("shared".to_string()))
    );
    assert_eq!(named_dependency_source(&m, &[k("dependencies"), k("serde")]), None);
    let workspace = t(0, vec![(
        key("workspace", 0),
        t(0, vec![(key("dependencies", 1), t(1, vec![(key("shared", 2), t(2, vec![(key("path", 2), s("crates/shared", 2))]))]))]),
    )]);
    assert_eq!(workspace_dependency_path(&workspace, "shared").map(|s| s.as_str()), Some("crates/shared"));
    assert_eq!(workspace_dependency_path(&workspace, "other"), None);
}

#[test]
fn paths_into_features_and_dependencies() {
    let m = manifest();
    let (text, range) = feature_table_string_at_accessors(&m, &[k("features"), k("std"), Accessor::Index(1)]).unwrap();
    assert_eq!(text, "tokio?/rt");
    assert_eq!(range, r(3, 10, 21));
    assert!(feature_table_string_at_accessors(&m, &[k("features"), k("std")]).is_none());
    assert_eq!(feature_key_at_accessors(&m, &[k("features"), k("full")]).map(|k| k.range), Some(r(4, 0, 4)));
    let optional = [k("dependencies"), k("serde"), k("optional")];
    assert_eq!(dependency_optional_accessors(&optional).map(|p| p.len()), Some(2));
    assert_eq!(optional_dependency_value_at_accessors(&m, &optional), Some((true, r(7, 30, 34))));
    assert_eq!(
        feature_usage_target_for_optional_dependency("/p/Cargo.toml", &optional),
        Some(CargoFeatureUsageTarget::OptionalDependency {
            cargo_toml_path: "/p/Cargo.toml".to_string(),
            dep_key: "serde".to_string()
        })
    );
    assert_eq!(
        feature_usage_target_for_feature_key("/p/Cargo.toml", &[k("features"), k("std")]),
        Some(CargoFeatureUsageTarget::LocalFeature {
            cargo_toml_path: "/p/Cargo.toml".to_string(),
            feature_name: "std".to_string()
        })
    );
    let with_features = t(0, vec![(
        key("dependencies", 1),
        t(1, vec![(key("serde", 2), t(2, vec![(key("features", 2), a(2, vec![s("derive", 2)]))]))]),
    )]);
    let path = [k("dependencies"), k("serde"), k("features"), Accessor::Index(0)];
    let ((text, _), entry) = dependency_feature_string_context(&with_features, &path).unwrap();
    assert_eq!(text, "derive");
    assert_eq!(entry.len(), 2);
}

#[test]
fn every_dependency_entry_is_listed_with_its_path() {
    let m = manifest();
    let entries: Vec<Vec<String>> = dependency_entries(&m).into_iter().map(|(path, _)| keys(&path)).collect();
    assert_eq!(
        entries,
        vec![
            vec!["dependencies", "serde"],
            vec!["dependencies", "libc"],
            vec!["dependencies", "local"],
            vec!["dependencies", "shared"],
            vec!["target", "cfg(unix)", "dev-dependencies", "regex"],
        ]
    );
}
