use tombi_ext::document::{Key, Position, Range, TableKind, Value};
use tombi_ext::feature_link::DependencyManifest;
use tombi_ext::feature_navigation::CargoFeatureUsageTarget;
use tombi_ext::feature_usage::{
    collect_feature_usage_locations, collect_feature_usage_locations_in_manifest, WorkspaceManifest,
};

fn r(line: u32, start: u32, end: u32) -> Range {
    Range::new(Position::new(line, start), Position::new(line, end))
}

fn key(name: &str, line: u32) -> Key {
    Key {
        value: name.to_string(),
        range: r(line, 0, name.len() as u32),
    }
}

fn s(value: &str, line: u32, column: u32) -> Value {
    Value::String {
        value: value.to_string(),
        range: r(line, column, column + value.len() as u32 + 2),
    }
}

fn t(line: u32, entries: Vec<(Key, Value)>) -> Value {
    Value::Table {
        entries,
        range: r(line, 0, 80),
        kind: TableKind::Table,
    }
}

fn a(line: u32, values: Vec<Value>) -> Value {
    Value::Array {
        values,
        range: r(line, 10, 70),
    }
}

fn inside(range: Range) -> Range {
    Range::new(
        Position::new(range.start.line, range.start.column + 1),
        Position::new(range.end.line, range.end.column - 1),
    )
}

fn app() -> Value {
    t(
        0,
        vec![
            (
                key("features", 1),
                t(
                    1,
                    vec![
                        (key("default", 2), a(2, vec![s("std", 2, 12), s("dep:log", 2, 20), s("serde/derive", 2, 32)])),
                        (key("std", 3), a(3, vec![])),
                    ],
                ),
            ),
            (
                key("dependencies", 4),
                t(
                    4,
                    vec![
                        (key("serde", 5), t(5, vec![(key("features", 5), a(5, vec![s("derive", 5, 30)]))])),
                        (key("log", 6), t(6, vec![(key("optional", 6), Value::Boolean { value: true, range: r(6, 20, 24) })])),
                    ],
                ),
            ),
        ],
    )
}

fn serde_manifest() -> Vec<DependencyManifest> {
    vec![DependencyManifest {
        entry: vec!["dependencies".to_string(), "serde".to_string()],
        path: "/serde/Cargo.toml".to_string(),
        document: t(0, vec![(key("features", 1), t(1, vec![(key("derive", 2), a(2, vec![]))]))]),
    }]
}

fn local(path: &str, name: &str) -> CargoFeatureUsageTarget {
    CargoFeatureUsageTarget::LocalFeature {
        cargo_toml_path: path.to_string(),
        feature_name: name.to_string(),
    }
}

#[test]
fn local_features_and_optional_dependencies_are_found() {
    let document = app();
    let std_uses = collect_feature_usage_locations_in_manifest(&document, "/app/Cargo.toml", &serde_manifest(), &local("/app/Cargo.toml", "std"));
    assert_eq!(std_uses.len(), 1);
    assert_eq!(std_uses[0].range, inside(r(2, 12, 17)));
    let log = CargoFeatureUsageTarget::OptionalDependency {
        cargo_toml_path: "/app/Cargo.toml".to_string(),
        dep_key: "log".to_string(),
    };
    let log_uses = collect_feature_usage_locations_in_manifest(&document, "/app/Cargo.toml", &serde_manifest(), &log);
    assert_eq!(log_uses.len(), 1);
    assert_eq!(log_uses[0].range, inside(r(2, 20, 29)));
}

#[test]
fn dependency_features_are_found_through_the_dependency_manifest() {
    let document = app();
    let uses = collect_feature_usage_locations_in_manifest(&document, "/app/Cargo.toml", &serde_manifest(), &local("/serde/Cargo.toml", "derive"));
    assert_eq!(uses.len(), 2);
    assert_eq!(uses[0].range, inside(r(2, 32, 46)));
    assert_eq!(uses[1].range, inside(r(5, 30, 38)));
    assert!(collect_feature_usage_locations_in_manifest(&document, "/app/Cargo.toml", &[], &local("/serde/Cargo.toml", "derive")).is_empty());
}

#[test]
fn workspace_usages_are_listed_once() {
    let manifests = vec![
        WorkspaceManifest {
            path: "/app/Cargo.toml".to_string(),
            document: app(),
            dependencies: serde_manifest(),
        },
        WorkspaceManifest {
            path: "/app/Cargo.toml".to_string(),
            document: app(),
            dependencies: serde_manifest(),
        },
        WorkspaceManifest {
            path: "/cli/Cargo.toml".to_string(),
            document: app(),
            dependencies: serde_manifest(),
        },
    ];
    let uses = collect_feature_usage_locations(&manifests, &local("/serde/Cargo.toml", "derive"));
    assert_eq!(uses.len(), 4);
    assert_eq!(uses[2].path, "/cli/Cargo.toml");
}
