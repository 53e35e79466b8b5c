use tombi_ext::cargo_lock::{CargoLock, CargoLockDependency, CargoLockPackage};
use tombi_ext::dependency_hints::CargoInlayHintFeatures;
use tombi_ext::document::{Key, Position, Range, TableKind, Value};
use tombi_ext::inlay::InlayHint;
use tombi_ext::registry_hints::{
    inlay_hint, is_cargo_toml_path, registry_default_features_hint, registry_default_features_inlay_hints,
    registry_default_features_requests, registry_request, registry_requirement, RegistryFeaturesRequest,
};

fn range(line: u32, start: u32, end: u32) -> Range {
    Range::new(Position::new(line, start), Position::new(line, end))
}

fn key(name: &str, line: u32) -> Key {
    Key {
        value: name.to_string(),
        range: range(line, 0, name.len() as u32),
    }
}

fn s(value: &str, line: u32, column: u32) -> Value {
    Value::String {
        value: value.to_string(),
        range: range(line, column, column + value.len() as u32 + 2),
    }
}

fn b(value: bool, line: u32) -> Value {
    Value::Boolean {
        value,
        range: range(line, 60, 65),
    }
}

fn t(entries: Vec<(&str, Value)>, line: u32) -> Value {
    Value::Table {
        entries: entries.into_iter().map(|(k, v)| (key(k, line), v)).collect(),
        range: range(line, 0, 80),
        kind: TableKind::Table,
    }
}

fn features(names: &[&str], line: u32) -> Value {
    Value::Array {
        values: names.iter().map(|n| s(n, line, 30)).collect(),
        range: range(line, 30, 50),
    }
}

fn strings(v: &[&str]) -> Vec<String> {
    v.iter().map(|x| x.to_string()).collect()
}

fn hint(line: u32, label: &str) -> InlayHint {
    InlayHint {
        position: Position::new(line, 0),
        label: label.to_string(),
        tooltip: String::new(),
    }
}

fn manifest() -> Value {
    t(
        vec![
            (
                "dependencies",
                t(
                    vec![
                        ("serde", t(vec![("version", s("1.0.200", 2, 10)), ("features", features(&["derive"], 2))], 2)),
                        ("tokio", t(vec![("version", s("1", 3, 10)), ("features", features(&[], 3))], 3)),
                        ("local", t(vec![("path", s("../local", 4, 10)), ("features", features(&[], 4))], 4)),
                        ("plain", s("1.0.0", 5, 10)),
                        (
                            "off",
                            t(
                                vec![("version", s("1.0.0", 6, 10)), ("features", features(&[], 6)), ("default-features", b(false, 6))],
                                6,
                            ),
                        ),
                        ("inherited", t(vec![("workspace", b(true, 7)), ("features", features(&["a"], 7))], 7)),
                    ],
                    1,
                ),
            ),
            (
                "target",
                t(
                    vec![(
                        "cfg(unix)",
                        t(
                            vec![(
                                "dependencies",
                                t(vec![("libc", t(vec![("version", s("=0.2.150", 9, 10)), ("features", features(&[], 9))], 9))], 9),
                            )],
                            8,
                        ),
                    )],
                    8,
                ),
            ),
        ],
        0,
    )
}

fn workspace() -> Value {
    t(
        vec![(
            "workspace",
            t(
                vec![(
                    "dependencies",
                    t(vec![("inherited", t(vec![("version", s("2.1.0", 3, 10)), ("package", s("real-name", 3, 30))], 3))], 2),
                )],
                1,
            ),
        )],
        0,
    )
}

fn lock() -> CargoLock {
    CargoLock::new(vec![
        CargoLockPackage {
            name: "demo".to_string(),
            version: "0.1.0".to_string(),
            dependencies: vec![CargoLockDependency {
                name: "tokio".to_string(),
                version: Some("1.38.0".to_string()),
            }],
        },
        CargoLockPackage {
            name: "tokio".to_string(),
            version: "1.38.0".to_string(),
            dependencies: vec![],
        },
    ])
}

#[test]
fn registry_requirements_follow_the_entry_or_the_workspace() {
    let document = manifest();
    let ws = workspace();
    let deps = tombi_ext::document::dig_keys(&document, &["dependencies"]).unwrap().1;
    let get = |k: &str| deps.get(k).unwrap();
    assert_eq!(
        registry_requirement("serde", get("serde"), None),
        Some(("serde".to_string(), "1.0.200".to_string()))
    );
    assert_eq!(registry_requirement("local", get("local"), None), None);
    assert_eq!(registry_requirement("plain", get("plain"), None), None);
    assert_eq!(registry_requirement("off", get("off"), None), None);
    assert_eq!(registry_requirement("inherited", get("inherited"), None), None);
    assert_eq!(
        registry_requirement("inherited", get("inherited"), Some(&ws)),
        Some(("real-name".to_string(), "2.1.0".to_string()))
    );
}

#[test]
fn requests_resolve_versions_by_pin_or_lockfile() {
    let document = manifest();
    let deps = tombi_ext::document::dig_keys(&document, &["dependencies"]).unwrap().1;
    let tokio = deps.get("tokio").unwrap();
    assert!(registry_request("tokio", tokio, None, None).is_none());
    let lock = lock();
    let request = registry_request("tokio", tokio, None, Some(&lock)).unwrap();
    assert_eq!(request.crate_name, "tokio");
    assert_eq!(request.version, "1.38.0");
    assert_eq!(request.position, Position::new(3, 50));
    let serde = registry_request("serde", deps.get("serde").unwrap(), None, None).unwrap();
    assert_eq!(serde.version, "1.0.200");
    assert_eq!(serde.existing_features, strings(&["derive"]));
}

#[test]
fn requests_cover_every_dependency_table_in_order() {
    let document = manifest();
    let ws = workspace();
    let lock = lock();
    let everything = Range::new(Position::new(0, 0), Position::new(100, 0));
    let requests = registry_default_features_requests(&document, Some(&ws), Some(&lock), everything);
    let names: Vec<&str> = requests.iter().map(|r| r.crate_name.as_str()).collect();
    assert_eq!(names, vec!["serde", "tokio", "real-name", "libc"]);
    assert_eq!(requests[3].version, "0.2.150");
    let visible = Range::new(Position::new(3, 0), Position::new(7, 0));
    let requests = registry_default_features_requests(&document, Some(&ws), Some(&lock), visible);
    let names: Vec<&str> = requests.iter().map(|r| r.crate_name.as_str()).collect();
    assert_eq!(names, vec!["tokio"]);
}

#[test]
fn registry_hints_show_missing_default_features() {
    let request = RegistryFeaturesRequest {
        crate_name: "serde".to_string(),
        version: "1.0.200".to_string(),
        position: Position::new(2, 50),
        existing_features: strings(&["derive"]),
    };
    let h = registry_default_features_hint(&request, Some(strings(&["std", "derive"]))).unwrap();
    assert_eq!(h.position, Position::new(2, 50));
    assert_eq!(h.label, " + [\"std\"]");
    assert_eq!(h.tooltip, "Default Features:\n- \"derive\"\n- \"std\"");
    assert!(registry_default_features_hint(&request, Some(strings(&["derive"]))).is_none());
    assert!(registry_default_features_hint(&request, None).is_none());
    let all = registry_default_features_inlay_hints(
        &[request.clone(), request.clone()],
        &[None, Some(strings(&["std"]))],
    );
    assert_eq!(all.len(), 1);
    assert_eq!(all[0].label, " + [\"std\"]");
}

#[test]
fn cargo_inlay_hints_merge_in_position_order() {
    let manifest_hints = Some(vec![hint(1, "a"), hint(5, "b")]);
    let merged = inlay_hint("/w/Cargo.toml", manifest_hints.clone(), vec![hint(3, "c"), hint(5, "d")], None).unwrap();
    let labels: Vec<&str> = merged.iter().map(|h| h.label.as_str()).collect();
    assert_eq!(labels, vec!["a", "c", "b", "d"]);
    let no_defaults = CargoInlayHintFeatures {
        default_features: Some(false),
        ..CargoInlayHintFeatures::default()
    };
    let merged = inlay_hint("/w/Cargo.toml", manifest_hints.clone(), vec![hint(3, "c")], Some(&no_defaults)).unwrap();
    assert_eq!(merged.len(), 2);
    assert!(inlay_hint("/w/Cargo.toml", None, vec![], None).is_none());
    assert!(inlay_hint("/w/Cargo.toml", None, vec![hint(3, "c")], Some(&no_defaults)).is_none());
    let off = CargoInlayHintFeatures {
        enabled: Some(false),
        ..CargoInlayHintFeatures::default()
    };
    assert!(inlay_hint("/w/Cargo.toml", manifest_hints.clone(), vec![], Some(&off)).is_none());
    assert!(inlay_hint("/w/pyproject.toml", manifest_hints, vec![hint(3, "c")], None).is_none());
    assert!(is_cargo_toml_path("/w/crates/a/Cargo.toml"));
    assert!(!is_cargo_toml_path("/w/Cargo.lock"));
}
