use tombi_ext::cargo_lock::{CargoLock, CargoLockDependency, CargoLockPackage};
use tombi_ext::dependency_hints::{
    cargo_inlay_hint_enabled, cargo_inlay_hint_root_enabled, default_features_source, inlay_hint_impl,
    local_version_source, CargoInlayHintFeature, CargoInlayHintFeatures, DependencyTableInputs, ManifestSource,
};
use tombi_ext::document::{TableKind, Key, Position, Range, Value};
use tombi_ext::inlay::{
    build_default_features_hint, collect_local_manifest_requests, current_package_name,
    dependency_default_features_hint, dependency_table_paths, dependency_version_hint,
    format_default_features_label, format_default_features_tooltip,
    has_visible_workspace_value_targets, local_default_features_request_position,
    lock_resolved_version, package_default_features, package_version, sanitize_value_for_hint,
    sort_hints_by_position, version_inlay_hint, visible_version_hints,
    workspace_dependency_lock_version, workspace_dependency_lock_versions,
    workspace_member_patterns, workspace_value_hint_label, workspace_value_targets,
    CurrentPackage, InlayHint, LocalVersionSource, WorkspaceMemberPackage,
};

fn range(line: u32, start: u32, end: u32) -> Range {
    Range::new(Position::new(line, start), Position::new(line, end))
}

fn key(name: &str, line: u32) -> Key {
    Key {
        value: name.to_string(),
        range: range(line, 0, name.len() as u32),
    }
}

fn s(value: &str, line: u32, column: u32) -> Value {
    Value::String {
        value: value.to_string(),
        range: range(line, column, column + value.len() as u32 + 2),
    }
}

fn b(value: bool, line: u32, column: u32) -> Value {
    Value::Boolean {
        value,
        range: range(line, column, column + if value { 4 } else { 5 }),
    }
}

fn t(entries: Vec<(&str, Value)>, line: u32) -> Value {
    Value::Table {
        entries: entries.into_iter().map(|(k, v)| (key(k, line), v)).collect(),
        range: range(line, 0, 80),
        kind: TableKind::Table,
    }
}

fn a(values: Vec<Value>, line: u32, column: u32) -> Value {
    Value::Array {
        values,
        range: range(line, column, column + 20),
    }
}

fn dig<'a>(document: &'a Value, keys: &[&str]) -> &'a Value {
    tombi_ext::document::dig_keys(document, keys).expect("expected value").1
}

#[test]
fn collects_local_manifest_requests_only_for_visible_path_dependency_hints() {
    let document_tree = t(
        vec![(
            "dependencies",
            t(
                vec![
                    ("serde", t(vec![("path", s("../serde", 2, 21))], 2)),
                    ("tokio", t(vec![("path", s("../tokio", 3, 21))], 3)),
                ],
                1,
            ),
        )],
        0,
    );
    let serde_value = dig(&document_tree, &["dependencies", "serde"]);
    let visible_range = Range::at(dependency_version_hint("serde", serde_value).unwrap().position);

    let requests = collect_local_manifest_requests(&document_tree, visible_range, true, false);

    assert_eq!(requests.path_dependencies.len(), 1);
    assert!(requests.path_dependencies.contains(&"../serde".to_string()));
    assert!(!requests.path_dependencies.contains(&"../tokio".to_string()));
    assert!(requests.workspace_dependencies.is_empty());
}

#[test]
fn collects_local_manifest_requests_for_visible_workspace_default_feature_hints() {
    let document_tree = t(
        vec![(
            "dependencies",
            t(
                vec![
                    (
                        "serde",
                        t(vec![("workspace", b(true, 2, 22)), ("features", a(vec![s("derive", 2, 41)], 2, 40))], 2),
                    ),
                    (
                        "tokio",
                        t(vec![("workspace", b(true, 3, 22)), ("features", a(vec![s("rt", 3, 41)], 3, 40))], 3),
                    ),
                ],
                1,
            ),
        )],
        0,
    );
    let serde_value = dig(&document_tree, &["dependencies", "serde"]);
    let visible_range =
        Range::at(local_default_features_request_position(serde_value).expect("expected feature position"));

    let requests = collect_local_manifest_requests(&document_tree, visible_range, false, true);

    assert!(requests.path_dependencies.is_empty());
    assert_eq!(requests.workspace_dependencies.len(), 1);
    assert!(requests.workspace_dependencies.contains(&"serde".to_string()));
    assert!(!requests.workspace_dependencies.contains(&"tokio".to_string()));
}

#[test]
fn skips_local_manifest_requests_when_local_hints_are_offscreen() {
    let document_tree = t(
        vec![("dependencies", t(vec![("serde", t(vec![("path", s("../serde", 2, 21))], 2))], 1))],
        0,
    );

    let requests =
        collect_local_manifest_requests(&document_tree, Range::at(Position::new(0, 0)), true, true);

    assert!(requests.path_dependencies.is_empty());
    assert!(requests.workspace_dependencies.is_empty());
}

#[test]
fn renders_workspace_value_hint_label() {
    let value = a(vec![s("tombi", 0, 9), s("cargo", 0, 18)], 0, 8);

    assert_eq!(
        workspace_value_hint_label(&value, r#"["tombi", "cargo"]"#),
        Some(r#" → ["tombi", "cargo"]"#.to_string())
    );
}

#[test]
fn normalizes_workspace_value_hint_label_to_single_line() {
    let value = s("hello\nworld\n", 1, 8);
    let label = workspace_value_hint_label(&value, "\"\"\"\nhello\nworld\n\"\"\"").expect("expected label");
    assert!(!label.contains('\n'));
    assert!(label.contains("\\n"));
}

#[test]
fn truncates_workspace_value_hint_label() {
    let text = "abcdefghijklmnopqrstuvwxyzabcdefghijklmnopqrstuvwxyzabcdefghijklmnopqrstuvwxyzabcdefghijklmnopqrstuvwxyz";
    let value = s(text, 0, 8);
    let label = workspace_value_hint_label(&value, &format!("\"{text}\"")).expect("expected label");
    assert!(label.ends_with("..."));
    assert!(label.chars().count() <= 80 + 3);
}

#[test]
fn incomplete_values_get_no_workspace_label() {
    let value = Value::Incomplete { range: range(0, 0, 0) };
    assert_eq!(workspace_value_hint_label(&value, ""), None);
    assert_eq!(sanitize_value_for_hint("a\r\nb"), "a\\r\\nb");
    assert_eq!(sanitize_value_for_hint(&"x".repeat(80)), "x".repeat(80));
    assert_eq!(sanitize_value_for_hint(&"x".repeat(81)), format!("{}...", "x".repeat(77)));
}

#[test]
fn version_hints_follow_the_entry_shape() {
    let plain = s("1.0", 1, 8);
    let hint = dependency_version_hint("serde", &plain).unwrap();
    assert_eq!(hint.dependency_name, "serde");
    assert_eq!(hint.current_version.as_deref(), Some("1.0"));
    assert_eq!(hint.position, Position::new(1, 13));
    assert!(!hint.always_show);

    let renamed = t(vec![("package", s("serde_json", 2, 20)), ("version", s("1", 2, 40))], 2);
    let hint = dependency_version_hint("json", &renamed).unwrap();
    assert_eq!(hint.dependency_name, "serde_json");
    assert_eq!(hint.current_version.as_deref(), Some("1"));

    let inherited = t(vec![("workspace", b(true, 3, 20))], 3);
    let hint = dependency_version_hint("tokio", &inherited).unwrap();
    assert!(hint.always_show);
    assert!(matches!(hint.local_version_source, Some(LocalVersionSource::WorkspaceDependency(ref k)) if k == "tokio"));

    let local = t(vec![("path", s("../member", 4, 20))], 4);
    let hint = dependency_version_hint("member", &local).unwrap();
    assert!(matches!(hint.local_version_source, Some(LocalVersionSource::Path(ref p)) if p == "../member"));

    let git = t(vec![("git", s("https://example.com/repo", 5, 20))], 5);
    assert!(dependency_version_hint("repo", &git).unwrap().local_version_source.is_none());

    let bare = t(vec![("features", a(vec![], 6, 20))], 6);
    assert!(dependency_version_hint("bare", &bare).is_none());
}

#[test]
fn visible_version_hints_skip_offscreen_entries() {
    let table = t(vec![("serde", s("1.0", 1, 8)), ("tokio", s("1.47", 9, 8))], 0);
    let visible = Range::new(Position::new(0, 0), Position::new(5, 0));
    let hints = visible_version_hints(&table, visible);
    assert_eq!(hints.len(), 1);
    assert_eq!(hints[0].dependency_name, "serde");
}

fn cache() -> tombi_ext::lock_cache::CargoLockInlayCacheData {
    CargoLock::new(vec![
        CargoLockPackage {
            name: "app".to_string(),
            version: "0.1.0".to_string(),
            dependencies: vec![CargoLockDependency {
                name: "serde".to_string(),
                version: None,
            }],
        },
        CargoLockPackage {
            name: "cli".to_string(),
            version: "0.2.0".to_string(),
            dependencies: vec![CargoLockDependency {
                name: "serde".to_string(),
                version: None,
            }],
        },
        CargoLockPackage {
            name: "serde".to_string(),
            version: "1.0.228".to_string(),
            dependencies: Vec::new(),
        },
    ])
    .into_inlay_cache_data()
}

#[test]
fn lock_versions_for_packages_and_workspaces() {
    let cache = cache();
    let current = CurrentPackage {
        name: "app".to_string(),
        version: "0.1.0".to_string(),
    };
    let members = vec![
        WorkspaceMemberPackage {
            name: "app".to_string(),
            version: "0.1.0".to_string(),
        },
        WorkspaceMemberPackage {
            name: "cli".to_string(),
            version: "0.2.0".to_string(),
        },
    ];
    assert_eq!(
        lock_resolved_version("serde", &["dependencies"], Some(&cache), Some(&current), None),
        Some("1.0.228".to_string())
    );
    assert_eq!(
        lock_resolved_version("serde", &["workspace", "dependencies"], Some(&cache), None, Some(&members)),
        Some("1.0.228".to_string())
    );
    assert_eq!(lock_resolved_version("serde", &["dependencies"], None, Some(&current), None), None);
    assert_eq!(workspace_dependency_lock_version(&cache, None, "serde"), None);
    let versions = workspace_dependency_lock_versions(
        &cache,
        Some(&members),
        &vec!["serde".to_string(), "rand".to_string(), "serde".to_string()],
    );
    assert_eq!(versions, vec![("serde".to_string(), "1.0.228".to_string())]);
}

#[test]
fn version_inlay_hints_prefer_the_lockfile() {
    let hint = dependency_version_hint("serde", &s("1.0", 1, 8)).unwrap();
    let from_lock = version_inlay_hint(&hint, Some("1.0.228".to_string()), Some("0.9".to_string())).unwrap();
    assert_eq!(from_lock.label, " → \"1.0.228\"");
    assert_eq!(from_lock.tooltip, "Resolved version in Cargo.lock");
    let local = version_inlay_hint(&hint, None, Some("0.9".to_string())).unwrap();
    assert_eq!(local.tooltip, "Version from local dependency Cargo.toml");
    assert!(version_inlay_hint(&hint, None, None).is_none());
    assert!(version_inlay_hint(&hint, Some("1.0".to_string()), None).is_none());
}

#[test]
fn default_features_hint_lists_missing_defaults_in_order() {
    let hint = build_default_features_hint(
        Position::new(2, 30),
        vec!["std".to_string(), "derive".to_string(), "alloc".to_string()],
        &vec!["std".to_string()],
    )
    .unwrap();
    assert_eq!(hint.position, Position::new(2, 30));
    assert_eq!(hint.label, r#" + ["alloc", "derive"]"#);
    assert_eq!(hint.tooltip, "Default Features:\n- \"alloc\"\n- \"derive\"\n- \"std\"");
    assert!(build_default_features_hint(
        Position::new(0, 0),
        vec!["std".to_string()],
        &vec!["std".to_string()],
    )
    .is_none());
    assert_eq!(format_default_features_label(&["a".to_string()]), r#" + ["a"]"#);
    assert_eq!(format_default_features_tooltip(&[]), "Default Features:\n");
}

#[test]
fn dependency_default_features_hint_needs_a_features_array() {
    let with_features = t(vec![("workspace", b(true, 2, 20)), ("features", a(vec![s("rt", 2, 41)], 2, 40))], 2);
    let hint = dependency_default_features_hint(&with_features, Some(vec!["macros".to_string(), "rt".to_string()])).unwrap();
    assert_eq!(hint.label, r#" + ["macros"]"#);
    assert_eq!(hint.position, Position::new(2, 60));
    let disabled = t(
        vec![("default-features", b(false, 3, 20)), ("features", a(vec![], 3, 40))],
        3,
    );
    assert!(dependency_default_features_hint(&disabled, Some(vec!["std".to_string()])).is_none());
    assert!(dependency_default_features_hint(&with_features, None).is_none());
}

#[test]
fn manifest_package_fields() {
    let member = t(
        vec![(
            "package",
            t(vec![("name", s("app", 1, 7)), ("version", t(vec![("workspace", b(true, 2, 30))], 2))], 1),
        )],
        0,
    );
    let workspace = t(
        vec![(
            "workspace",
            t(
                vec![
                    ("members", a(vec![s("crates/*", 5, 12), b(true, 5, 30)], 5, 10)),
                    ("package", t(vec![("version", s("0.0.0-dev", 6, 10))], 6)),
                ],
                4,
            ),
        )],
        0,
    );
    assert_eq!(current_package_name(&member), Some("app"));
    assert_eq!(package_version(&member, Some(&workspace)), Some("0.0.0-dev".to_string()));
    assert_eq!(package_version(&member, None), None);
    assert_eq!(workspace_member_patterns(&workspace), vec!["crates/*".to_string()]);
    let defaults = t(
        vec![("features", t(vec![("default", a(vec![s("std", 1, 12)], 1, 10))], 1))],
        0,
    );
    assert_eq!(package_default_features(&defaults), Some(vec!["std".to_string()]));
    assert_eq!(package_default_features(&member), None);
}

#[test]
fn workspace_value_targets_follow_visible_flags() {
    let member = t(
        vec![(
            "package",
            t(
                vec![
                    ("name", s("app", 1, 7)),
                    ("version", t(vec![("workspace", b(true, 3, 36))], 3)),
                    ("edition", t(vec![("workspace", b(true, 30, 36))], 30)),
                ],
                1,
            ),
        )],
        0,
    );
    let workspace = t(
        vec![(
            "workspace",
            t(vec![("package", t(vec![("version", s("0.0.0-dev", 6, 10)), ("edition", s("2021", 7, 10))], 6))], 4),
        )],
        0,
    );
    let visible = Range::new(Position::new(0, 0), Position::new(8, 0));
    assert!(has_visible_workspace_value_targets(&member, visible));
    let targets = workspace_value_targets(&member, &workspace, visible);
    assert_eq!(targets.len(), 1);
    assert_eq!(targets[0].0, Position::new(3, 40));
    assert!(!has_visible_workspace_value_targets(&member, Range::at(Position::new(50, 0))));
}

#[test]
fn dependency_tables_include_targets() {
    let document = t(
        vec![(
            "target",
            t(vec![("cfg(unix)", t(vec![], 2)), ("not-a-table", s("x", 3, 0))], 1),
        )],
        0,
    );
    let paths = dependency_table_paths(&document);
    assert_eq!(paths.len(), 7);
    assert_eq!(paths[3], vec!["workspace".to_string(), "dependencies".to_string()]);
    assert_eq!(
        paths[5],
        vec!["target".to_string(), "cfg(unix)".to_string(), "dev-dependencies".to_string()]
    );
}

#[test]
fn hints_are_ordered_by_position() {
    let hint = |line: u32, column: u32, label: &str| InlayHint {
        position: Position::new(line, column),
        label: label.to_string(),
        tooltip: String::new(),
    };
    let sorted = sort_hints_by_position(vec![hint(3, 1, "c"), hint(1, 5, "a"), hint(1, 9, "b"), hint(1, 5, "a2")]);
    let labels: Vec<&str> = sorted.iter().map(|h| h.label.as_str()).collect();
    assert_eq!(labels, vec!["a", "a2", "b", "c"]);
}

fn app_current() -> CurrentPackage {
    CurrentPackage {
        name: "app".to_string(),
        version: "0.1.0".to_string(),
    }
}

fn dependency_table() -> Value {
    t(
        vec![
            ("serde", s("1.0", 1, 8)),
            (
                "foo",
                Value::Table {
                    entries: vec![(key("version", 2), s("0.1", 2, 16)), (key("features", 2), a(vec![s("a", 2, 40)], 2, 35))],
                    range: range(2, 6, 60),
                    kind: TableKind::InlineTable,
                },
            ),
        ],
        0,
    )
}

#[test]
fn dependency_table_hints_show_versions_then_default_features() {
    let table = dependency_table();
    let visible = range(0, 0, 0);
    let visible = Range::new(visible.start, Position::new(10, 0));
    let cache = cache();
    let current = app_current();
    let locals = vec![None, Some("0.1.5".to_string())];
    let defaults = vec![None, Some(vec!["b".to_string(), "a".to_string()])];
    let hints = tombi_ext::dependency_hints::collect_dependency_inlay_hints(
        &table,
        &["dependencies"],
        visible,
        Some(&cache),
        Some(&current),
        None,
        &locals,
        &defaults,
        true,
        true,
    );
    assert_eq!(hints.len(), 3);
    assert_eq!(hints[0].label, " → \"1.0.228\"");
    assert_eq!(hints[0].tooltip, "Resolved version in Cargo.lock");
    assert_eq!(hints[1].label, " → \"0.1.5\"");
    assert_eq!(hints[1].tooltip, "Version from local dependency Cargo.toml");
    assert_eq!(hints[2].label, r#" + ["b"]"#);
    assert_eq!(hints[2].position, Position::new(2, 55));

    let only_versions = tombi_ext::dependency_hints::collect_dependency_inlay_hints(
        &table, &["dependencies"], visible, Some(&cache), Some(&current), None, &locals, &defaults, true, false,
    );
    assert_eq!(only_versions.len(), 2);
    assert!(tombi_ext::dependency_hints::collect_dependency_inlay_hints(
        &table, &["dependencies"], visible, Some(&cache), Some(&current), None, &locals, &defaults, false, false,
    )
    .is_empty());
}

#[test]
fn manifest_hints_are_ordered_and_need_a_switch() {
    let document = t(
        vec![
            ("package", t(vec![("edition", t(vec![("workspace", b(true, 3, 20))], 3))], 1)),
            ("dependencies", dependency_table()),
        ],
        0,
    );
    let workspace = t(vec![("workspace", t(vec![("package", t(vec![("edition", s("2021", 5, 10))], 4))], 4))], 4);
    let visible = Range::new(Position::new(0, 0), Position::new(10, 0));
    assert_eq!(dependency_table_paths(&document).len(), 4);
    let empty = || DependencyTableInputs {
        local_versions: vec![],
        default_features: vec![],
    };
    let tables = vec![
        DependencyTableInputs {
            local_versions: vec![None, Some("0.1.5".to_string())],
            default_features: vec![None, Some(vec!["b".to_string()])],
        },
        empty(),
        empty(),
        empty(),
    ];
    let cache = cache();
    let current = app_current();
    let rendered = vec!["\"2021\"".to_string()];
    let hints = inlay_hint_impl(
        &document,
        visible,
        Some((&workspace, rendered.as_slice())),
        Some(&cache),
        Some(&current),
        None,
        &tables,
        None,
    )
    .unwrap();
    assert_eq!(hints.len(), 4);
    assert_eq!(hints[0].label, " → \"1.0.228\"");
    assert_eq!(hints[2].label, r#" + ["b"]"#);
    assert_eq!(hints[3].label, " → \"2021\"");
    assert_eq!(hints[3].tooltip, "Inherited value from workspace");
    let all_off = CargoInlayHintFeatures {
        enabled: None,
        dependency_version: Some(false),
        default_features: Some(false),
        workspace_value: Some(false),
    };
    assert!(inlay_hint_impl(&document, visible, None, Some(&cache), Some(&current), None, &tables, Some(&all_off)).is_none());
    let root_off = CargoInlayHintFeatures {
        enabled: Some(false),
        ..CargoInlayHintFeatures::default()
    };
    assert!(inlay_hint_impl(&document, visible, None, Some(&cache), Some(&current), None, &tables, Some(&root_off)).is_none());
    let offscreen = Range::new(Position::new(30, 0), Position::new(40, 0));
    let no_inputs = vec![
        DependencyTableInputs {
            local_versions: vec![],
            default_features: vec![None, None],
        },
        empty(),
        empty(),
        empty(),
    ];
    assert!(inlay_hint_impl(&document, offscreen, None, Some(&cache), Some(&current), None, &no_inputs, None).is_none());
}

#[test]
fn default_features_come_from_the_path_or_the_workspace_entry() {
    let path_dependency = t(vec![("path", s("../util", 1, 10))], 1);
    assert_eq!(default_features_source(&path_dependency, "util", None), Some(ManifestSource::Local("../util".to_string())));
    let inherited = t(vec![("workspace", b(true, 2, 10))], 2);
    let workspace = t(
        vec![(
            "workspace",
            t(
                vec![(
                    "dependencies",
                    t(
                        vec![
                            ("util", t(vec![("path", s("crates/util", 3, 10))], 3)),
                            ("quiet", t(vec![("path", s("crates/quiet", 4, 10)), ("default-features", b(false, 4, 40))], 4)),
                        ],
                        3,
                    ),
                )],
                3,
            ),
        )],
        3,
    );
    assert_eq!(
        default_features_source(&inherited, "util", Some(&workspace)),
        Some(ManifestSource::Workspace("crates/util".to_string()))
    );
    assert_eq!(default_features_source(&inherited, "quiet", Some(&workspace)), None);
    assert_eq!(default_features_source(&inherited, "util", None), None);
    assert_eq!(default_features_source(&s("1", 1, 1), "util", Some(&workspace)), None);
}

#[test]
fn local_versions_come_from_the_right_manifest() {
    let workspace = t(
        vec![(
            "workspace",
            t(vec![("dependencies", t(vec![("util", t(vec![("path", s("crates/util", 3, 10)), ("default-features", b(false, 3, 40))], 3))], 3))], 3),
        )],
        3,
    );
    let member = t(vec![("package", t(vec![("name", s("app", 1, 7))], 1))], 0);
    let by_key = LocalVersionSource::WorkspaceDependency("util".to_string());
    assert_eq!(
        local_version_source(&member, Some(&by_key), Some(&workspace)),
        Some(ManifestSource::Workspace("crates/util".to_string()))
    );
    assert_eq!(
        local_version_source(&workspace, Some(&by_key), None),
        Some(ManifestSource::Local("crates/util".to_string()))
    );
    let by_path = LocalVersionSource::Path("../lib".to_string());
    assert_eq!(local_version_source(&member, Some(&by_path), None), Some(ManifestSource::Local("../lib".to_string())));
    assert_eq!(local_version_source(&member, None, Some(&workspace)), None);
    assert_eq!(local_version_source(&member, Some(&by_key), None), None);
}

fn workspace_root_manifest() -> Value {
    let version = Value::Table {
        entries: vec![(key("workspace", 3), Value::Boolean { value: true, range: range(3, 36, 40) })],
        range: range(3, 22, 42),
        kind: TableKind::InlineTable,
    };
    t(
        vec![
            ("package", t(vec![("name", s("app", 2, 19)), ("version", version)], 1)),
            (
                "workspace",
                t(
                    vec![
                        ("members", a(vec![s(".", 6, 23)], 6, 22)),
                        ("package", t(vec![("version", s("0.0.0-dev", 9, 22))], 8)),
                    ],
                    5,
                ),
            ),
        ],
        0,
    )
}

fn no_table_inputs(document: &Value) -> Vec<DependencyTableInputs> {
    dependency_table_paths(document)
        .iter()
        .map(|_| DependencyTableInputs {
            local_versions: vec![],
            default_features: vec![],
        })
        .collect()
}

#[test]
fn keeps_workspace_package_hints_when_dependency_version_hints_are_disabled() {
    let document_tree = workspace_root_manifest();
    let features = CargoInlayHintFeatures {
        enabled: None,
        dependency_version: Some(false),
        default_features: None,
        workspace_value: None,
    };
    let rendered = vec!["\"0.0.0-dev\"".to_string()];
    let tables = no_table_inputs(&document_tree);
    let hints = inlay_hint_impl(
        &document_tree,
        Range::new(Position::new(0, 0), Position::new(8, 0)),
        Some((&document_tree, rendered.as_slice())),
        None,
        None,
        None,
        &tables,
        Some(&features),
    );

    assert_eq!(
        hints,
        Some(vec![InlayHint {
            position: Position::new(3, 40),
            label: r#" → "0.0.0-dev""#.to_string(),
            tooltip: "Inherited value from workspace".to_string(),
        }])
    );
}

#[test]
fn disables_workspace_package_hints_when_workspace_inlay_hints_are_disabled() {
    let document_tree = workspace_root_manifest();
    let features = CargoInlayHintFeatures {
        enabled: None,
        dependency_version: None,
        default_features: None,
        workspace_value: Some(false),
    };
    let rendered = vec!["\"0.0.0-dev\"".to_string()];
    let tables = no_table_inputs(&document_tree);
    let hints = inlay_hint_impl(
        &document_tree,
        Range::new(Position::new(0, 0), Position::new(8, 0)),
        Some((&document_tree, rendered.as_slice())),
        None,
        None,
        None,
        &tables,
        Some(&features),
    );

    assert_eq!(hints, None);
}

#[test]
fn inlay_hint_kinds_are_on_unless_switched_off() {
    let features = CargoInlayHintFeatures {
        enabled: Some(true),
        dependency_version: Some(false),
        default_features: None,
        workspace_value: Some(true),
    };
    assert!(cargo_inlay_hint_root_enabled(None));
    assert!(cargo_inlay_hint_root_enabled(Some(&features)));
    assert!(!cargo_inlay_hint_enabled(Some(&features), CargoInlayHintFeature::DependencyVersion));
    assert!(cargo_inlay_hint_enabled(Some(&features), CargoInlayHintFeature::DefaultFeatures));
    assert!(cargo_inlay_hint_enabled(None, CargoInlayHintFeature::WorkspaceValue));
}
