use tombi_ext::cargo_code_action::{
    render_feature_values, render_inherited_dependency_string,
    render_inherited_dependency_table_version, CodeActionRefactorRewriteName,
};
use tombi_ext::cargo_document_link::{
    cargo_toml_document_link_enabled, crates_io_crate_url, crates_io_document_link_enabled,
    dependency_key_tooltip, dependency_table_tooltip, dependency_uses_local_path,
    git_document_link_enabled, path_document_link_enabled, tooltip_matches,
    workspace_document_link_enabled, DocumentLinkFeatures, DocumentLinkToolTip,
};
use tombi_ext::cargo_lock::{
    cargo_lock_cache_key, exact_crates_io_version, CargoLock, CargoLockDependency,
    CargoLockPackage,
};
use tombi_ext::document::{TableKind, Key, Position, Range, Value};
use tombi_ext::inlay::version_hint_label;
use tombi_ext::py_code_action::CodeActionRefactorRewriteName as PyCodeActionRefactorRewriteName;

fn package(name: &str, version: &str, dependencies: Vec<CargoLockDependency>) -> CargoLockPackage {
    CargoLockPackage {
        name: name.to_string(),
        version: version.to_string(),
        dependencies,
    }
}

fn dependency(name: &str, version: Option<&str>) -> CargoLockDependency {
    CargoLockDependency {
        name: name.to_string(),
        version: version.map(str::to_string),
    }
}

fn at(line: u32, column: u32) -> Range {
    Range::new(Position::new(line, column), Position::new(line, column))
}

fn string(value: &str) -> Value {
    Value::String {
        value: value.to_string(),
        range: at(0, 0),
    }
}

fn table(entries: Vec<(&str, Value)>) -> Value {
    Value::Table {
        entries: entries
            .into_iter()
            .map(|(k, v)| {
                (
                    Key {
                        value: k.to_string(),
                        range: at(0, 0),
                    },
                    v,
                )
            })
            .collect(),
        range: at(0, 0),
        kind: TableKind::Table,
    }
}

#[test]
fn parses_lockfile_dependency_with_explicit_version() {
    let dependency = CargoLockDependency::parse("windows-sys 0.59.0");

    assert_eq!(dependency.name, "windows-sys");
    assert_eq!(dependency.version.as_deref(), Some("0.59.0"));
}

#[test]
fn parses_lockfile_dependency_without_explicit_version() {
    let dependency = CargoLockDependency::parse("serde");

    assert_eq!(dependency.name, "serde");
    assert_eq!(dependency.version, None);
}

#[test]
fn lockfile_dependency_keeps_a_name_whose_last_word_is_no_version() {
    let dependency = CargoLockDependency::parse("serde registry+https://example.com");
    assert_eq!(dependency.name, "serde registry+https://example.com");
    assert_eq!(dependency.version, None);
}

#[test]
fn resolves_unique_dependency_version_from_lockfile() {
    let cargo_lock = CargoLock::new(vec![
        package("demo", "0.1.0", vec![dependency("criterion", Some("0.5.1"))]),
        package("helper", "0.1.0", vec![dependency("criterion", None)]),
        package("criterion", "0.5.1", Vec::new()),
    ]);

    assert_eq!(
        cargo_lock.unique_dependency_version("criterion"),
        Some("0.5.1".to_string())
    );
}

#[test]
fn does_not_resolve_ambiguous_dependency_version_from_lockfile() {
    let cargo_lock = CargoLock::new(vec![
        package("demo", "0.1.0", vec![dependency("faststr", Some("0.2.1"))]),
        package("helper", "0.1.0", vec![dependency("faststr", Some("0.2.2"))]),
    ]);

    assert_eq!(cargo_lock.unique_dependency_version("faststr"), None);
}

#[test]
fn unique_package_versions_mark_crates_locked_twice() {
    let cargo_lock = CargoLock::new(vec![
        package("syn", "1.0.109", Vec::new()),
        package("syn", "2.0.100", Vec::new()),
        package("quote", "1.0.40", Vec::new()),
    ]);
    let table = cargo_lock.unique_package_versions();
    let syn = table.iter().find(|(name, _)| name == "syn").unwrap();
    let quote = table.iter().find(|(name, _)| name == "quote").unwrap();
    assert_eq!(syn.1, None);
    assert_eq!(quote.1.as_deref(), Some("1.0.40"));
    assert_eq!(table.len(), 2);
}

#[test]
fn bare_dependency_resolves_through_unique_package_version() {
    let cargo_lock = CargoLock::new(vec![
        package("app", "0.1.0", vec![dependency("syn", None)]),
        package("syn", "2.0.100", Vec::new()),
    ]);
    assert_eq!(
        cargo_lock.unique_dependency_version("syn"),
        Some("2.0.100".to_string())
    );
    assert_eq!(cargo_lock.unique_dependency_version("quote"), None);
}

#[test]
fn cargo_lock_cache_data_resolves_dependency_version() {
    let cargo_lock = CargoLock::new(vec![
        package("demo", "0.1.0", vec![dependency("serde", Some("1.0.228"))]),
        package("serde", "1.0.228", Vec::new()),
    ]);

    let cache_data = cargo_lock.into_inlay_cache_data();

    assert_eq!(
        cache_data.resolved_dependency_version("demo", "0.1.0", "serde"),
        Some("1.0.228".to_string())
    );
}

#[test]
fn cache_data_matches_the_lockfile_for_every_package() {
    let packages = vec![
        package("demo", "0.1.0", vec![dependency("serde", None), dependency("tokio", Some("1.47.1"))]),
        package("serde", "1.0.228", Vec::new()),
        package("tokio", "1.47.1", Vec::new()),
    ];
    let cache_data = CargoLock::new(packages).into_inlay_cache_data();
    assert_eq!(
        cache_data.resolved_dependency_version("demo", "0.1.0", "serde"),
        Some("1.0.228".to_string())
    );
    assert_eq!(
        cache_data.resolved_dependency_version("demo", "0.1.0", "tokio"),
        Some("1.47.1".to_string())
    );
    assert_eq!(cache_data.resolved_dependency_version("demo", "0.2.0", "serde"), None);
    assert_eq!(cache_data.resolved_dependency_version("demo", "0.1.0", "rand"), None);
}

#[test]
fn resolve_dependency_version_prefers_exact_or_lockfile_version() {
    let cargo_lock = CargoLock::new(vec![
        package("demo", "0.1.0", vec![dependency("criterion", Some("0.5.1"))]),
        package("criterion", "0.5.1", Vec::new()),
    ]);

    assert_eq!(
        cargo_lock.resolve_dependency_version("criterion", "=0.5.1"),
        Some("0.5.1".to_string())
    );
    assert_eq!(
        cargo_lock.resolve_dependency_version("criterion", "0.5"),
        Some("0.5.1".to_string())
    );
}

#[test]
fn exact_version_requirements_are_recognised() {
    assert_eq!(exact_crates_io_version(" = 1.2.3 "), Some("1.2.3".to_string()));
    assert_eq!(exact_crates_io_version("1.2.3"), Some("1.2.3".to_string()));
    assert_eq!(exact_crates_io_version("^1.2"), None);
    assert_eq!(exact_crates_io_version(""), None);
}

#[test]
fn lockfile_is_read_from_its_package_array() {
    let document = table(vec![(
        "package",
        Value::Array {
            values: vec![
                table(vec![
                    ("name", string("demo")),
                    ("version", string("0.1.0")),
                    (
                        "dependencies",
                        Value::Array {
                            values: vec![string("serde 1.0.228"), string("tokio")],
                            range: at(0, 0),
                        },
                    ),
                ]),
                table(vec![("name", string("broken"))]),
                table(vec![("name", string("serde")), ("version", string("1.0.228"))]),
            ],
            range: at(0, 0),
        },
    )]);
    let cargo_lock = CargoLock::from_document_tree(&document).unwrap();
    assert_eq!(cargo_lock.packages().len(), 2);
    assert_eq!(cargo_lock.packages()[0].dependencies.len(), 2);
    assert_eq!(
        cargo_lock.unique_dependency_version("serde"),
        Some("1.0.228".to_string())
    );
    assert!(CargoLock::from_document_tree(&table(vec![])).is_none());
}

#[test]
fn cache_keys_name_the_lockfile() {
    assert_eq!(
        cargo_lock_cache_key("/work/Cargo.lock"),
        "tombi-toml/cargo:cargo_lock:/work/Cargo.lock"
    );
    assert_eq!(
        tombi_ext::inlay::cargo_lock_cache_key("/work/Cargo.lock"),
        "tombi-toml/cargo:inlay_hint.lockfile:/work/Cargo.lock"
    );
}

#[test]
fn test_code_action_refactor_rewrite_name_display() {
    assert_eq!(
        CodeActionRefactorRewriteName::AddToWorkspaceAndInheritDependency.to_string(),
        "Add to Workspace and Inherit Dependency"
    );
}

#[test]
fn code_action_test_code_action_refactor_rewrite_name_display() {
    assert_eq!(
        PyCodeActionRefactorRewriteName::UseWorkspaceDependency.to_string(),
        "Use Workspace Dependency"
    );
    assert_eq!(
        PyCodeActionRefactorRewriteName::AddToWorkspaceAndUseWorkspaceDependency.to_string(),
        "Add to Workspace and Use Workspace Dependency"
    );
}

#[test]
fn cargo_code_action_titles() {
    assert_eq!(CodeActionRefactorRewriteName::InheritFromWorkspace.to_string(), "Inherit from Workspace");
    assert_eq!(
        CodeActionRefactorRewriteName::InheritDependencyFromWorkspace.to_string(),
        "Inherit Dependency from Workspace"
    );
    assert_eq!(
        CodeActionRefactorRewriteName::ConvertDependencyToTableFormat.to_string(),
        "Convert Dependency to Table Format"
    );
}

#[test]
fn renders_inherited_dependency_text() {
    let features = vec!["derive".to_string(), "rc".to_string()];
    assert_eq!(render_feature_values(&features), r#"["derive", "rc"]"#);
    assert_eq!(render_feature_values(&[]), "[]");
    assert_eq!(
        render_inherited_dependency_string("serde", &[]),
        "serde = { workspace = true }"
    );
    assert_eq!(
        render_inherited_dependency_string("serde", &features),
        r#"serde = { workspace = true, features = ["derive", "rc"] }"#
    );
    assert_eq!(
        render_inherited_dependency_table_version(None, &features),
        "workspace = true\nfeatures = [\"derive\", \"rc\"]"
    );
    assert_eq!(
        render_inherited_dependency_table_version(Some(()), &features),
        "workspace = true"
    );
    assert_eq!(render_inherited_dependency_table_version(None, &[]), "workspace = true");
}

#[test]
fn adds_plain_version_label() {
    assert_eq!(
        version_hint_label(Some("0.15.6"), "0.15.8", false),
        Some(r#" → "0.15.8""#.to_string())
    );
}

#[test]
fn omits_hint_when_version_is_already_resolved() {
    assert_eq!(version_hint_label(Some("0.15.8"), "0.15.8", false), None);
}

#[test]
fn keeps_plain_version_when_current_version_is_missing() {
    assert_eq!(
        version_hint_label(None, "0.15.8", false),
        Some(r#" → "0.15.8""#.to_string())
    );
}

#[test]
fn keeps_hint_for_workspace_inheritance_even_when_versions_match() {
    assert_eq!(
        version_hint_label(Some("0.15.8"), "0.15.8", true),
        Some(r#" → "0.15.8""#.to_string())
    );
}

fn features(cargo_toml: Option<bool>, workspace: Option<bool>, git: Option<bool>, path: Option<bool>, crates_io: Option<bool>) -> DocumentLinkFeatures {
    DocumentLinkFeatures {
        cargo_toml,
        workspace,
        git,
        path,
        crates_io,
    }
}

#[test]
fn path_dependency_key_link_is_hidden_when_cargo_toml_disabled() {
    let features = features(Some(false), Some(true), None, Some(true), None);

    let tooltip = dependency_key_tooltip("Open Path File", Some(&features));

    assert!(tooltip.is_none());
}

#[test]
fn path_dependency_key_link_opens_cargo_toml_when_enabled() {
    let features = features(Some(true), None, None, Some(false), None);
    assert_eq!(
        dependency_key_tooltip("Open Path File", Some(&features)).as_deref(),
        Some("Open Cargo.toml")
    );
    assert_eq!(
        dependency_key_tooltip("Open crate.io", None).as_deref(),
        Some("Open crate.io")
    );
}

#[test]
fn default_features_disable_cargo_toml_document_link() {
    let features = DocumentLinkFeatures::default();
    assert!(!cargo_toml_document_link_enabled(Some(&features)));
}

#[test]
fn default_features_disable_git_document_link() {
    let features = DocumentLinkFeatures::default();
    assert!(!git_document_link_enabled(Some(&features)));
}

#[test]
fn default_features_disable_path_document_link() {
    let features = DocumentLinkFeatures::default();
    assert!(!path_document_link_enabled(Some(&features)));
}

#[test]
fn default_features_disable_workspace_document_link() {
    let features = DocumentLinkFeatures::default();
    assert!(!workspace_document_link_enabled(Some(&features)));
}

#[test]
fn default_features_keep_crates_io_document_link_enabled() {
    let features = DocumentLinkFeatures::default();
    assert!(crates_io_document_link_enabled(Some(&features)));
}

#[test]
fn git_document_link_disabled_by_setting() {
    let features = features(None, None, Some(false), None, None);
    assert!(!git_document_link_enabled(Some(&features)));
}

#[test]
fn workspace_document_link_uses_independent_setting() {
    let features = features(None, Some(false), None, None, None);
    assert!(!workspace_document_link_enabled(Some(&features)));
    let features = self::features(Some(false), Some(true), None, None, None);
    assert!(workspace_document_link_enabled(Some(&features)));
    assert!(!cargo_toml_document_link_enabled(Some(&features)));
}

#[test]
fn tooltips_read_as_their_text() {
    assert!(tooltip_matches("Open Path File", DocumentLinkToolTip::PathFile));
    assert!(!tooltip_matches("Open Path File", DocumentLinkToolTip::CargoToml));
    assert_eq!(DocumentLinkToolTip::CrateIo.to_string(), "Open crate.io");
    assert_eq!(
        DocumentLinkToolTip::CargoTomlFirstMember.as_str(),
        "Open first Cargo.toml in members"
    );
    assert_eq!(
        tombi_ext::tombi_document_link::DocumentLinkToolTip::Catalog.to_string(),
        "Open JSON Schema Catalog"
    );
    assert_eq!(
        tombi_ext::tombi_document_link::DocumentLinkToolTip::Schema.as_str(),
        "Open JSON Schema"
    );
}

#[test]
fn dependency_links_follow_the_entry() {
    let local = table(vec![("path", string("../member"))]);
    let renamed = table(vec![("package", string("serde_json")), ("version", string("1"))]);
    assert!(dependency_uses_local_path(&local));
    assert!(!dependency_uses_local_path(&renamed));
    assert_eq!(dependency_table_tooltip(&local), DocumentLinkToolTip::PathFile);
    assert_eq!(dependency_table_tooltip(&renamed), DocumentLinkToolTip::CargoToml);
    assert_eq!(
        crates_io_crate_url("json", &renamed),
        "https://crates.io/crates/serde_json"
    );
    assert_eq!(
        crates_io_crate_url("serde", &string("1.0")),
        "https://crates.io/crates/serde"
    );
}
