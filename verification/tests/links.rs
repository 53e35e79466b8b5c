use tombi_ext::cargo_document_link::{
    cargo_toml_document_link_enabled, DocumentLinkFeatures, DocumentLinkToolTip,
};
use tombi_ext::dependency_link::{
    collect_total_dependencies, document_link_for_bin_targets,
    document_link_for_crate_dependency_has_workspace, document_link_for_dependency,
    document_link_for_workspace_dependency, get_registries, workspace_document_links,
    DocumentLink, LinkTarget,
};
use tombi_ext::document::{TableKind, Key, Position, Range, Value};

fn r(line: u32, start: u32, end: u32) -> Range {
    Range::new(Position::new(line, start), Position::new(line, end))
}

fn key(name: &str, line: u32) -> Key {
    Key {
        value: name.to_string(),
        range: r(line, 0, name.len() as u32),
    }
}

fn s(value: &str, line: u32, column: u32) -> Value {
    Value::String {
        value: value.to_string(),
        range: r(line, column, column + value.len() as u32 + 2),
    }
}

fn b(value: bool, line: u32, column: u32) -> Value {
    Value::Boolean {
        value,
        range: r(line, column, column + if value { 4 } else { 5 }),
    }
}

fn t(line: u32, entries: Vec<(Key, Value)>) -> Value {
    Value::Table {
        entries,
        range: r(line, 0, 80),
        kind: TableKind::Table,
    }
}

fn features(cargo_toml: Option<bool>, workspace: Option<bool>, git: Option<bool>, path: Option<bool>, crates_io: Option<bool>) -> DocumentLinkFeatures {
    DocumentLinkFeatures {
        cargo_toml,
        workspace,
        git,
        path,
        crates_io,
    }
}

fn disabled_path_link_features() -> DocumentLinkFeatures {
    features(Some(true), None, None, Some(false), None)
}

fn disabled_cargo_toml_link_features() -> DocumentLinkFeatures {
    features(Some(false), Some(true), None, Some(true), None)
}

fn member_manifest(name: &str) -> Value {
    t(0, vec![(key("package", 1), t(1, vec![(key("name", 2), s(name, 2, 7)), (key("version", 3), s("0.1.0", 3, 10))]))])
}

#[test]
fn feature_document_link_allows_same_file_when_path_links_disabled() {
    let features = disabled_path_link_features();

    assert!(cargo_toml_document_link_enabled(Some(&features)));
}

#[test]
fn feature_document_link_allows_cross_file_when_path_links_disabled() {
    let features = disabled_path_link_features();

    assert!(cargo_toml_document_link_enabled(Some(&features),));
}

#[test]
fn path_dependency_uses_path_setting_instead_of_cargo_toml_setting() {
    // [dependencies]
    // member = { path = "member" }
    let crate_key = key("member", 7);
    let crate_value = t(7, vec![(key("path", 7), s("member", 7, 18))]);
    let target = member_manifest("member");
    let features = disabled_cargo_toml_link_features();

    let document_links = document_link_for_dependency(
        &crate_key,
        &crate_value,
        Some(("/tmp/app/member/Cargo.toml", &target)),
        &[],
        Some(&features),
    );

    assert_eq!(document_links.len(), 1);
    assert_eq!(document_links[0].tooltip.as_str(), "Open Path File");
    assert_eq!(
        document_links[0].target,
        LinkTarget::ManifestLine {
            path: "/tmp/app/member/Cargo.toml".to_string(),
            line: 3
        }
    );
    assert_eq!(document_links[0].range, r(7, 19, 25));
}

#[test]
fn path_dependency_skips_cargo_toml_links_when_path_disabled() {
    let crate_key = key("member", 7);
    let crate_value = t(7, vec![(key("path", 7), s("member", 7, 18))]);
    let target = member_manifest("member");
    let features = disabled_path_link_features();

    let document_links = document_link_for_dependency(
        &crate_key,
        &crate_value,
        Some(("/tmp/app/member/Cargo.toml", &target)),
        &[],
        Some(&features),
    );

    assert!(document_links.is_empty());
}

#[test]
fn path_dependency_needs_a_matching_package_name() {
    let crate_key = key("member", 7);
    let crate_value = t(7, vec![(key("path", 7), s("member", 7, 18))]);
    let other = member_manifest("other");
    let all_on = features(Some(true), Some(true), Some(true), Some(true), Some(true));
    assert!(document_link_for_dependency(&crate_key, &crate_value, Some(("/m/Cargo.toml", &other)), &[], Some(&all_on)).is_empty());
    assert!(document_link_for_dependency(&crate_key, &crate_value, None, &[], Some(&all_on)).is_empty());
    // A renamed dependency is linked where the rename is its own key.
    let renamed = t(7, vec![(key("path", 7), s("member", 7, 18)), (key("package", 7), s("member", 7, 40))]);
    let links = document_link_for_dependency(&crate_key, &renamed, Some(("/m/Cargo.toml", &other)), &[], Some(&all_on));
    assert_eq!(links.len(), 1);
}

#[test]
fn git_and_registry_links_follow_their_settings() {
    let config = t(0, vec![(
        key("registries", 0),
        t(0, vec![
            (key("mine", 1), t(1, vec![(key("index", 1), s("https://example.com/index", 1, 10))])),
            (key("broken", 2), t(2, vec![(key("url", 2), s("x", 2, 10))])),
        ]),
    )]);
    let registries = get_registries(&config);
    assert_eq!(registries, vec![("mine".to_string(), "https://example.com/index".to_string())]);

    let crate_key = key("tool", 5);
    let crate_value = t(5, vec![
        (key("git", 5), s("https://github.com/a/tool", 5, 14)),
        (key("registry", 5), s("mine", 5, 50)),
        (key("package", 5), s("real-tool", 5, 70)),
    ]);
    let on = features(None, None, Some(true), None, None);
    let links = document_link_for_dependency(&crate_key, &crate_value, None, &registries, Some(&on));
    assert_eq!(links.len(), 2);
    assert_eq!(links[0].target, LinkTarget::Git("https://github.com/a/tool".to_string()));
    assert_eq!(links[0].tooltip, DocumentLinkToolTip::GitRepository);
    assert_eq!(links[0].range, r(5, 15, 40));
    assert_eq!(links[1].target, LinkTarget::Url("https://example.com/index/real-tool".to_string()));
    assert_eq!(links[1].tooltip, DocumentLinkToolTip::CrateIo);

    let off = features(None, None, None, None, Some(false));
    assert!(document_link_for_dependency(&crate_key, &crate_value, None, &registries, Some(&off)).is_empty());
    assert!(document_link_for_dependency(&crate_key, &s("1.0", 5, 7), None, &registries, Some(&on)).is_empty());
}

#[test]
fn workspace_dependency_links_fall_back_to_crates_io() {
    let crate_key = key("serde", 3);
    let links = document_link_for_workspace_dependency(&crate_key, &s("1.0", 3, 8), None, &[], None);
    assert_eq!(
        links,
        vec![DocumentLink {
            target: LinkTarget::Url("https://crates.io/crates/serde".to_string()),
            range: crate_key.range,
            tooltip: DocumentLinkToolTip::CrateIo,
        }]
    );
    let local = t(3, vec![(key("path", 3), s("crates/serde", 3, 16))]);
    assert!(document_link_for_workspace_dependency(&crate_key, &local, None, &[], None).is_empty());

    // A path dependency's link is repeated on its key as a link to its Cargo.toml.
    let target = member_manifest("serde");
    let on = features(Some(true), None, None, Some(true), None);
    let links = document_link_for_workspace_dependency(&crate_key, &local, Some(("/w/crates/serde/Cargo.toml", &target)), &[], Some(&on));
    assert_eq!(links.len(), 2);
    assert_eq!(links[0].tooltip, DocumentLinkToolTip::CargoToml);
    assert_eq!(links[0].range, crate_key.range);
    assert_eq!(links[1].tooltip, DocumentLinkToolTip::PathFile);
    assert_eq!(links[0].target, links[1].target);
}

#[test]
fn inherited_dependency_links_to_the_workspace_entry() {
    // member: serde = { workspace = true }
    let crate_key = key("serde", 8);
    let crate_value = t(8, vec![(key("workspace", 8), b(true, 8, 22))]);
    // workspace: [workspace.dependencies] serde = "1.0" (line 12)
    let workspace_dependencies = t(11, vec![(key("serde", 12), s("1.0", 12, 8))]);
    let on = features(Some(true), Some(true), None, None, None);
    let links = document_link_for_crate_dependency_has_workspace(
        &crate_key,
        &crate_value,
        None,
        Some(&workspace_dependencies),
        "/w/Cargo.toml",
        None,
        &[],
        Some(&on),
    );
    assert_eq!(links.len(), 2);
    assert_eq!(links[0].target, LinkTarget::Url("https://crates.io/crates/serde".to_string()));
    assert_eq!(links[0].tooltip, DocumentLinkToolTip::CrateIo);
    assert_eq!(
        links[1],
        DocumentLink {
            target: LinkTarget::ManifestLine {
                path: "/w/Cargo.toml".to_string(),
                line: 13
            },
            range: r(8, 0, 26),
            tooltip: DocumentLinkToolTip::WorkspaceCargoToml,
        }
    );

    // Without `workspace = true` the dependency links to crates.io.
    let plain = t(8, vec![(key("version", 8), s("1", 8, 18))]);
    let links = document_link_for_crate_dependency_has_workspace(&crate_key, &plain, None, Some(&workspace_dependencies), "/w/Cargo.toml", None, &[], Some(&on));
    assert_eq!(links.len(), 1);
    assert_eq!(links[0].tooltip, DocumentLinkToolTip::CrateIo);

    // A workspace path dependency opens the member's Cargo.toml, titled after the member's table.
    let local = t(11, vec![(key("serde", 12), t(12, vec![(key("path", 12), s("crates/serde", 12, 16))]))]);
    let target = member_manifest("serde");
    let links = document_link_for_crate_dependency_has_workspace(
        &crate_key,
        &crate_value,
        None,
        Some(&local),
        "/w/Cargo.toml",
        Some(("/w/crates/serde/Cargo.toml", &target)),
        &[],
        Some(&on),
    );
    assert_eq!(links.len(), 2);
    assert_eq!(
        links[0],
        DocumentLink {
            target: LinkTarget::ManifestLine {
                path: "/w/crates/serde/Cargo.toml".to_string(),
                line: 3
            },
            range: crate_key.range,
            tooltip: DocumentLinkToolTip::CargoToml,
        }
    );
    assert_eq!(links[1].tooltip, DocumentLinkToolTip::WorkspaceCargoToml);
}

#[test]
fn member_manifest_links_to_inherited_fields() {
    let member = t(0, vec![
        (key("package", 1), t(1, vec![
            (key("workspace", 2), s("../..", 2, 12)),
            (key("version", 3), t(3, vec![(key("workspace", 3), b(true, 3, 18))])),
            (key("edition", 4), t(4, vec![(key("workspace", 4), b(true, 4, 18))])),
        ])),
        (key("lints", 6), t(6, vec![(key("workspace", 7), b(true, 7, 12))])),
    ]);
    let workspace = t(0, vec![(
        key("workspace", 0),
        t(0, vec![
            (key("package", 1), t(1, vec![(key("version", 2), s("1.0.0", 2, 10))])),
            (key("lints", 9), t(9, vec![])),
        ]),
    )]);
    let on = features(Some(true), Some(true), None, None, None);
    let links = workspace_document_links(&member, &workspace, "/w/Cargo.toml", Some(&on));
    assert_eq!(links.len(), 3);
    assert_eq!(links[0].target, LinkTarget::Manifest("/w/Cargo.toml".to_string()));
    assert_eq!(links[0].range, r(2, 13, 18));
    assert_eq!(
        links[1].target,
        LinkTarget::ManifestLine {
            path: "/w/Cargo.toml".to_string(),
            line: 3
        }
    );
    assert_eq!(links[1].range, r(3, 0, 22));
    assert_eq!(
        links[2].target,
        LinkTarget::ManifestLine {
            path: "/w/Cargo.toml".to_string(),
            line: 10
        }
    );
    assert!(workspace_document_links(&member, &workspace, "/w/Cargo.toml", None).is_empty());
}

#[test]
fn bin_targets_link_to_their_files() {
    let document = t(0, vec![(
        key("bin", 1),
        Value::Array {
            values: vec![
                t(2, vec![(key("path", 2), s("src/bin/a.rs", 2, 7))]),
                t(3, vec![(key("name", 3), s("b", 3, 7))]),
                s("not a table", 4, 0),
            ],
            range: r(1, 0, 10),
        },
    )]);
    let links = document_link_for_bin_targets(&document);
    assert_eq!(
        links,
        vec![DocumentLink {
            target: LinkTarget::RelativeFile("src/bin/a.rs".to_string()),
            range: r(2, 8, 20),
            tooltip: DocumentLinkToolTip::PathFile,
        }]
    );
}

#[test]
fn total_dependencies_cover_every_kind_and_platform() {
    let document = t(0, vec![
        (key("dependencies", 1), t(1, vec![(key("a", 2), s("1", 2, 4))])),
        (key("target", 3), t(3, vec![(
            key("cfg(unix)", 3),
            t(3, vec![
                (key("dependencies", 4), t(4, vec![(key("b", 5), s("1", 5, 4))])),
                (key("build-dependencies", 6), t(6, vec![(key("c", 7), s("1", 7, 4))])),
            ]),
        )])),
        (key("dev-dependencies", 8), t(8, vec![(key("d", 9), s("1", 9, 4))])),
    ]);
    let names: Vec<String> = collect_total_dependencies(&document)
        .into_iter()
        .map(|(k, _)| k.value.clone())
        .collect();
    assert_eq!(names, vec!["a", "b", "d", "c"]);
}
