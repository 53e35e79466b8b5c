use tombi_ext::cargo_document_link::{DocumentLinkFeatures, DocumentLinkToolTip};
use tombi_ext::dependency_link::{collect_total_dependencies, document_link_for_crate_cargo_toml, DocumentLink, LinkTarget};
use tombi_ext::document::{Key, Position, Range, TableKind, Value};
use tombi_ext::feature_link::{
    document_link_for_crate_dependency_features, document_link_for_feature_table_strings,
    document_link_for_workspace_dependency_features, DependencyManifest,
};
use tombi_ext::workspace_link::{
    create_member_document_links, document_link_for_workspace_cargo_toml,
    document_link_for_workspace_dependencies, member_pattern_link, member_pattern_values,
};

fn r(line: u32, start: u32, end: u32) -> Range {
    Range::new(Position::new(line, start), Position::new(line, end))
}

fn key(name: &str, line: u32) -> Key {
    Key {
        value: name.to_string(),
        range: r(line, 0, name.len() as u32),
    }
}

fn s(value: &str, line: u32, column: u32) -> Value {
    Value::String {
        value: value.to_string(),
        range: r(line, column, column + value.len() as u32 + 2),
    }
}

fn b(value: bool, line: u32, column: u32) -> Value {
    Value::Boolean {
        value,
        range: r(line, column, column + if value { 4 } else { 5 }),
    }
}

fn t(line: u32, entries: Vec<(Key, Value)>) -> Value {
    Value::Table {
        entries,
        range: r(line, 0, 80),
        kind: TableKind::Table,
    }
}

fn a(line: u32, values: Vec<Value>) -> Value {
    Value::Array {
        values,
        range: r(line, 10, 70),
    }
}

fn all_on() -> DocumentLinkFeatures {
    DocumentLinkFeatures {
        cargo_toml: Some(true),
        workspace: Some(true),
        git: Some(true),
        path: Some(true),
        crates_io: Some(true),
    }
}

fn package_manifest(name: &str, name_line: u32) -> Value {
    t(0, vec![(key("package", 1), t(1, vec![(key("name", name_line), s(name, name_line, 7))]))])
}

fn manifest_line(path: &str, line: u64) -> LinkTarget {
    LinkTarget::ManifestLine {
        path: path.to_string(),
        line,
    }
}

fn inside(range: Range) -> Range {
    Range::new(
        Position::new(range.start.line, range.start.column + 1),
        Position::new(range.end.line, range.end.column - 1),
    )
}

#[test]
fn member_pattern_without_package_has_no_link() {
    let found = vec![("/w/a/Cargo.toml".to_string(), t(0, vec![]))];
    assert!(member_pattern_link(r(3, 10, 18), &found).is_empty());
    assert!(member_pattern_link(r(3, 10, 18), &[]).is_empty());
}

#[test]
fn member_pattern_with_one_package_links_to_its_name() {
    let found = vec![
        ("/w/x/Cargo.toml".to_string(), t(0, vec![])),
        ("/w/a/Cargo.toml".to_string(), package_manifest("a", 4)),
    ];
    let links = member_pattern_link(r(3, 10, 18), &found);
    assert_eq!(
        links,
        vec![DocumentLink {
            target: manifest_line("/w/a/Cargo.toml", 5),
            range: r(3, 11, 17),
            tooltip: DocumentLinkToolTip::CargoToml,
        }]
    );
}

#[test]
fn member_pattern_with_several_packages_links_to_the_first() {
    let found = vec![
        ("/w/a/Cargo.toml".to_string(), package_manifest("a", 2)),
        ("/w/b/Cargo.toml".to_string(), package_manifest("b", 7)),
    ];
    let links = member_pattern_link(r(3, 10, 18), &found);
    assert_eq!(
        links,
        vec![DocumentLink {
            target: manifest_line("/w/a/Cargo.toml", 3),
            range: r(3, 11, 17),
            tooltip: DocumentLinkToolTip::CargoTomlFirstMember,
        }]
    );
}

fn workspace_manifest() -> Value {
    t(
        0,
        vec![(
            key("workspace", 1),
            t(
                1,
                vec![
                    (key("members", 2), a(2, vec![s("crates/*", 2, 12), b(true, 2, 30)])),
                    (key("default-members", 3), a(3, vec![s("crates/a", 3, 20)])),
                    (
                        key("dependencies", 4),
                        t(
                            4,
                            vec![(
                                key("serde", 5),
                                t(5, vec![(key("git", 5), s("https://github.com/serde-rs/serde", 5, 16)), (key("features", 6), a(6, vec![s("derive", 6, 14)]))]),
                            )],
                        ),
                    ),
                ],
            ),
        )],
    )
}

#[test]
fn member_pattern_values_follow_the_array() {
    let document = workspace_manifest();
    assert_eq!(member_pattern_values(&document, "members"), vec![Some("crates/*".to_string()), None]);
    assert_eq!(member_pattern_values(&document, "default-members"), vec![Some("crates/a".to_string())]);
    assert!(member_pattern_values(&document, "exclude").is_empty());
}

#[test]
fn member_links_skip_values_that_are_no_strings() {
    let document = workspace_manifest();
    let found = vec![vec![("/w/crates/a/Cargo.toml".to_string(), package_manifest("a", 2))], vec![]];
    let links = create_member_document_links(&document, "members", &found);
    assert_eq!(links.len(), 1);
    assert_eq!(links[0].target, manifest_line("/w/crates/a/Cargo.toml", 3));
    assert_eq!(links[0].range, inside(r(2, 12, 22)));
}

#[test]
fn workspace_dependency_with_git_links_key_and_repository() {
    let document = workspace_manifest();
    let links = document_link_for_workspace_dependencies(&document, &[None], &[], Some(&all_on()));
    assert_eq!(links.len(), 2);
    assert_eq!(links[1].target, LinkTarget::Git("https://github.com/serde-rs/serde".to_string()));
    assert_eq!(links[1].tooltip, DocumentLinkToolTip::GitRepository);
    assert_eq!(links[0].range, key("serde", 5).range);
}

#[test]
fn workspace_manifest_links_dependencies_members_and_features() {
    let document = workspace_manifest();
    let serde_manifest = t(
        0,
        vec![(key("features", 10), t(10, vec![(key("derive", 12), a(12, vec![]))]))],
    );
    let manifests = vec![DependencyManifest {
        entry: vec!["workspace".to_string(), "dependencies".to_string(), "serde".to_string()],
        path: "/serde/Cargo.toml".to_string(),
        document: serde_manifest,
    }];
    let members = vec![vec![("/w/crates/a/Cargo.toml".to_string(), package_manifest("a", 2))], vec![]];
    let default_members = vec![vec![("/w/crates/a/Cargo.toml".to_string(), package_manifest("a", 2))]];
    let links = document_link_for_workspace_cargo_toml(&document, &[], &[None], &members, &default_members, &manifests, Some(&all_on()));
    assert_eq!(links.len(), 5);
    assert_eq!(links[2].tooltip, DocumentLinkToolTip::CargoToml);
    assert_eq!(links[3].range, inside(r(3, 20, 30)));
    assert_eq!(links[4].target, manifest_line("/serde/Cargo.toml", 13));
    assert_eq!(links[4].range, inside(r(6, 14, 22)));

    let off = DocumentLinkFeatures {
        cargo_toml: Some(false),
        workspace: None,
        git: Some(false),
        path: None,
        crates_io: Some(false),
    };
    assert!(document_link_for_workspace_cargo_toml(&document, &[], &[None], &members, &default_members, &manifests, Some(&off)).is_empty());
}

#[test]
fn workspace_dependency_features_need_manifest_links() {
    let document = workspace_manifest();
    let serde_manifest = t(0, vec![(key("features", 10), t(10, vec![(key("derive", 12), a(12, vec![]))]))]);
    let manifests = vec![DependencyManifest {
        entry: vec!["workspace".to_string(), "dependencies".to_string(), "serde".to_string()],
        path: "/serde/Cargo.toml".to_string(),
        document: serde_manifest,
    }];
    assert_eq!(document_link_for_workspace_dependency_features(&document, &manifests, Some(&all_on())).len(), 1);
    assert!(document_link_for_workspace_dependency_features(&document, &manifests, None).is_empty());
    assert!(document_link_for_workspace_dependency_features(&document, &[], Some(&all_on())).is_empty());
}

fn crate_manifest() -> Value {
    t(
        0,
        vec![
            (key("package", 1), t(1, vec![(key("name", 2), s("app", 2, 7))])),
            (
                key("features", 3),
                t(
                    3,
                    vec![
                        (key("default", 4), a(4, vec![s("std", 4, 12), s("dep:log", 4, 20), s("serde/derive", 4, 32), s("missing", 4, 50)])),
                        (key("std", 5), a(5, vec![])),
                    ],
                ),
            ),
            (
                key("dependencies", 6),
                t(
                    6,
                    vec![
                        (key("serde", 7), t(7, vec![(key("version", 7), s("1", 7, 20)), (key("features", 7), a(7, vec![s("derive", 7, 40), s("rc", 7, 50)]))])),
                        (key("log", 8), t(8, vec![(key("version", 8), s("0.4", 8, 20)), (key("optional", 8), b(true, 8, 40))])),
                        (key("util", 9), t(9, vec![(key("path", 9), s("../util", 9, 15))])),
                    ],
                ),
            ),
            (key("bin", 10), a(10, vec![t(11, vec![(key("path", 11), s("src/main.rs", 11, 8))])])),
        ],
    )
}

fn serde_manifests() -> Vec<DependencyManifest> {
    vec![DependencyManifest {
        entry: vec!["dependencies".to_string(), "serde".to_string()],
        path: "/serde/Cargo.toml".to_string(),
        document: t(0, vec![(key("features", 20), t(20, vec![(key("derive", 21), a(21, vec![]))]))]),
    }]
}

#[test]
fn feature_table_strings_link_local_and_dependency_features() {
    let document = crate_manifest();
    let links = document_link_for_feature_table_strings(&document, "/app/Cargo.toml", &serde_manifests(), Some(&all_on()));
    assert_eq!(
        links,
        vec![
            DocumentLink {
                target: manifest_line("/app/Cargo.toml", 6),
                range: inside(r(4, 12, 17)),
                tooltip: DocumentLinkToolTip::CargoToml,
            },
            DocumentLink {
                target: manifest_line("/serde/Cargo.toml", 22),
                range: inside(r(4, 32, 46)),
                tooltip: DocumentLinkToolTip::CargoToml,
            },
        ]
    );
    assert!(document_link_for_feature_table_strings(&document, "/app/Cargo.toml", &serde_manifests(), None).is_empty());
}

#[test]
fn dependency_features_link_to_the_dependency_manifest() {
    let document = crate_manifest();
    let links = document_link_for_crate_dependency_features(&document, &serde_manifests(), Some(&all_on()));
    assert_eq!(
        links,
        vec![DocumentLink {
            target: manifest_line("/serde/Cargo.toml", 22),
            range: inside(r(7, 40, 48)),
            tooltip: DocumentLinkToolTip::CargoToml,
        }]
    );
    assert!(document_link_for_crate_dependency_features(&document, &[], Some(&all_on())).is_empty());
}

#[test]
fn crate_manifest_links_dependencies_bins_and_features() {
    let document = crate_manifest();
    assert_eq!(collect_total_dependencies(&document).len(), 3);
    let targets = vec![None, None, Some(("/util/Cargo.toml".to_string(), package_manifest("util", 4)))];
    let none = vec![None, None, None];
    let links = document_link_for_crate_cargo_toml(
        &document,
        "/app/Cargo.toml",
        None,
        &[],
        &targets,
        &none,
        &serde_manifests(),
        Some(&all_on()),
    );
    assert_eq!(links.len(), 5);
    assert_eq!(links[0].target, manifest_line("/util/Cargo.toml", 5));
    assert_eq!(links[0].tooltip, DocumentLinkToolTip::PathFile);
    assert_eq!(links[1].target, LinkTarget::RelativeFile("src/main.rs".to_string()));
    assert_eq!(links[2].target, manifest_line("/app/Cargo.toml", 6));
    assert_eq!(links[4].range, inside(r(7, 40, 48)));

    let only_crates_io = DocumentLinkFeatures::default();
    assert!(document_link_for_crate_cargo_toml(&document, "/app/Cargo.toml", None, &[], &targets, &none, &serde_manifests(), Some(&only_crates_io)).is_empty());
}

#[test]
fn member_manifest_links_inherited_dependency_to_workspace_entry() {
    let document = t(
        0,
        vec![
            (key("package", 1), t(1, vec![(key("name", 2), s("app", 2, 7))])),
            (key("dependencies", 3), t(3, vec![(key("serde", 4), t(4, vec![(key("workspace", 4), b(true, 4, 20))]))])),
        ],
    );
    let workspace = workspace_manifest();
    let links = document_link_for_crate_cargo_toml(
        &document,
        "/w/app/Cargo.toml",
        Some(("/w/Cargo.toml", &workspace)),
        &[],
        &[None],
        &[None],
        &[],
        Some(&all_on()),
    );
    assert_eq!(links.len(), 2);
    assert_eq!(links[0].target, LinkTarget::Git("https://github.com/serde-rs/serde".to_string()));
    assert_eq!(links[1].target, manifest_line("/w/Cargo.toml", 6));
    assert_eq!(links[1].tooltip, DocumentLinkToolTip::WorkspaceCargoToml);
}
