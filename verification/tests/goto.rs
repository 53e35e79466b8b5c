use tombi_ext::accessor::Accessor;
use tombi_ext::cargo_goto::{
    crate_manifest_goto, get_current_declaration, goto_definition_for_feature_key, goto_definition_for_optional_dependency,
    goto_definition_for_package_name, goto_dependency_crates, member_crate_locations, package_name_location,
    package_name_reference_locations, path_string_at,
    workspace_manifest_goto, CrateManifestGoto, DefinitionLocation, WorkspaceManifestGoto,
};
use tombi_ext::document::{Key, Position, Range, TableKind, Value};

fn r(line: u32, start: u32, end: u32) -> Range {
    Range::new(Position::new(line, start), Position::new(line, end))
}

fn key(name: &str, line: u32) -> Key {
    Key {
        value: name.to_string(),
        range: r(line, 0, name.len() as u32),
    }
}

fn s(value: &str, line: u32, column: u32) -> Value {
    Value::String {
        value: value.to_string(),
        range: r(line, column, column + value.len() as u32 + 2),
    }
}

fn b(value: bool, line: u32, column: u32) -> Value {
    Value::Boolean {
        value,
        range: r(line, column, column + 4),
    }
}

fn t(line: u32, entries: Vec<(Key, Value)>) -> Value {
    Value::Table {
        entries,
        range: r(line, 0, 80),
        kind: TableKind::Table,
    }
}

fn k(name: &str) -> Accessor {
    Accessor::Key(name.to_string())
}

fn package(name: &str, line: u32) -> Value {
    t(0, vec![(key("package", line), t(line, vec![(key("name", line), s(name, line, 7))]))])
}

fn inside(range: Range) -> Range {
    Range::new(
        Position::new(range.start.line, range.start.column + 1),
        Position::new(range.end.line, range.end.column - 1),
    )
}

#[test]
fn package_name_location_is_the_name_text() {
    let location = package_name_location("/a/Cargo.toml", &package("a", 3)).unwrap();
    assert_eq!(location.path, "/a/Cargo.toml");
    assert_eq!(location.range, inside(r(3, 7, 10)));
    assert!(package_name_location("/a/Cargo.toml", &t(0, vec![])).is_none());
}

#[test]
fn member_crate_locations_skip_nameless_manifests() {
    let found = vec![
        ("/w/a/Cargo.toml".to_string(), package("a", 2)),
        ("/w/x/Cargo.toml".to_string(), t(0, vec![])),
        ("/w/b/Cargo.toml".to_string(), package("b", 5)),
    ];
    let locations = member_crate_locations(&found);
    assert_eq!(locations.len(), 2);
    assert_eq!(locations[1].path, "/w/b/Cargo.toml");
}

#[test]
fn path_dependency_goes_to_its_package() {
    let document = t(
        0,
        vec![(key("dependencies", 1), t(1, vec![(key("util", 2), t(2, vec![(key("path", 2), s("../util", 2, 15))]))]))],
    );
    let util = package("util", 4);
    let accessors = vec![k("dependencies"), k("util")];
    let locations = goto_dependency_crates(&document, &accessors, Some(("/util/Cargo.toml", &util)), vec![], &[]);
    assert_eq!(
        locations,
        vec![DefinitionLocation {
            path: "/util/Cargo.toml".to_string(),
            range: inside(r(4, 7, 13)),
        }]
    );
    assert!(goto_dependency_crates(&document, &accessors, None, vec![], &[]).is_empty());
    assert!(goto_dependency_crates(&document, &[k("dependencies"), Accessor::Index(0)], None, vec![], &[]).is_empty());
}

#[test]
fn inherited_dependency_goes_where_the_flag_leads() {
    let document = t(
        0,
        vec![(key("dependencies", 1), t(1, vec![(key("serde", 2), t(2, vec![(key("workspace", 2), b(true, 2, 20))]))]))],
    );
    let inherited = vec![DefinitionLocation {
        path: "/w/Cargo.toml".to_string(),
        range: r(9, 0, 5),
    }];
    let locations = goto_dependency_crates(&document, &[k("dependencies"), k("serde")], None, inherited.clone(), &[]);
    assert_eq!(locations, inherited);
}

#[test]
fn workspace_dependency_goes_to_member_usages() {
    let workspace = t(
        0,
        vec![
            (key("workspace", 1), t(1, vec![(key("dependencies", 2), t(2, vec![(key("serde", 3), s("1", 3, 8))]))])),
            (key("target", 4), t(4, vec![(key("cfg(unix)", 5), t(5, vec![(key("dependencies", 6), t(6, vec![(key("serde", 7), s("1", 7, 8))]))]))])),
        ],
    );
    let member = t(
        0,
        vec![
            (key("package", 1), t(1, vec![(key("name", 1), s("app", 1, 7))])),
            (key("dev-dependencies", 8), t(8, vec![(key("serde", 9), t(9, vec![(key("workspace", 9), b(true, 9, 20))]))])),
        ],
    );
    let members = vec![("/w/app/Cargo.toml".to_string(), member), ("/w/x/Cargo.toml".to_string(), t(0, vec![]))];
    let accessors = vec![k("workspace"), k("dependencies"), k("serde")];
    let locations = goto_dependency_crates(&workspace, &accessors, None, vec![], &members);
    assert_eq!(
        locations,
        vec![
            DefinitionLocation {
                path: "/w/app/Cargo.toml".to_string(),
                range: key("serde", 9).range,
            },
            DefinitionLocation {
                path: "/w/app/Cargo.toml".to_string(),
                range: key("serde", 7).range,
            },
        ]
    );
}

#[test]
fn goto_routes_follow_the_path_shape() {
    assert_eq!(workspace_manifest_goto(&[k("workspace"), k("dependencies"), k("serde")]), WorkspaceManifestGoto::DependencyCrates);
    assert_eq!(
        workspace_manifest_goto(&[k("workspace"), k("dependencies"), k("serde"), k("path")]),
        WorkspaceManifestGoto::CratePackage
    );
    assert_eq!(workspace_manifest_goto(&[k("workspace"), k("members"), Accessor::Index(0)]), WorkspaceManifestGoto::MemberCrates);
    assert_eq!(workspace_manifest_goto(&[k("workspace"), k("default-members")]), WorkspaceManifestGoto::DefaultMemberCrates);
    assert_eq!(workspace_manifest_goto(&[k("package"), k("name")]), WorkspaceManifestGoto::Nothing);

    assert_eq!(crate_manifest_goto(&[k("dependencies"), k("serde")]), CrateManifestGoto::DependencyCrates);
    assert_eq!(
        crate_manifest_goto(&[k("target"), k("cfg(unix)"), k("dependencies"), k("libc")]),
        CrateManifestGoto::DependencyCrates
    );
    assert_eq!(crate_manifest_goto(&[k("package"), k("edition"), k("workspace")]), CrateManifestGoto::Workspace);
    assert_eq!(crate_manifest_goto(&[k("dependencies"), k("util"), k("path")]), CrateManifestGoto::CratePackage);
    assert_eq!(crate_manifest_goto(&[k("bin"), Accessor::Index(0), k("path")]), CrateManifestGoto::BinPath);
    assert_eq!(crate_manifest_goto(&[k("lib")]), CrateManifestGoto::Nothing);
}

#[test]
fn path_strings_are_read_at_the_path() {
    let document = t(0, vec![(key("bin", 1), Value::Array { values: vec![t(2, vec![(key("path", 2), s("src/main.rs", 2, 8))])], range: r(1, 0, 40) })]);
    assert_eq!(path_string_at(&document, &[k("bin"), Accessor::Index(0), k("path")]).unwrap(), "src/main.rs");
    assert!(path_string_at(&document, &[k("bin"), Accessor::Index(1), k("path")]).is_none());
}

#[test]
fn package_name_references_cover_workspace_and_members() {
    let document = package("util", 1);
    let workspace = t(
        0,
        vec![(
            key("workspace", 1),
            t(
                1,
                vec![(
                    key("dependencies", 2),
                    t(
                        2,
                        vec![
                            (key("util", 3), t(3, vec![(key("path", 3), s("crates/util", 3, 15))])),
                            (key("renamed", 4), t(4, vec![(key("package", 4), s("util", 4, 20))])),
                            (key("serde", 5), s("1", 5, 8)),
                        ],
                    ),
                )],
            ),
        )],
    );
    let member = t(
        0,
        vec![
            (key("package", 1), t(1, vec![(key("name", 1), s("app", 1, 7))])),
            (key("dependencies", 6), t(6, vec![(key("util", 7), t(7, vec![(key("workspace", 7), b(true, 7, 20))]))])),
            (
                key("target", 8),
                t(8, vec![(key("cfg(unix)", 9), t(9, vec![(key("dev-dependencies", 10), t(10, vec![(key("util", 11), s("0.1", 11, 8))]))]))]),
            ),
        ],
    );
    let members = vec![("/w/app/Cargo.toml".to_string(), member), ("/w/x/Cargo.toml".to_string(), t(0, vec![]))];
    let locations = package_name_reference_locations(&document, Some(("/w/Cargo.toml", &workspace)), &members);
    assert_eq!(
        locations,
        vec![
            DefinitionLocation { path: "/w/Cargo.toml".to_string(), range: key("util", 3).range },
            DefinitionLocation { path: "/w/Cargo.toml".to_string(), range: key("renamed", 4).range },
            DefinitionLocation { path: "/w/app/Cargo.toml".to_string(), range: key("util", 7).range },
            DefinitionLocation { path: "/w/app/Cargo.toml".to_string(), range: key("util", 11).range },
        ]
    );
    assert!(package_name_reference_locations(&document, None, &members).is_empty());
}

fn manifest_with_features() -> Value {
    t(
        0,
        vec![
            (key("package", 1), t(1, vec![(key("name", 1), s("app", 1, 7))])),
            (key("features", 2), t(2, vec![(key("std", 3), Value::Array { values: vec![], range: r(3, 6, 8) })])),
            (
                key("dependencies", 4),
                t(
                    4,
                    vec![
                        (key("log", 5), t(5, vec![(key("optional", 5), b(true, 5, 20))])),
                        (key("serde", 6), t(6, vec![(key("optional", 6), b(false, 6, 20))])),
                    ],
                ),
            ),
        ],
    )
}

#[test]
fn current_document_definitions() {
    let document = manifest_with_features();
    assert_eq!(goto_definition_for_package_name(&document), Some(inside(r(1, 7, 12))));
    assert_eq!(goto_definition_for_feature_key(&document, &[k("features"), k("std")]), Some(key("std", 3).range));
    assert_eq!(goto_definition_for_feature_key(&document, &[k("features"), k("alloc")]), None);
    assert_eq!(
        goto_definition_for_optional_dependency(&document, &[k("dependencies"), k("log"), k("optional")]),
        Some(key("log", 5).range)
    );
    assert_eq!(goto_definition_for_optional_dependency(&document, &[k("dependencies"), Accessor::Index(0), k("optional")]), None);
}

#[test]
fn current_declarations_are_features_and_optional_dependencies() {
    let document = manifest_with_features();
    assert_eq!(get_current_declaration(&document, &[k("features"), k("std")]), Some(key("std", 3).range));
    assert_eq!(
        get_current_declaration(&document, &[k("dependencies"), k("log"), k("optional")]),
        Some(key("log", 5).range)
    );
    assert_eq!(get_current_declaration(&document, &[k("dependencies"), k("serde"), k("optional")]), None);
    assert_eq!(get_current_declaration(&document, &[k("package"), k("name")]), None);
}
