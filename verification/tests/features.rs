use tombi_ext::accessor::Accessor;
use tombi_ext::cargo_code_action::{crate_version_code_action, workspace_code_action};
use tombi_ext::cargo_hover::{
    dependency_kind, get_dependency_accessors, is_hovering_dependency_key,
    is_unsupported_remote_dependency, package_metadata, HoverMetadata,
};
use tombi_ext::document::{TableKind, Key, Position, Range, Value};
use tombi_ext::py_did_open::{collect_pypi_prefetch_urls, has_source_override};
use tombi_ext::py_hover::{
    is_source_hover, pypi_metadata, remote_lookup_name, source_target, SourceTarget,
};
use tombi_ext::validate::{
    validate_offset_date_time, OffsetDateTimeCheck, SchemaValueType, ValueSchemaKind,
};

fn key(value: &str) -> Accessor {
    Accessor::Key(value.to_string())
}

fn r(line: u32, start: u32, end: u32) -> Range {
    Range::new(Position::new(line, start), Position::new(line, end))
}

fn entry(name: &str, key_range: Range, value: Value) -> (Key, Value) {
    (
        Key {
            value: name.to_string(),
            range: key_range,
        },
        value,
    )
}

fn table(entries: Vec<(Key, Value)>) -> Value {
    Value::Table {
        entries,
        range: r(0, 0, 0),
        kind: TableKind::Table,
    }
}

fn string(value: &str, range: Range) -> Value {
    Value::String {
        value: value.to_string(),
        range,
    }
}

#[test]
fn only_matches_exact_dependency_paths() {
    let dependency_accessors = [key("dependencies"), key("serde")];
    let nested_accessors = [key("dependencies"), key("serde"), key("version")];

    assert_eq!(get_dependency_accessors(&dependency_accessors), Some(&dependency_accessors[..]));
    assert_eq!(get_dependency_accessors(&nested_accessors), None);
}

#[test]
fn hovering_dependency_value_does_not_count_as_hovering_key() {
    let document_tree = table(vec![entry(
        "dependencies",
        r(0, 1, 13),
        table(vec![entry("serde", r(1, 0, 5), string("1.0", r(1, 8, 13)))]),
    )]);
    let dependency_accessors = [key("dependencies"), key("serde")];

    assert!(is_hovering_dependency_key(&document_tree, &dependency_accessors, Position::new(1, 2)));
    assert!(!is_hovering_dependency_key(&document_tree, &dependency_accessors, Position::new(1, 10)));
    assert!(!is_hovering_dependency_key(
        &document_tree,
        &[key("dependencies"), Accessor::Index(0)],
        Position::new(1, 2)
    ));
}

#[test]
fn hover_helpers() {
    let git = table(vec![entry("git", r(0, 0, 0), string("x", r(0, 0, 0)))]);
    assert!(is_unsupported_remote_dependency(&git));
    assert!(!is_unsupported_remote_dependency(&string("1", r(0, 0, 0))));
    assert_eq!(dependency_kind(&[key("workspace"), key("dependencies"), key("serde")]), Some("dependencies"));
    assert_eq!(
        dependency_kind(&[key("target"), key("x"), key("dev-dependencies"), key("serde")]),
        Some("dev-dependencies")
    );
    assert_eq!(dependency_kind(&[key("build-dependencies"), key("cc")]), Some("build-dependencies"));
    let manifest = table(vec![entry(
        "package",
        r(0, 0, 0),
        table(vec![entry("name", r(0, 0, 0), string("demo", r(0, 0, 0)))]),
    )]);
    assert_eq!(
        package_metadata(&manifest),
        Some(HoverMetadata {
            title: Some("demo".to_string()),
            description: None
        })
    );
    assert_eq!(package_metadata(&table(vec![])), None);
}

#[test]
fn converts_version_strings_to_tables() {
    let document_tree = table(vec![entry(
        "dependencies",
        r(0, 1, 13),
        table(vec![entry("serde", r(1, 0, 5), string("1.0", r(1, 8, 13)))]),
    )]);
    let action = crate_version_code_action(&document_tree, &[key("dependencies"), key("serde")]).unwrap();
    assert_eq!(action.title, "Convert Dependency to Table Format");
    assert_eq!(action.edits.len(), 2);
    assert_eq!(action.edits[0].range, Range::at(Position::new(1, 8)));
    assert_eq!(action.edits[0].new_text, "{ version = ");
    assert_eq!(action.edits[1].range, Range::at(Position::new(1, 13)));
    assert_eq!(action.edits[1].new_text, " }");
    assert!(crate_version_code_action(&document_tree, &[key("package"), key("serde")]).is_none());
}

#[test]
fn inherits_package_fields_from_the_workspace() {
    let member = table(vec![entry(
        "package",
        r(0, 0, 9),
        table(vec![
            entry("version", r(2, 0, 7), string("1.0.0", r(2, 10, 17))),
            entry("edition", r(3, 0, 7), string("2021", r(3, 10, 16))),
        ]),
    )]);
    let workspace = table(vec![entry(
        "workspace",
        r(0, 0, 0),
        table(vec![entry(
            "package",
            r(0, 0, 0),
            table(vec![entry("version", r(0, 0, 0), string("1.0.0", r(0, 0, 0)))]),
        )]),
    )]);
    let action = workspace_code_action(
        &member,
        &[key("package"), key("version")],
        &[Some(r(0, 1, 8)), Some(r(2, 0, 7))],
        &workspace,
    )
    .unwrap();
    assert_eq!(action.title, "Inherit from Workspace");
    assert_eq!(action.edits[0].range, Range::new(Position::new(2, 0), Position::new(2, 17)));
    assert_eq!(action.edits[0].new_text, "version.workspace = true");
    assert!(workspace_code_action(
        &member,
        &[key("package"), key("edition")],
        &[Some(r(0, 1, 8)), Some(r(3, 0, 7))],
        &workspace,
    )
    .is_none());
    assert!(workspace_code_action(&member, &[key("package"), key("name")], &[None, None], &workspace).is_none());
}

#[test]
fn offset_date_time_checks() {
    let listed = (
        SchemaValueType::OffsetDateTime,
        ValueSchemaKind::OffsetDateTime {
            enumerate: Some(vec!["1979-05-27T07:32:00Z".to_string()]),
        },
    );
    assert_eq!(validate_offset_date_time(None, "x"), OffsetDateTimeCheck::Valid);
    assert_eq!(validate_offset_date_time(Some(&listed), "1979-05-27T07:32:00Z"), OffsetDateTimeCheck::Valid);
    assert_eq!(validate_offset_date_time(Some(&listed), "2000-01-01T00:00:00Z"), OffsetDateTimeCheck::NotEnumerated);
    assert_eq!(
        validate_offset_date_time(Some(&(SchemaValueType::String, ValueSchemaKind::Other)), "x"),
        OffsetDateTimeCheck::TypeMismatch { expected: SchemaValueType::String, actual: SchemaValueType::OffsetDateTime }
    );
    assert_eq!(
        validate_offset_date_time(Some(&(SchemaValueType::LocalDate, ValueSchemaKind::Other)), "x"),
        OffsetDateTimeCheck::TypeMismatch { expected: SchemaValueType::LocalDate, actual: SchemaValueType::OffsetDateTime }
    );
    assert_eq!(
        validate_offset_date_time(Some(&(SchemaValueType::Null, ValueSchemaKind::Other)), "x"),
        OffsetDateTimeCheck::Valid
    );
    assert_eq!(
        validate_offset_date_time(Some(&(SchemaValueType::OneOf, ValueSchemaKind::AnyOf)), "x"),
        OffsetDateTimeCheck::ValidateAnyOf
    );
}

fn plain(name: &str, value: Value) -> (Key, Value) {
    entry(name, r(0, 0, 0), value)
}

fn array(values: Vec<Value>) -> Value {
    Value::Array {
        values,
        range: r(0, 0, 0),
    }
}

fn text(value: &str) -> Value {
    string(value, r(0, 0, 0))
}

#[test]
fn collects_registry_dependencies_without_source_overrides() {
    let document_tree = table(vec![
        plain(
            "project",
            table(vec![plain(
                "dependencies",
                array(vec![text("requests>=2"), text("ruff"), text("local-lib"), text("demo @ https://example.com/demo.whl")]),
            )]),
        ),
        plain(
            "dependency-groups",
            table(vec![plain("dev", array(vec![text("pytest>=8"), text("ruff")]))]),
        ),
        plain(
            "tool",
            table(vec![plain(
                "uv",
                table(vec![plain("sources", table(vec![plain("local-lib", table(vec![]))]))]),
            )]),
        ),
    ]);
    assert_eq!(
        collect_pypi_prefetch_urls(&document_tree, None),
        vec![
            "https://pypi.org/pypi/pytest/json".to_string(),
            "https://pypi.org/pypi/requests/json".to_string(),
            "https://pypi.org/pypi/ruff/json".to_string(),
        ]
    );
}

#[test]
fn excludes_workspace_source_overrides() {
    let member = table(vec![plain(
        "project",
        table(vec![plain("dependencies", array(vec![text("pytest"), text("shared")]))]),
    )]);
    let workspace = table(vec![plain(
        "tool",
        table(vec![plain(
            "uv",
            table(vec![plain("sources", table(vec![plain("shared", table(vec![]))]))]),
        )]),
    )]);
    assert_eq!(
        collect_pypi_prefetch_urls(&member, Some(&workspace)),
        vec!["https://pypi.org/pypi/pytest/json".to_string()]
    );
    assert!(has_source_override(Some(&table(vec![plain("x", table(vec![]))])), "x"));
    assert!(!has_source_override(None, "x"));
}

#[test]
fn pyproject_hover_helpers() {
    assert!(is_source_hover(&[key("tool"), key("uv"), key("sources"), key("pkg")]));
    assert!(is_source_hover(&[key("tool"), key("uv"), key("sources"), key("pkg"), key("path")]));
    assert!(!is_source_hover(&[key("tool"), key("uv"), key("sources")]));
    assert_eq!(
        source_target(&table(vec![plain("workspace", Value::Boolean { value: true, range: r(0, 0, 0) })])),
        Some(SourceTarget::WorkspaceMember)
    );
    assert_eq!(
        source_target(&table(vec![plain("path", text("../lib"))])),
        Some(SourceTarget::Path("../lib".to_string()))
    );
    assert_eq!(source_target(&text("x")), None);
    assert_eq!(pypi_metadata(None, None), None);
    assert_eq!(
        pypi_metadata(Some("requests".to_string()), None),
        Some(HoverMetadata {
            title: Some("requests".to_string()),
            description: None
        })
    );
}

#[test]
fn rejects_direct_url_requirements_for_remote_lookup() {
    let requirement = tombi_ext::pep508::parse_requirement("demo @ https://example.com/demo-0.1.0.tar.gz").unwrap();
    assert_eq!(remote_lookup_name(&requirement), None);
    let requirement = tombi_ext::pep508::parse_requirement("demo>=1").unwrap();
    assert_eq!(remote_lookup_name(&requirement), Some("demo"));
}

#[test]
fn excludes_direct_url_and_source_overrides() {
    let document_tree = table(vec![
        plain(
            "project",
            table(vec![plain(
                "dependencies",
                array(vec![text("requests>=2.0"), text("demo @ https://example.com/demo-0.1.0.tar.gz")]),
            )]),
        ),
        plain(
            "tool",
            table(vec![plain(
                "uv",
                table(vec![plain("sources", table(vec![plain("requests", table(vec![plain("path", text("../requests"))]))]))]),
            )]),
        ),
    ]);
    assert!(collect_pypi_prefetch_urls(&document_tree, None).is_empty());
}
