use tombi_ext::document::{TableKind, Key, Position, Range, Value};
use tombi_ext::py_code_action::{
    add_workspace_dependency_code_action, existing_package_names, workspace_dependency_array,
    pyproject_code_action_plan, pyproject_code_actions, PyprojectCodeActionFeatures,
    find_version_specifier_range, latest_version_code_action, updatable_dependency,
    use_workspace_dependency_code_action, CodeActionRefactorRewriteName,
};
use tombi_ext::insertion::{calculate_insertion, SequenceLayout};
use tombi_ext::uv_lock::{
    normalize_version, version_hint_label, UvLock, UvLockDependency, UvLockPackage,
};

fn slice(text: &str, range: Range) -> &str {
    &text[range.start.column as usize..range.end.column as usize]
}

#[test]
fn test_find_version_specifier_range_with_marker() {
    let dependency = "requests>=2.0; python_version < '3.13'";
    let range = find_version_specifier_range(dependency).unwrap();
    assert_eq!(slice(dependency, range), ">=2.0");
}

#[test]
fn test_find_version_specifier_range_with_extras() {
    let dependency = "requests[security] >= 2.0, < 3";
    let range = find_version_specifier_range(dependency).unwrap();
    assert_eq!(slice(dependency, range), ">= 2.0, < 3");
}

#[test]
fn test_find_version_specifier_range_returns_none_for_url() {
    let dependency = "requests @ https://example.com/requests.whl";
    assert!(find_version_specifier_range(dependency).is_none());
}

#[test]
fn version_specifier_range_edge_cases() {
    assert!(find_version_specifier_range("requests").is_none());
    assert!(find_version_specifier_range(">=2.0").is_none());
    assert!(find_version_specifier_range("requests[security").is_none());
    assert!(find_version_specifier_range("requests>=   ").is_some());
    let dependency = "café==1.0 ";
    let range = find_version_specifier_range(dependency).unwrap();
    assert_eq!(range.start, Position::new(0, 5));
    assert_eq!(slice(dependency, range), "==1.0");
}

#[test]
fn pyproject_code_action_titles() {
    assert_eq!(
        CodeActionRefactorRewriteName::UpdateDependencyToLatestVersion.as_str(),
        "Update Dependency to Latest Version"
    );
}

fn lock() -> UvLock {
    UvLock {
        packages: vec![
            UvLockPackage {
                name: "app".to_string(),
                version: "1.0".to_string(),
                direct_dependencies: vec![
                    UvLockDependency {
                        name: "requests".to_string(),
                        version: None,
                    },
                    UvLockDependency {
                        name: "idna".to_string(),
                        version: Some("3.10".to_string()),
                    },
                ],
            },
            UvLockPackage {
                name: "requests".to_string(),
                version: "2.32.3".to_string(),
                direct_dependencies: Vec::new(),
            },
            UvLockPackage {
                name: "idna".to_string(),
                version: "3.10".to_string(),
                direct_dependencies: Vec::new(),
            },
            UvLockPackage {
                name: "idna".to_string(),
                version: "2.10".to_string(),
                direct_dependencies: Vec::new(),
            },
        ],
    }
}

#[test]
fn uv_lock_resolves_dependency_versions() {
    let lock = lock();
    assert_eq!(lock.unique_package_version("requests"), Some("2.32.3".to_string()));
    assert_eq!(lock.unique_package_version("idna"), None);
    assert!(lock.package("app", "1.0").is_some());
    assert!(lock.package("app", "1.0.0").is_none());
    assert_eq!(
        lock.dependency_version_for_package("app", "1.0", "requests"),
        Some("2.32.3".to_string())
    );
    assert_eq!(
        lock.dependency_version_for_package("app", "1.0", "idna"),
        Some("3.10".to_string())
    );
    assert_eq!(lock.dependency_version_for_package("app", "2.0", "idna"), None);
}

#[test]
fn versions_are_normalized() {
    assert_eq!(normalize_version("1.0.0"), "1.0.0");
    assert_eq!(normalize_version("1.0.0-alpha1"), "1.0.0a1");
    assert_eq!(normalize_version("not a version"), "not a version");
}

#[test]
fn pyproject_version_hint_label() {
    assert_eq!(version_hint_label(Some("2.0"), "2.0"), None);
    assert_eq!(
        version_hint_label(Some("2.0"), "2.1"),
        Some(" → \"2.1\"".to_string())
    );
    assert_eq!(version_hint_label(None, "2.1"), Some(" → \"2.1\"".to_string()));
}

fn at() -> Range {
    Range::new(Position::new(0, 0), Position::new(0, 0))
}

fn s(value: &str) -> Value {
    Value::String {
        value: value.to_string(),
        range: at(),
    }
}

fn t(entries: Vec<(&str, Value)>) -> Value {
    Value::Table {
        entries: entries
            .into_iter()
            .map(|(k, v)| (Key { value: k.to_string(), range: at() }, v))
            .collect(),
        range: at(),
        kind: TableKind::Table,
    }
}

fn a(values: Vec<Value>) -> Value {
    Value::Array { values, range: at() }
}

#[test]
fn uv_lock_is_read_from_its_package_array() {
    let document = t(vec![(
        "package",
        a(vec![
            t(vec![
                ("name", s("app")),
                ("version", s("1.0")),
                ("dependencies", a(vec![t(vec![("name", s("requests"))])])),
                (
                    "optional-dependencies",
                    t(vec![("socks", a(vec![t(vec![("name", s("pysocks")), ("version", s("1.7.1"))])]))]),
                ),
                ("dev-dependencies", t(vec![("dev", a(vec![t(vec![("name", s("pytest"))])]))])),
            ]),
            t(vec![("name", s("nameless-version"))]),
        ]),
    )]);
    let lock = UvLock::from_document_tree(&document).unwrap();
    assert_eq!(lock.packages.len(), 1);
    let names: Vec<&str> = lock.packages[0]
        .direct_dependencies
        .iter()
        .map(|d| d.name.as_str())
        .collect();
    assert_eq!(names, vec!["requests", "pysocks", "pytest"]);
    assert_eq!(lock.packages[0].direct_dependencies[1].version.as_deref(), Some("1.7.1"));
}

use tombi_ext::pep508::{
    exact_pinned_version, format_dependency_without_version, format_exact_pinned_dependency,
    is_url_requirement, parse_requirement, RequirementVersion,
};
use tombi_ext::py_accessor::{classify_pyproject_navigation_feature, get_dependency_accessors, PyprojectNavigationFeature};
use tombi_ext::accessor::Accessor;
use tombi_ext::py_dependency::{
    collect_all_dependency_requirements_from_document_tree, collect_include_group_values,
    find_dependency_group_key,
};
use tombi_ext::py_inlay::{current_package, uv_version_inlay_hints, visible_dependency_requirements};

#[test]
fn test_parse_dependency_basic_with_version() {
    let requirement = parse_requirement("pydantic>=2.10,<3.0").unwrap();
    assert_eq!(requirement.name, "pydantic");
    assert!(requirement.extras.is_empty());
    assert!(requirement.version_or_url.is_some());
}

#[test]
fn test_parse_dependency_with_extras() {
    let requirement = parse_requirement("pydantic[email,dotenv]>=2.10").unwrap();
    assert_eq!(requirement.name, "pydantic");
    assert_eq!(requirement.extras, vec!["email", "dotenv"]);
    assert!(requirement.version_or_url.is_some());
}

#[test]
fn test_parse_dependency_without_version() {
    let requirement = parse_requirement("pydantic").unwrap();
    assert_eq!(requirement.name, "pydantic");
    assert!(requirement.extras.is_empty());
    assert!(requirement.version_or_url.is_none());
}

#[test]
fn test_parse_dependency_with_extras_no_version() {
    let requirement = parse_requirement("pydantic[email]").unwrap();
    assert_eq!(requirement.name, "pydantic");
    assert_eq!(requirement.extras, vec!["email"]);
    assert!(requirement.version_or_url.is_none());
}

#[test]
fn test_parse_dependency_invalid() {
    let result = parse_requirement("invalid package name!!!");
    assert!(result.is_none());
}

#[test]
fn test_format_dependency_without_extras() {
    let requirement = parse_requirement("pydantic>=2.10").unwrap();
    assert_eq!(format_dependency_without_version(&requirement), "pydantic");
}

#[test]
fn test_format_dependency_with_one_extra() {
    let requirement = parse_requirement("pydantic[email]>=2.10").unwrap();
    assert_eq!(format_dependency_without_version(&requirement), "pydantic[email]");
}

#[test]
fn test_format_dependency_with_multiple_extras() {
    let requirement = parse_requirement("pydantic[email,dotenv]>=2.10").unwrap();
    assert_eq!(format_dependency_without_version(&requirement), "pydantic[email,dotenv]");
}

#[test]
fn exact_pins_are_read_from_specifiers() {
    let pinned = |text: &str| exact_pinned_version(&parse_requirement(text).unwrap());
    assert_eq!(pinned("requests==2.31.0"), Some("2.31.0".to_string()));
    assert_eq!(pinned("requests===2.31.0"), Some("2.31.0".to_string()));
    assert_eq!(pinned("requests==2.*"), None);
    assert_eq!(pinned("requests>=2.0"), None);
    assert_eq!(pinned("requests==2.0,<3"), None);
    assert_eq!(pinned("requests"), None);
    assert_eq!(format_exact_pinned_dependency("2.33.1"), "==2.33.1");
    assert_eq!(format_exact_pinned_dependency("not-a-version"), "==not-a-version");
}

#[test]
fn url_requirements_are_recognised() {
    let requirement = parse_requirement("demo @ https://example.com/demo-0.1.0.tar.gz").unwrap();
    assert!(is_url_requirement(&requirement));
    assert!(matches!(requirement.version_or_url, Some(RequirementVersion::Url)));
    assert!(!is_url_requirement(&parse_requirement("demo>=1").unwrap()));
}

fn key(k: &str) -> Accessor {
    Accessor::Key(k.to_string())
}

#[test]
fn recognizes_tool_uv_dependency_accessors() {
    let accessors = vec![key("tool"), key("uv"), key("override-dependencies"), Accessor::Index(0)];

    assert_eq!(get_dependency_accessors(&accessors), Some(accessors.as_slice()));
}

#[test]
fn dependency_accessors_are_cut_to_the_item() {
    let accessors = vec![key("project"), key("dependencies"), Accessor::Index(2)];
    assert_eq!(get_dependency_accessors(&accessors), Some(&accessors[..3]));
    let accessors = vec![key("project"), key("name")];
    assert_eq!(get_dependency_accessors(&accessors), None);
    assert_eq!(
        classify_pyproject_navigation_feature(&[key("tool"), key("uv"), key("workspace"), key("members")]),
        PyprojectNavigationFeature::Member
    );
    assert_eq!(
        classify_pyproject_navigation_feature(&[key("tool"), key("uv"), key("sources"), key("x"), key("path")]),
        PyprojectNavigationFeature::Path
    );
    assert_eq!(
        classify_pyproject_navigation_feature(&[key("project"), key("dependencies")]),
        PyprojectNavigationFeature::Dependency
    );
}

fn line_string(value: &str, line: u32) -> Value {
    Value::String {
        value: value.to_string(),
        range: Range::new(Position::new(line, 0), Position::new(line, value.len() as u32 + 2)),
    }
}

#[test]
fn collects_tool_uv_dependency_lists_for_extended_features() {
    let document_tree = t(vec![
        ("project", t(vec![("dependencies", a(vec![s("requests>=2.0")]))])),
        (
            "tool",
            t(vec![(
                "uv",
                t(vec![
                    ("dev-dependencies", a(vec![s("ruff>=0.7")])),
                    ("constraint-dependencies", a(vec![s("pytest<9")])),
                    ("override-dependencies", a(vec![s("werkzeug==2.3.0")])),
                    ("build-constraint-dependencies", a(vec![s("setuptools==60.0.0")])),
                ]),
            )]),
        ),
    ]);

    let dependency_names = collect_all_dependency_requirements_from_document_tree(&document_tree)
        .into_iter()
        .map(|dependency| dependency.requirement.name.to_string())
        .collect::<Vec<_>>();

    assert_eq!(dependency_names, vec!["requests", "ruff", "pytest", "werkzeug", "setuptools"]);
}

#[test]
fn finds_dependency_group_key_and_include_group_values() {
    let document_tree = t(vec![(
        "dependency-groups",
        t(vec![
            ("dev", a(vec![t(vec![("include-group", s("ci"))])])),
            ("qa", a(vec![t(vec![("include-group", s("ci"))])])),
            ("ci", a(vec![s("ruff")])),
        ]),
    )]);

    let group_key = find_dependency_group_key(&document_tree, "ci").expect("expected dependency group key to exist");
    let include_group_values = collect_include_group_values(&document_tree, "ci");

    assert_eq!(group_key.value, "ci");
    assert_eq!(
        include_group_values.into_iter().map(|include_group| include_group.0.as_str()).collect::<Vec<_>>(),
        vec!["ci", "ci"]
    );
}

#[test]
fn uv_inlay_hints_show_resolved_versions() {
    let document_tree = t(vec![(
        "project",
        t(vec![
            ("name", s("app")),
            ("version", s("1.0")),
            (
                "dependencies",
                a(vec![line_string("requests>=2", 3), line_string("idna==3.10", 4), line_string("pytest", 40)]),
            ),
        ]),
    )]);
    let current = current_package(&document_tree).unwrap();
    assert_eq!(current.version, "1.0");
    let visible = Range::new(Position::new(0, 0), Position::new(10, 0));
    let requirements = visible_dependency_requirements(&document_tree, visible);
    assert_eq!(requirements.len(), 2);
    let hints = uv_version_inlay_hints(&lock(), &current, &requirements);
    assert_eq!(hints.len(), 1);
    assert_eq!(hints[0].label, " → \"2.32.3\"");
    assert_eq!(hints[0].position, Position::new(3, 13));
    assert_eq!(hints[0].tooltip, "Resolved version in uv.lock");
}

fn member_with(dependency: &str) -> Value {
    t(vec![(
        "project",
        t(vec![
            ("name", s("member")),
            ("dependencies", a(vec![line_string(dependency, 3)])),
        ]),
    )])
}

fn workspace_with(dependency: &str) -> Value {
    t(vec![
        ("tool", t(vec![("uv", t(vec![("workspace", t(vec![("members", a(vec![s("member")]))]))]))])),
        ("project", t(vec![("dependencies", a(vec![s(dependency)]))])),
    ])
}

fn dependency_accessors() -> Vec<Accessor> {
    vec![key("project"), key("dependencies"), Accessor::Index(0)]
}

#[test]
fn test_use_workspace_dependency_basic_case() {
    let document_tree = member_with("pydantic>=2.10,<3.0");
    let workspace_tree = workspace_with("pydantic>=2.10,<3.0");
    let result = use_workspace_dependency_code_action(&document_tree, &dependency_accessors(), &workspace_tree);
    assert!(result.is_some());
    let action = result.unwrap();
    assert_eq!(action.title, "Use Workspace Dependency");
    assert_eq!(action.edits.len(), 1);
    assert_eq!(action.edits[0].new_text, "\"pydantic\"");
    assert_eq!(action.edits[0].range, Range::new(Position::new(3, 0), Position::new(3, 21)));
    assert!(action.disabled.is_none());
}

#[test]
fn test_use_workspace_dependency_with_extras() {
    let document_tree = member_with("pydantic[email,dotenv]>=2.10,<3.0");
    let workspace_tree = workspace_with("pydantic>=2.10");
    let result = use_workspace_dependency_code_action(&document_tree, &dependency_accessors(), &workspace_tree);
    assert!(result.is_some());
    // The version is dropped and the member's extras are kept.
    assert_eq!(result.unwrap().edits[0].new_text, "\"pydantic[email,dotenv]\"");
}

#[test]
fn test_use_workspace_dependency_already_versionless() {
    let document_tree = member_with("pydantic");
    let workspace_tree = workspace_with("pydantic>=2.10");
    let result = use_workspace_dependency_code_action(&document_tree, &dependency_accessors(), &workspace_tree);
    assert!(result.is_none());
}

#[test]
fn test_use_workspace_dependency_not_in_workspace() {
    let document_tree = member_with("requests>=2.28");
    let workspace_tree = workspace_with("pydantic>=2.10");
    let result = use_workspace_dependency_code_action(&document_tree, &dependency_accessors(), &workspace_tree);
    assert!(result.is_none());
}

#[test]
fn use_workspace_dependency_keeps_only_member_extras_and_needs_a_full_path() {
    let document_tree = member_with("Pydantic>=2");
    let workspace_tree = workspace_with("pydantic[email]>=2.10");
    let action = use_workspace_dependency_code_action(&document_tree, &dependency_accessors(), &workspace_tree).unwrap();
    assert_eq!(action.edits[0].new_text, "\"pydantic\"");
    assert!(use_workspace_dependency_code_action(&document_tree, &dependency_accessors()[..2], &workspace_tree).is_none());
}

#[test]
fn latest_version_action_pins_the_specifier() {
    let unquoted = Range::new(Position::new(4, 10), Position::new(4, 30));
    let action = latest_version_code_action("requests>=2.0; python_version < '3.13'", unquoted, "2.32.3").unwrap();
    assert_eq!(action.title, "Update Dependency to Latest Version");
    assert_eq!(action.edits.len(), 1);
    assert_eq!(action.edits[0].new_text, "==2.32.3");
    assert_eq!(action.edits[0].range, Range::new(Position::new(4, 18), Position::new(4, 23)));
    assert!(action.disabled.is_none());

    let same = latest_version_code_action("requests==2.32.3", unquoted, "==2.32.3").unwrap();
    assert_eq!(same.disabled, Some("Already at latest version".to_string()));

    assert!(latest_version_code_action("requests", unquoted, "2.32.3").is_none());
}

#[test]
fn updatable_dependency_needs_version_specifiers() {
    let document_tree = member_with("requests>=2.0");
    let (text, range, requirement) = updatable_dependency(&document_tree, &dependency_accessors()).unwrap();
    assert_eq!(text, "requests>=2.0");
    assert_eq!(range.start, Position::new(3, 0));
    assert_eq!(requirement.name, "requests");
    assert!(updatable_dependency(&member_with("requests"), &dependency_accessors()).is_none());
    assert!(updatable_dependency(&member_with("requests @ https://example.com/r.whl"), &dependency_accessors()).is_none());
}

#[test]
fn pyproject_inlay_hints_need_every_input() {
    let document_tree = t(vec![(
        "project",
        t(vec![
            ("name", s("app")),
            ("version", s("1.0")),
            ("dependencies", a(vec![line_string("requests>=2", 3), line_string("idna==3.10", 4)])),
        ]),
    )]);
    let visible = Range::new(Position::new(0, 0), Position::new(10, 0));
    let lock = lock();
    let hints = tombi_ext::py_inlay::inlay_hint_impl(&document_tree, visible, Some(&lock), true).unwrap();
    assert_eq!(hints.len(), 1);
    assert_eq!(hints[0].label, " → \"2.32.3\"");
    assert!(tombi_ext::py_inlay::inlay_hint_impl(&document_tree, visible, Some(&lock), false).is_none());
    assert!(tombi_ext::py_inlay::inlay_hint_impl(&document_tree, visible, None, true).is_none());
    let offscreen = Range::new(Position::new(20, 0), Position::new(30, 0));
    assert!(tombi_ext::py_inlay::inlay_hint_impl(&document_tree, offscreen, Some(&lock), true).is_none());
    let pinned = t(vec![(
        "project",
        t(vec![("name", s("app")), ("version", s("1.0")), ("dependencies", a(vec![line_string("idna==3.10", 4)]))]),
    )]);
    assert!(tombi_ext::py_inlay::inlay_hint_impl(&pinned, visible, Some(&lock), true).is_none());
    let nameless = t(vec![("project", t(vec![("dependencies", a(vec![line_string("requests>=2", 3)]))]))]);
    assert!(tombi_ext::py_inlay::inlay_hint_impl(&nameless, visible, Some(&lock), true).is_none());
}

fn workspace_array_layout() -> SequenceLayout {
    SequenceLayout {
        open_end: Some(Position::new(5, 16)),
        dangling_comment_end: None,
        items: vec![(Range::new(Position::new(5, 16), Position::new(5, 32)), None)],
    }
}

#[test]
fn test_add_workspace_dependency_basic_case() {
    let member_tree = member_with("requests>=2.28");
    let workspace_tree = workspace_with("pydantic>=2.10");
    let result = add_workspace_dependency_code_action(
        &member_tree,
        &dependency_accessors(),
        &workspace_tree,
        Some(&workspace_array_layout()),
        1,
        "\"requests>=2.28\"",
    );
    assert!(result.is_some());
    let action = result.unwrap();
    assert_eq!(action.title, "Add to Workspace and Use Workspace Dependency");
    assert_eq!(action.edits.len(), 1);
    assert_eq!(action.edits[0].new_text, "\"requests\"");
    assert_eq!(action.workspace_edits.len(), 1);
    // A zero-width insert after the last element of the workspace's array.
    assert_eq!(action.workspace_edits[0].new_text, ", \"requests>=2.28\"");
    assert_eq!(action.workspace_edits[0].range, Range::at(Position::new(5, 32)));
}

#[test]
fn test_add_workspace_dependency_already_in_workspace() {
    let member_tree = member_with("pydantic>=2.10");
    let workspace_tree = workspace_with("pydantic>=2.10,<3.0");
    let result = add_workspace_dependency_code_action(
        &member_tree,
        &dependency_accessors(),
        &workspace_tree,
        Some(&workspace_array_layout()),
        1,
        "\"requests>=2.28\"",
    );
    assert!(result.is_none());
}

#[test]
fn test_exclusive_provision_use_when_in_workspace() {
    let document_tree = member_with("pydantic>=2.10");
    let workspace_tree = workspace_with("pydantic>=2.10,<3.0");
    let use_result = use_workspace_dependency_code_action(&document_tree, &dependency_accessors(), &workspace_tree);
    assert!(use_result.is_some());
    let add_result = add_workspace_dependency_code_action(
        &document_tree,
        &dependency_accessors(),
        &workspace_tree,
        Some(&workspace_array_layout()),
        1,
        "\"requests>=2.28\"",
    );
    assert!(add_result.is_none());
}

#[test]
fn test_exclusive_provision_add_when_not_in_workspace() {
    let document_tree = member_with("requests>=2.28");
    let workspace_tree = workspace_with("pydantic>=2.10");
    let use_result = use_workspace_dependency_code_action(&document_tree, &dependency_accessors(), &workspace_tree);
    assert!(use_result.is_none());
    let add_result = add_workspace_dependency_code_action(
        &document_tree,
        &dependency_accessors(),
        &workspace_tree,
        Some(&workspace_array_layout()),
        1,
        "\"requests>=2.28\"",
    );
    assert!(add_result.is_some());
}

#[test]
fn add_to_workspace_needs_a_version_an_array_and_an_insertion() {
    let workspace_tree = workspace_with("pydantic>=2.10");
    let versionless = member_with("requests");
    assert!(add_workspace_dependency_code_action(&versionless, &dependency_accessors(), &workspace_tree, Some(&workspace_array_layout()), 1, "\"requests[socks]>=2.28\"").is_none());
    let member = member_with("requests[socks]>=2.28");
    assert!(add_workspace_dependency_code_action(&member, &dependency_accessors(), &workspace_tree, None, 1, "\"requests[socks]>=2.28\"").is_none());
    let action = add_workspace_dependency_code_action(&member, &dependency_accessors(), &workspace_tree, Some(&workspace_array_layout()), 1, "\"requests[socks]>=2.28\"").unwrap();
    assert_eq!(action.edits[0].new_text, "\"requests[socks]\"");
    let no_array = t(vec![("project", t(vec![("name", s("root"))]))]);
    assert!(add_workspace_dependency_code_action(&member, &dependency_accessors(), &no_array, Some(&workspace_array_layout()), 1, "\"requests[socks]>=2.28\"").is_none());
    let array = workspace_dependency_array(&workspace_tree, &dependency_accessors()).unwrap();
    assert_eq!(existing_package_names(array), vec!["pydantic".to_string()]);
}

#[test]
fn test_code_action_non_pyproject_toml_returns_none() {
    let document_tree = t(vec![("package", t(vec![("name", s("test"))]))]);
    assert!(pyproject_code_action_plan("/path/to/Cargo.toml", None, &[], &document_tree).is_none());
}

#[test]
fn test_code_action_workspace_root_skips_workspace_actions() {
    let document_tree = t(vec![
        ("tool", t(vec![("uv", t(vec![("workspace", t(vec![("members", a(vec![s("member1")]))]))]))])),
        ("project", t(vec![("dependencies", a(vec![s("pydantic>=2.10")]))])),
    ]);
    let plan = pyproject_code_action_plan("/path/to/pyproject.toml", None, &dependency_accessors(), &document_tree).unwrap();
    assert!(!plan.needs_workspace);
    assert!(!plan.use_workspace_dependency);
    assert!(!plan.add_to_workspace);
    let use_action = use_workspace_dependency_code_action(&member_with("pydantic>=2"), &dependency_accessors(), &document_tree);
    assert!(use_action.is_some());
    let actions = pyproject_code_actions(&plan, None, false, use_action, None);
    let titles: Vec<String> = actions.unwrap_or_default().into_iter().map(|a| a.title).collect();
    assert!(!titles.iter().any(|title| title == "Use Workspace Dependency"));
    assert!(!titles.iter().any(|title| title == "Add to Workspace and Use Workspace Dependency"));
}

#[test]
fn test_code_action_invalid_accessor_returns_none() {
    let document_tree = t(vec![("project", t(vec![("name", s("test"))]))]);
    assert!(pyproject_code_action_plan("/path/to/pyproject.toml", None, &[key("project"), key("name")], &document_tree).is_none());
}

#[test]
fn code_action_plans_follow_the_features_and_the_workspace() {
    let member = member_with("requests>=2.28");
    let plan = pyproject_code_action_plan("/w/member/pyproject.toml", None, &dependency_accessors(), &member).unwrap();
    assert_eq!(plan.dependency_path_len, 3);
    assert!(plan.update_to_latest && plan.needs_workspace && plan.use_workspace_dependency && plan.add_to_workspace);
    let off = PyprojectCodeActionFeatures { enabled: Some(false), ..PyprojectCodeActionFeatures::default() };
    assert!(pyproject_code_action_plan("/w/member/pyproject.toml", Some(&off), &dependency_accessors(), &member).is_none());
    let no_add = PyprojectCodeActionFeatures {
        add_to_workspace_and_use_workspace_dependency: Some(false),
        update_dependency_to_latest_version: Some(false),
        ..PyprojectCodeActionFeatures::default()
    };
    let plan2 = pyproject_code_action_plan("/w/member/pyproject.toml", Some(&no_add), &dependency_accessors(), &member).unwrap();
    assert!(!plan2.update_to_latest && plan2.use_workspace_dependency && !plan2.add_to_workspace);
    let workspace_tree = workspace_with("pydantic>=2.10");
    let add = add_workspace_dependency_code_action(&member, &dependency_accessors(), &workspace_tree, Some(&workspace_array_layout()), 1, "\"requests[socks]>=2.28\"");
    assert!(pyproject_code_actions(&plan, None, false, None, add.clone()).is_none());
    let actions = pyproject_code_actions(&plan, None, true, None, add.clone()).unwrap();
    assert_eq!(actions.len(), 1);
    assert!(pyproject_code_actions(&plan2, None, true, None, add).is_none());
}

#[test]
fn insertions_place_commas_by_layout() {
    let empty = SequenceLayout { open_end: Some(Position::new(1, 16)), dangling_comment_end: None, items: vec![] };
    assert_eq!(calculate_insertion(&empty, 0, "\"a\""), Some((Position::new(1, 16), "\"a\"".to_string())));
    let commented = SequenceLayout { dangling_comment_end: Some(Position::new(2, 9)), ..empty.clone() };
    assert_eq!(calculate_insertion(&commented, 0, "\"a\""), Some((Position::new(2, 9), "\n\n\"a\",\n".to_string())));
    let no_bracket = SequenceLayout { open_end: None, ..empty };
    assert_eq!(calculate_insertion(&no_bracket, 0, "x"), None);
    let two = SequenceLayout {
        open_end: Some(Position::new(1, 0)),
        dangling_comment_end: None,
        items: vec![
            (Range::new(Position::new(2, 4), Position::new(2, 7)), Some(Range::new(Position::new(2, 7), Position::new(2, 8)))),
            (Range::new(Position::new(3, 4), Position::new(3, 7)), Some(Range::new(Position::new(3, 7), Position::new(3, 8)))),
        ],
    };
    assert_eq!(calculate_insertion(&two, 0, "x"), Some((Position::new(2, 4), "x,\n".to_string())));
    assert_eq!(calculate_insertion(&two, 1, "x"), Some((Position::new(3, 8), "\nx,\n".to_string())));
    assert_eq!(calculate_insertion(&two, 2, "x"), Some((Position::new(3, 8), "\nx, ".to_string())));
}

#[test]
fn test_optional_dependencies_support() {
    let document_tree = t(vec![(
        "project",
        t(vec![
            ("name", s("member")),
            ("optional-dependencies", t(vec![("dev", a(vec![line_string("pytest>=7.0", 6)]))])),
        ]),
    )]);
    let workspace_tree = workspace_with("pytest>=7.0,<8.0");
    let result = use_workspace_dependency_code_action(
        &document_tree,
        &[key("project"), key("optional-dependencies"), key("dev"), Accessor::Index(0)],
        &workspace_tree,
    );
    assert!(result.is_some());
}
