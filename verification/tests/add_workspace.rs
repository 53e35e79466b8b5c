use tombi_ext::accessor::Accessor;
use tombi_ext::add_workspace::add_workspace_dependency_code_action;
use tombi_ext::insertion::SequenceLayout;
use tombi_ext::cargo_code_action::{code_action, CargoCodeActionFeatures, CodeAction, WorkspaceLookup};
use tombi_ext::document::{Key, Position, Range, TableKind, Value};

fn key(value: &str) -> Accessor {
    Accessor::Key(value.to_string())
}

fn r(line: u32, start: u32, end: u32) -> Range {
    Range::new(Position::new(line, start), Position::new(line, end))
}

fn entry(name: &str, line: u32, value: Value) -> (Key, Value) {
    (
        Key {
            value: name.to_string(),
            range: r(line, 0, name.len() as u32),
        },
        value,
    )
}

fn table(entries: Vec<(Key, Value)>, range: Range, kind: TableKind) -> Value {
    Value::Table { entries, range, kind }
}

fn s(value: &str, line: u32, column: u32) -> Value {
    Value::String {
        value: value.to_string(),
        range: r(line, column, column + value.len() as u32 + 2),
    }
}

fn member() -> Value {
    table(
        vec![
            entry(
                "dependencies",
                1,
                table(
                    vec![
                        entry("serde", 2, s("1.0", 2, 8)),
                        entry("local", 3, table(vec![entry("path", 3, s("../local", 3, 17))], r(3, 8, 30), TableKind::InlineTable)),
                        entry("inherited", 4, table(vec![entry("workspace", 4, Value::Boolean { value: true, range: r(4, 26, 30) })], r(4, 12, 32), TableKind::InlineTable)),
                        entry("tokio", 5, s("1", 5, 8)),
                    ],
                    r(1, 0, 40),
                    TableKind::Table,
                ),
            ),
            entry(
                "target",
                7,
                table(
                    vec![entry(
                        "cfg(unix)",
                        7,
                        table(
                            vec![entry("dependencies", 7, table(vec![entry("libc", 8, s("0.2", 8, 7))], r(7, 0, 40), TableKind::Table))],
                            r(7, 0, 40),
                            TableKind::ParentTable,
                        ),
                    )],
                    r(7, 0, 40),
                    TableKind::ParentTable,
                ),
            ),
        ],
        r(0, 0, 50),
        TableKind::Root,
    )
}

fn workspace(kind: TableKind) -> Value {
    table(
        vec![entry(
            "workspace",
            1,
            table(
                vec![entry(
                    "dependencies",
                    2,
                    table(
                        vec![entry("anyhow", 3, s("1", 3, 9)), entry("tokio", 4, s("1", 4, 8)), entry("tracing", 5, s("0.1", 5, 10))],
                        r(2, 0, 60),
                        kind,
                    ),
                )],
                r(1, 0, 60),
                TableKind::ParentTable,
            ),
        )],
        r(0, 0, 70),
        TableKind::Root,
    )
}

fn ranges(n: usize, at: usize, range: Range) -> Vec<Option<Range>> {
    let mut v = vec![None; n];
    v[at] = Some(range);
    v
}

#[test]
fn adds_a_dependency_to_the_workspace_and_inherits_it() {
    let member = member();
    let ws = workspace(TableKind::Table);
    let accessors = vec![key("dependencies"), key("serde")];
    let action = add_workspace_dependency_code_action(&member, &accessors, &ranges(2, 1, r(2, 0, 5)), &ws, 1, None, "\"1.0\"")
        .unwrap();
    assert_eq!(action.title, "Add to Workspace and Inherit Dependency");
    assert_eq!(action.workspace_edits.len(), 1);
    assert_eq!(action.workspace_edits[0].range, Range::at(Position::new(4, 0)));
    assert_eq!(action.workspace_edits[0].new_text, "serde = \"1.0\"\n");
    assert_eq!(action.edits.len(), 1);
    assert_eq!(action.edits[0].range, r(2, 0, 13));
    assert_eq!(action.edits[0].new_text, "serde = { workspace = true }");
}

#[test]
fn insertion_goes_first_or_last_by_index() {
    let member = member();
    let ws = workspace(TableKind::Table);
    let accessors = vec![key("dependencies"), key("serde")];
    let key_ranges = ranges(2, 1, r(2, 0, 5));
    let first = add_workspace_dependency_code_action(&member, &accessors, &key_ranges, &ws, 0, None, "\"1.0\"").unwrap();
    assert_eq!(first.workspace_edits[0].range, Range::at(Position::new(3, 0)));
    let last = add_workspace_dependency_code_action(&member, &accessors, &key_ranges, &ws, 9, None, "\"1.0\"").unwrap();
    assert_eq!(last.workspace_edits[0].range, Range::at(Position::new(2, 60)));
}

#[test]
fn target_dependencies_are_offered_too() {
    let member = member();
    let ws = workspace(TableKind::Table);
    let accessors = vec![key("target"), key("cfg(unix)"), key("dependencies"), key("libc")];
    let action = add_workspace_dependency_code_action(&member, &accessors, &ranges(4, 3, r(8, 0, 4)), &ws, 1, None, "\"0.2\"")
        .unwrap();
    assert_eq!(action.edits[0].new_text, "libc = { workspace = true }");
    assert_eq!(action.workspace_edits[0].new_text, "libc = \"0.2\"\n");
}

#[test]
fn no_action_for_inherited_path_or_listed_dependencies() {
    let member = member();
    let ws = workspace(TableKind::Table);
    for (name, line) in [("local", 3), ("inherited", 4), ("tokio", 5)] {
        let accessors = vec![key("dependencies"), key(name)];
        let key_ranges = ranges(2, 1, r(line, 0, name.len() as u32));
        assert!(add_workspace_dependency_code_action(&member, &accessors, &key_ranges, &ws, 0, None, "x").is_none());
    }
    let accessors = vec![key("dependencies"), key("serde")];
    assert!(add_workspace_dependency_code_action(&member, &accessors, &[None, None], &ws, 0, None, "x").is_none());
    let package = vec![key("package"), key("serde")];
    assert!(add_workspace_dependency_code_action(&member, &package, &ranges(2, 1, r(2, 0, 5)), &ws, 0, None, "x").is_none());
}

#[test]
fn inline_workspace_tables_take_the_computed_insertion() {
    let member = member();
    let ws = workspace(TableKind::InlineTable);
    let accessors = vec![key("dependencies"), key("serde")];
    let key_ranges = ranges(2, 1, r(2, 0, 5));
    assert!(add_workspace_dependency_code_action(&member, &accessors, &key_ranges, &ws, 1, None, "\"1.0\"").is_none());
    let layout = SequenceLayout {
        open_end: Some(Position::new(2, 16)),
        dangling_comment_end: None,
        items: vec![
            (r(3, 0, 10), Some(r(3, 10, 11))),
            (r(4, 0, 9), Some(r(4, 9, 10))),
            (r(5, 0, 15), None),
        ],
    };
    let action = add_workspace_dependency_code_action(&member, &accessors, &key_ranges, &ws, 1, Some(&layout), "\"1.0\"").unwrap();
    assert_eq!(action.workspace_edits[0].range, Range::at(Position::new(4, 10)));
    assert_eq!(action.workspace_edits[0].new_text, "\nserde = \"1.0\",\n");
    let at_end = add_workspace_dependency_code_action(&member, &accessors, &key_ranges, &ws, 3, Some(&layout), "\"1.0\"").unwrap();
    assert_eq!(at_end.workspace_edits[0].range, Range::at(Position::new(5, 15)));
    assert_eq!(at_end.workspace_edits[0].new_text, ", serde = \"1.0\"");
}

fn action(title: &str) -> CodeAction {
    CodeAction {
        title: title.to_string(),
        edits: vec![],
        disabled: None,
        workspace_edits: vec![],
    }
}

fn titles(actions: Option<Vec<CodeAction>>) -> Vec<String> {
    actions.unwrap_or_default().into_iter().map(|a| a.title).collect()
}

#[test]
fn cargo_code_actions_follow_the_manifest_and_the_features() {
    let member = member();
    let ws = workspace(TableKind::Table);
    let all = |lookup| {
        code_action(
            "/w/member/Cargo.toml",
            None,
            &member,
            lookup,
            Some(action("field")),
            Some(action("add")),
            Some(action("inherit")),
            Some(action("convert")),
        )
    };
    assert_eq!(titles(all(WorkspaceLookup::Loaded)), vec!["field", "add", "inherit", "convert"]);
    assert_eq!(titles(all(WorkspaceLookup::Missing)), vec!["convert"]);
    assert!(all(WorkspaceLookup::Unreadable).is_none());
    let in_workspace = code_action("/w/Cargo.toml", None, &ws, WorkspaceLookup::Missing, Some(action("field")), None, None, Some(action("convert")));
    assert_eq!(titles(in_workspace), vec!["convert"]);
    assert!(code_action("/w/pyproject.toml", None, &member, WorkspaceLookup::Loaded, Some(action("field")), None, None, None).is_none());
    let features = CargoCodeActionFeatures {
        code_action: true,
        inherit_from_workspace: false,
        add_to_workspace_and_inherit_dependency: true,
        inherit_dependency_from_workspace: true,
        convert_dependency_to_table_format: false,
    };
    let some = code_action("/w/member/Cargo.toml", Some(&features), &member, WorkspaceLookup::Loaded, Some(action("field")), Some(action("add")), None, Some(action("convert")));
    assert_eq!(titles(some), vec!["add"]);
    let off = CargoCodeActionFeatures { code_action: false, ..features };
    assert!(code_action("/w/member/Cargo.toml", Some(&off), &member, WorkspaceLookup::Loaded, Some(action("add")), None, None, None).is_none());
}
