use tombi_ext::accessor::Accessor;
use tombi_ext::document::{Key, Position, Range, TableKind, Value};
use tombi_ext::members::{
    extract_exclude_patterns, extract_member_patterns, extract_uv_exclude_patterns,
    extract_uv_member_patterns, is_excluded, workspace_definition,
};

fn r(line: u32, start: u32, end: u32) -> Range {
    Range::new(Position::new(line, start), Position::new(line, end))
}

fn key(name: &str, line: u32) -> Key {
    Key {
        value: name.to_string(),
        range: r(line, 0, name.len() as u32),
    }
}

fn s(value: &str, line: u32) -> Value {
    Value::String {
        value: value.to_string(),
        range: r(line, 4, 6 + value.len() as u32),
    }
}

fn t(line: u32, entries: Vec<(Key, Value)>) -> Value {
    Value::Table {
        entries,
        range: r(line, 0, 80),
        kind: TableKind::Table,
    }
}

fn a(line: u32, values: Vec<Value>) -> Value {
    Value::Array {
        values,
        range: r(line, 0, 80),
    }
}

fn k(name: &str) -> Accessor {
    Accessor::Key(name.to_string())
}

fn texts(patterns: Vec<(&String, Range)>) -> Vec<String> {
    patterns.into_iter().map(|(s, _)| s.clone()).collect()
}

fn cargo_workspace() -> Value {
    t(0, vec![(
        key("workspace", 0),
        t(0, vec![
            (key("members", 1), a(1, vec![s("crates/*", 1), Value::Other { range: r(1, 20, 21) }, s("tools/cli", 1)])),
            (key("exclude", 2), a(2, vec![s("crates/legacy", 2)])),
            (key("dependencies", 3), t(3, vec![
                (key("serde", 4), s("1.0", 4)),
                (key("local", 5), t(5, vec![(key("path", 5), s("crates/local", 5))])),
            ])),
        ]),
    )])
}

#[test]
fn member_patterns_follow_the_path() {
    let workspace = cargo_workspace();
    assert_eq!(texts(extract_member_patterns(&workspace, &[k("workspace")], "members")), vec!["crates/*", "tools/cli"]);
    let one = extract_member_patterns(&workspace, &[k("workspace"), k("members"), Accessor::Index(2)], "members");
    assert_eq!(one.len(), 1);
    assert_eq!(one[0].0, "tools/cli");
    assert_eq!(one[0].1, r(1, 4, 15));
    assert!(extract_member_patterns(&workspace, &[k("workspace"), k("members"), Accessor::Index(1)], "members").is_empty());
    assert_eq!(texts(extract_exclude_patterns(&workspace)), vec!["crates/legacy"]);
    assert!(extract_member_patterns(&workspace, &[k("workspace")], "default-members").is_empty());
}

#[test]
fn uv_member_patterns_live_under_tool_uv() {
    let workspace = t(0, vec![(
        key("tool", 0),
        t(0, vec![(key("uv", 0), t(0, vec![(
            key("workspace", 1),
            t(1, vec![
                (key("members", 2), a(2, vec![s("packages/*", 2)])),
                (key("exclude", 3), a(3, vec![s("packages/old", 3)])),
            ]),
        )]))]),
    )]);
    assert_eq!(texts(extract_uv_member_patterns(&workspace, &[k("project")])), vec!["packages/*"]);
    assert_eq!(texts(extract_uv_exclude_patterns(&workspace)), vec!["packages/old"]);
}

#[test]
fn exclude_patterns_are_globs() {
    let legacy = "/w/crates/legacy/*".to_string();
    let other = "/w/crates/other/*".to_string();
    let invalid = "/w/**x".to_string();
    assert!(is_excluded("/w/crates/legacy/Cargo.toml", &[&legacy]));
    assert!(!is_excluded("/w/crates/legacy/Cargo.toml", &[&other]));
    assert!(!is_excluded("/w/crates/legacy/Cargo.toml", &[&invalid]));
    assert!(is_excluded("/w/crates/legacy/Cargo.toml", &[&invalid, &other, &legacy]));
    assert!(!is_excluded("/w/crates/legacy/Cargo.toml", &[]));
}

#[test]
fn workspace_definition_finds_the_inherited_entry() {
    let workspace = cargo_workspace();
    // [dev-dependencies] serde.workspace = true
    let (key, subcrate) = workspace_definition(&[k("dev-dependencies"), k("serde"), k("workspace")], &workspace, true).unwrap();
    assert_eq!(key.value, "serde");
    assert_eq!(key.range, r(4, 0, 5));
    assert!(subcrate.is_none());
    // A path dependency can be followed to its own manifest.
    let (key, subcrate) = workspace_definition(&[k("target"), k("cfg(unix)"), k("dependencies"), k("local"), k("workspace")], &workspace, true).unwrap();
    assert_eq!(key.value, "local");
    assert_eq!(subcrate.map(|s| s.as_str()), Some("crates/local"));
    let (_, subcrate) = workspace_definition(&[k("dependencies"), k("local"), k("workspace")], &workspace, false).unwrap();
    assert!(subcrate.is_none());
    // [package] version.workspace = true leads to workspace.package.version.
    assert!(workspace_definition(&[k("package"), k("version"), k("workspace")], &workspace, true).is_none());
    assert!(workspace_definition(&[Accessor::Index(0)], &workspace, true).is_none());
    assert!(workspace_definition(&[k("dependencies"), k("missing"), k("workspace")], &workspace, true).is_none());
}
