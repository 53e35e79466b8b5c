use tombi_ext::accessor::Accessor;
use tombi_ext::document::{Key, Position, Range, TableKind, Value};
use tombi_ext::tombi_document_link::{completion_extensions, document_link_candidates, DocumentLinkToolTip};

fn r(line: u32, start: u32, end: u32) -> Range {
    Range::new(Position::new(line, start), Position::new(line, end))
}

fn key(name: &str, line: u32) -> Key {
    Key {
        value: name.to_string(),
        range: r(line, 0, name.len() as u32),
    }
}

fn s(value: &str, line: u32, column: u32) -> Value {
    Value::String {
        value: value.to_string(),
        range: r(line, column, column + value.len() as u32 + 2),
    }
}

fn t(line: u32, entries: Vec<(Key, Value)>) -> Value {
    Value::Table {
        entries,
        range: r(line, 0, 80),
        kind: TableKind::Table,
    }
}

fn a(line: u32, values: Vec<Value>) -> Value {
    Value::Array {
        values,
        range: r(line, 0, 80),
    }
}

fn k(name: &str) -> Accessor {
    Accessor::Key(name.to_string())
}

#[test]
fn catalog_and_schema_paths_are_link_candidates() {
    let document = t(
        0,
        vec![
            (
                key("schema", 1),
                t(
                    1,
                    vec![(
                        key("catalog", 1),
                        t(
                            1,
                            vec![
                                (key("path", 2), s("https://example.com/catalog.json", 2, 7)),
                                (key("paths", 3), a(3, vec![s("local.json", 3, 9), Value::Other { range: r(3, 30, 31) }])),
                            ],
                        ),
                    )],
                ),
            ),
            (
                key("schemas", 4),
                a(4, vec![t(5, vec![(key("path", 5), s("schemas/a.json", 5, 7))]), t(6, vec![(key("include", 6), a(6, vec![]))])]),
            ),
        ],
    );
    let candidates = document_link_candidates(&document);
    assert_eq!(candidates.len(), 3);
    assert_eq!(candidates[0].0, "https://example.com/catalog.json");
    assert_eq!(candidates[0].2, DocumentLinkToolTip::Catalog);
    assert_eq!(candidates[1].0, "local.json");
    assert_eq!(candidates[1].1, r(3, 10, 20));
    assert_eq!(candidates[2].0, "schemas/a.json");
    assert_eq!(candidates[2].2, DocumentLinkToolTip::Schema);
    assert!(document_link_candidates(&t(0, vec![])).is_empty());
}

#[test]
fn schema_paths_complete_json_files() {
    let catalog = vec![k("schema"), k("catalog"), k("paths"), Accessor::Index(0)];
    let schema = vec![k("schemas"), Accessor::Index(2), k("path")];
    assert_eq!(completion_extensions(&catalog, false, true, true), Some(vec!["json"]));
    assert_eq!(completion_extensions(&schema, false, true, true), Some(vec!["json"]));
    assert_eq!(completion_extensions(&schema, true, true, true), None);
    assert_eq!(completion_extensions(&schema, false, false, true), None);
    assert_eq!(completion_extensions(&schema, false, true, false), None);
    assert_eq!(completion_extensions(&[k("schemas")], false, true, true), None);
}
