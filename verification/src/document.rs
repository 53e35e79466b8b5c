//! A TOML document as a tree of values, with the positions that the editor features report.
//!
//! A document is the table at its root. A table is a list of key/value entries in the order
//! in which they were written.

use vstd::prelude::*;

use crate::text::str_eq;

verus! {

/// A place in a text document: a zero-based line and a column within it.
#[derive(Debug, Clone, Copy, PartialEq, Eq, Structural, Hash)]
pub struct Position {
    pub line: u32,
    pub column: u32,
}

/// A span of a text document from `start` to `end`.
#[derive(Debug, Clone, Copy, PartialEq, Eq, Structural, Hash)]
pub struct Range {
    pub start: Position,
    pub end: Position,
}

/// Whether `a` comes no later than `b` in a document.
pub open spec fn position_le(a: Position, b: Position) -> bool {
    a.line < b.line || (a.line == b.line && a.column <= b.column)
}

/// Whether two spans share at least one position (their ends included).
pub open spec fn ranges_intersect(a: Range, b: Range) -> bool {
    position_le(a.start, b.end) && position_le(b.start, a.end)
}

impl Position {
    pub fn new(line: u32, column: u32) -> (r: Position)
        ensures
            r == (Position { line, column }),
    {
        Position { line, column }
    }

    /// Whether this position comes no later than `other`.
    pub fn le(&self, other: &Position) -> (r: bool)
        ensures
            r == position_le(*self, *other),
    {
        self.line < other.line || (self.line == other.line && self.column <= other.column)
    }
}

impl Range {
    pub fn new(start: Position, end: Position) -> (r: Range)
        ensures
            r == (Range { start, end }),
    {
        Range { start, end }
    }

    /// The empty span at one position.
    pub fn at(position: Position) -> (r: Range)
        ensures
            r == (Range { start: position, end: position }),
    {
        Range { start: position, end: position }
    }

    /// Whether the two spans share a position.
    pub fn intersects(&self, other: &Range) -> (r: bool)
        ensures
            r == ranges_intersect(*self, *other),
    {
        self.start.le(&other.end) && other.start.le(&self.end)
    }
}

/// The key of a table entry, with the span that it covers.
#[derive(Debug, Clone)]
pub struct Key {
    pub value: String,
    pub range: Range,
}

/// How a table is written.
#[derive(Debug, Clone, Copy, PartialEq, Eq, Structural)]
pub enum TableKind {
    /// The document itself.
    Root,
    /// A `[header]` table.
    Table,
    /// A table that exists only as the parent of `[parent.child]` headers.
    ParentTable,
    /// A table that exists only as the parent of a dotted key in a header.
    ParentKey,
    /// A table made by a dotted key: `a.b = 1` makes the table `a`.
    KeyValue,
    /// An inline table: `{ ... }`.
    InlineTable,
    /// An element of an array of tables (`[[name]]`).
    ArrayOfTable,
}

/// A TOML value. Numbers, dates and times are not told apart: nothing here reads them.
#[derive(Debug)]
pub enum Value {
    Boolean { value: bool, range: Range },
    String { value: String, range: Range },
    Array { values: Vec<Value>, range: Range },
    Table { entries: Vec<(Key, Value)>, range: Range, kind: TableKind },
    Other { range: Range },
    Incomplete { range: Range },
}

/// The entry of `entries` whose key is `key`; the first one where a key occurs twice.
pub open spec fn entry_of(entries: Seq<(Key, Value)>, key: Seq<char>) -> Option<(Key, Value)>
    decreases entries.len(),
{
    if entries.len() == 0 {
        None
    } else if entries[0].0.value@ == key {
        Some(entries[0])
    } else {
        entry_of(entries.drop_first(), key)
    }
}

/// The entry of a table value whose key is `key`; nothing for other values.
pub open spec fn table_entry(value: Value, key: Seq<char>) -> Option<(Key, Value)> {
    match value {
        Value::Table { entries, .. } => entry_of(entries@, key),
        _ => None,
    }
}

/// The value that a table holds under `key`.
pub open spec fn table_get(value: Value, key: Seq<char>) -> Option<Value> {
    match table_entry(value, key) {
        Some(entry) => Some(entry.1),
        None => None,
    }
}

/// The entry reached from `value` by following `keys` through nested tables.
pub open spec fn dig(value: Value, keys: Seq<Seq<char>>) -> Option<(Key, Value)>
    decreases keys.len(),
{
    if keys.len() == 0 {
        None
    } else {
        match table_entry(value, keys[0]) {
            Some(entry) => if keys.len() == 1 {
                Some(entry)
            } else {
                dig(entry.1, keys.drop_first())
            },
            None => None,
        }
    }
}

/// The value reached from `value` by following `keys`.
pub open spec fn dig_value(value: Value, keys: Seq<Seq<char>>) -> Option<Value> {
    match dig(value, keys) {
        Some(entry) => Some(entry.1),
        None => None,
    }
}

/// The text of a string value.
pub open spec fn string_text(value: Option<Value>) -> Option<Seq<char>> {
    match value {
        Some(Value::String { value, .. }) => Some(value@),
        _ => None,
    }
}

/// The views of a list of keys.
pub open spec fn key_views(keys: Seq<&str>) -> Seq<Seq<char>> {
    keys.map_values(|k: &str| k@)
}

impl Value {
    /// The span that the value covers.
    pub open spec fn span(self) -> Range {
        match self {
            Value::Boolean { range, .. } => range,
            Value::String { range, .. } => range,
            Value::Array { range, .. } => range,
            Value::Table { range, .. } => range,
            Value::Other { range } => range,
            Value::Incomplete { range } => range,
        }
    }

    pub fn range(&self) -> (r: Range)
        ensures
            r == self.span(),
    {
        match self {
            Value::Boolean { range, .. } => *range,
            Value::String { range, .. } => *range,
            Value::Array { range, .. } => *range,
            Value::Table { range, .. } => *range,
            Value::Other { range } => *range,
            Value::Incomplete { range } => *range,
        }
    }

    /// The entry whose key is `key`, where this is a table.
    pub fn get_key_value<'a>(&'a self, key: &str) -> (r: Option<(&'a Key, &'a Value)>)
        ensures
            match table_entry(*self, key@) {
                Some(entry) => r matches Some(p) && *p.0 == entry.0 && *p.1 == entry.1,
                None => r is None,
            },
    {
        match self {
            Value::Table { entries, .. } => {
                let n = entries.len();
                let mut i: usize = 0;
                assert(entries@.skip(0) =~= entries@);
                while i < n
                    invariant
                        n == entries@.len(),
                        0 <= i <= n,
                        table_entry(*self, key@) == entry_of(entries@.skip(i as int), key@),
                    decreases n - i,
                {
                    let ghost rest = entries@.skip(i as int);
                    assert(rest.drop_first() =~= entries@.skip(i + 1));
                    assert(rest[0] == entries@[i as int]);
                    if str_eq(entries[i].0.value.as_str(), key) {
                        assert(rest.len() > 0);
                        assert(entry_of(rest, key@) == Some(rest[0]));
                        return Some((&entries[i].0, &entries[i].1));
                    }
                    i = i + 1;
                }
                None
            },
            _ => None,
        }
    }

    /// The value held under `key`, where this is a table.
    pub fn get<'a>(&'a self, key: &str) -> (r: Option<&'a Value>)
        ensures
            match table_get(*self, key@) {
                Some(v) => r matches Some(x) && *x == v,
                None => r is None,
            },
    {
        match self.get_key_value(key) {
            Some((_, v)) => Some(v),
            None => None,
        }
    }

    /// Whether this is a table with an entry under `key`.
    pub fn contains_key(&self, key: &str) -> (r: bool)
        ensures
            r == (table_entry(*self, key@) is Some),
    {
        self.get_key_value(key).is_some()
    }

    /// The text of the string that this table holds under `key`.
    pub fn get_string<'a>(&'a self, key: &str) -> (r: Option<&'a String>)
        ensures
            match string_text(table_get(*self, key@)) {
                Some(t) => r matches Some(s) && s@ == t,
                None => r is None,
            },
    {
        match self.get(key) {
            Some(Value::String { value, .. }) => Some(value),
            _ => None,
        }
    }

}

/// Follows `keys[start..]` from `value` through nested tables.
fn dig_from<'a>(value: &'a Value, keys: &[&str], start: usize) -> (r: Option<(&'a Key, &'a Value)>)
    requires
        start <= keys@.len(),
    ensures
        match dig(*value, key_views(keys@.skip(start as int))) {
            Some(entry) => r matches Some(p) && *p.0 == entry.0 && *p.1 == entry.1,
            None => r is None,
        },
    decreases keys@.len() - start,
{
    let ghost ks = key_views(keys@.skip(start as int));
    if start == keys.len() {
        return None;
    }
    assert(ks[0] == keys@[start as int]@);
    match value.get_key_value(keys[start]) {
        Some((k, v)) => {
            if start + 1 == keys.len() {
                Some((k, v))
            } else {
                assert(key_views(keys@.skip(start + 1)) =~= ks.drop_first());
                dig_from(v, keys, start + 1)
            }
        },
        None => None,
    }
}

/// The entry reached from a document or value by following `keys` through nested tables.
pub fn dig_keys<'a>(value: &'a Value, keys: &[&str]) -> (r: Option<(&'a Key, &'a Value)>)
    ensures
        match dig(*value, key_views(keys@)) {
            Some(entry) => r matches Some(p) && *p.0 == entry.0 && *p.1 == entry.1,
            None => r is None,
        },
{
    assert(keys@.skip(0) =~= keys@);
    dig_from(value, keys, 0)
}

} // verus!

verus! {

/// Follows the keys of `keys` from index `start` on.
fn dig_strings_from<'a>(value: &'a Value, keys: &Vec<String>, start: usize) -> (r: Option<(&'a Key, &'a Value)>)
    requires
        start <= keys@.len(),
    ensures
        match dig(*value, keys@.skip(start as int).map_values(|k: String| k@)) {
            Some(entry) => r matches Some(p) && *p.0 == entry.0 && *p.1 == entry.1,
            None => r is None,
        },
    decreases keys@.len() - start,
{
    let ghost ks = keys@.skip(start as int).map_values(|k: String| k@);
    if start == keys.len() {
        return None;
    }
    assert(ks[0] == keys@[start as int]@);
    match value.get_key_value(keys[start].as_str()) {
        Some((k, v)) => {
            if start + 1 == keys.len() {
                Some((k, v))
            } else {
                assert(keys@.skip(start + 1).map_values(|k: String| k@) =~= ks.drop_first());
                dig_strings_from(v, keys, start + 1)
            }
        },
        None => None,
    }
}

/// The entry reached from a value by following a path of owned keys.
pub fn dig_strings<'a>(value: &'a Value, keys: &Vec<String>) -> (r: Option<(&'a Key, &'a Value)>)
    ensures
        match dig(*value, keys@.map_values(|k: String| k@)) {
            Some(entry) => r matches Some(p) && *p.0 == entry.0 && *p.1 == entry.1,
            None => r is None,
        },
{
    assert(keys@.skip(0) =~= keys@);
    dig_strings_from(value, keys, 0)
}

} // verus!
