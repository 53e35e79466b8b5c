//! "Inherit Dependency from Workspace" on a dependency of a workspace member: the entry
//! becomes `{ workspace = true }`, and where the workspace entry switches default features
//! off, the default features that the member relied on are listed in its `features`.
//!
//! What needs other files (the lockfile, the manifest of a path dependency) is looked up by
//! the caller and handed over; so are the texts of values as the document prints them, and
//! the layout of a `features` array in the source.

use vstd::prelude::*;
use vstd::string::StringExecFns;

use crate::accessor::{dig_accessors, dig_path, key_any, matches_accessors, matches_pattern, pattern_view, target_pattern, Accessor};
use crate::cargo_code_action::{
    feature_values_text, render_inherited_dependency_string, render_inherited_dependency_table_version,
    render_feature_values, CodeAction, CodeActionRefactorRewriteName, TextEdit,
};
use crate::dependency_link::{cover, covering};
use crate::document::{dig, dig_value, string_text, table_entry, table_get, Key, Position, Range, TableKind, Value};
use crate::inlay::{
    collect_feature_names, default_features_disabled, dependency_package_name, lemma_missing_features,
    dependency_table_default_features_disabled, missing_features, package_name_of, string_items,
};
use crate::order::{contains_text, texts};
use crate::text::{debug_quoted, join_texts, joined, push_char, quote_all, quoted_all, str_eq};

verus! {

/// The version of a package's manifest, where the workspace manifest is at hand: written
/// out, or inherited with `version.workspace = true` from `[workspace.package]` of the
/// workspace manifest.
pub open spec fn manifest_version_of(document: Value, workspace_document: Value) -> Option<Seq<char>> {
    match dig_value(document, seq!["package"@, "version"@]) {
        Some(Value::String { value, .. }) => Some(value@),
        Some(Value::Table { .. }) => {
            let t = dig_value(document, seq!["package"@, "version"@]).unwrap();
            if table_get(t, "workspace"@) matches Some(Value::Boolean { value: true, .. }) {
                string_text(dig_value(workspace_document, seq!["workspace"@, "package"@, "version"@]))
            } else {
                None
            }
        },
        _ => None,
    }
}

/// The string at a path of keys.
fn string_at<'a>(document: &'a Value, keys: &[&str]) -> (r: Option<&'a String>)
    ensures
        match string_text(dig_value(*document, crate::document::key_views(keys@))) {
            Some(t) => r matches Some(s) && s@ == t,
            None => r is None,
        },
{
    match crate::document::dig_keys(document, keys) {
        Some((_, Value::String { value, .. })) => Some(value),
        _ => None,
    }
}

/// The version of a package's manifest; see `manifest_version_of`.
pub fn manifest_version<'a>(document: &'a Value, workspace_document: &'a Value) -> (r: Option<&'a String>)
    ensures
        match manifest_version_of(*document, *workspace_document) {
            Some(t) => r matches Some(s) && s@ == t,
            None => r is None,
        },
{
    let keys = ["package", "version"];
    assert(crate::document::key_views(keys@) =~= seq!["package"@, "version"@]);
    let version = match crate::document::dig_keys(document, &keys) {
        Some((_, v)) => v,
        None => return None,
    };
    match version {
        Value::String { value, .. } => Some(value),
        Value::Table { .. } => match version.get("workspace") {
            Some(Value::Boolean { value: true, .. }) => {
                let ws_keys = ["workspace", "package", "version"];
                assert(crate::document::key_views(ws_keys@) =~= seq!["workspace"@, "package"@, "version"@]);
                string_at(workspace_document, &ws_keys)
            },
            _ => None,
        },
        _ => None,
    }
}

/// The default features of a path dependency of the workspace, read from its manifest
/// (`manifest`, where the caller could load the one that its `path` leads to): only where
/// that manifest's package is the one the entry names and its version is
/// `resolved_version`, and only where `features.default` lists some.
pub open spec fn workspace_default_features_of(
    crate_name: Seq<char>,
    workspace_entry: Value,
    manifest: Option<Value>,
    workspace_document: Value,
    resolved_version: Seq<char>,
) -> Option<Seq<Seq<char>>> {
    if string_text(table_get(workspace_entry, "path"@)) is None {
        None
    } else {
        match manifest {
            Some(m) => match string_text(dig_value(m, seq!["package"@, "name"@])) {
                Some(name) => if name != package_name_of(crate_name, workspace_entry) {
                    None
                } else {
                    match manifest_version_of(m, workspace_document) {
                        Some(version) => if version != resolved_version {
                            None
                        } else {
                            match dig_value(m, seq!["features"@, "default"@]) {
                                Some(Value::Array { values, .. }) => if string_items(values@).len() > 0 {
                                    Some(string_items(values@))
                                } else {
                                    None
                                },
                                _ => None,
                            }
                        },
                        None => None,
                    }
                },
                None => None,
            },
            None => None,
        }
    }
}

/// The default features of a path dependency of the workspace at `resolved_version`.
pub fn workspace_dependency_default_features(
    crate_name: &str,
    workspace_entry: &Value,
    manifest: Option<&Value>,
    workspace_document: &Value,
    resolved_version: &str,
) -> (r: Option<Vec<String>>)
    ensures
        match workspace_default_features_of(
            crate_name@,
            *workspace_entry,
            match manifest {
                Some(m) => Some(*m),
                None => None,
            },
            *workspace_document,
            resolved_version@,
        ) {
            Some(d) => r matches Some(v) && texts(v@) == d,
            None => r is None,
        },
{
    if workspace_entry.get_string("path").is_none() {
        return None;
    }
    let m = match manifest {
        Some(m) => m,
        None => return None,
    };
    let name_keys = ["package", "name"];
    assert(crate::document::key_views(name_keys@) =~= seq!["package"@, "name"@]);
    let name = match string_at(m, &name_keys) {
        Some(n) => n,
        None => return None,
    };
    if !str_eq(name.as_str(), dependency_package_name(crate_name, workspace_entry)) {
        return None;
    }
    let version = match manifest_version(m, workspace_document) {
        Some(v) => v,
        None => return None,
    };
    if !str_eq(version.as_str(), resolved_version) {
        return None;
    }
    let default_keys = ["features", "default"];
    assert(crate::document::key_views(default_keys@) =~= seq!["features"@, "default"@]);
    match crate::document::dig_keys(m, &default_keys) {
        Some((_, features)) => match features {
            Value::Array { .. } => {
                let names = collect_feature_names(features);
                if names.len() > 0 {
                    Some(names)
                } else {
                    None
                }
            },
            _ => None,
        },
        None => None,
    }
}

/// The features that a dependency table lists.
pub open spec fn listed_features(dependency_table: Option<Value>) -> Seq<Seq<char>> {
    match dependency_table {
        Some(t) => match table_get(t, "features"@) {
            Some(Value::Array { values, .. }) => string_items(values@),
            _ => Seq::empty(),
        },
        None => Seq::empty(),
    }
}

/// The default features that inheriting `crate_name` from the workspace would drop: where
/// the member's own table does not switch default features off but the workspace entry
/// does, those of `default_features` (the default features of the resolved version, where
/// the caller could look them up) that the member does not list, in order.
pub open spec fn feature_additions(
    dependency_table: Option<Value>,
    crate_name: Seq<char>,
    workspace_document: Value,
    default_features: Option<Seq<Seq<char>>>,
) -> Seq<Seq<char>> {
    if dependency_table matches Some(t) && default_features_disabled(t) {
        Seq::empty()
    } else {
        match dig_value(workspace_document, seq!["workspace"@, "dependencies"@, crate_name]) {
            Some(entry) => if entry is Table && default_features_disabled(entry) {
                match default_features {
                    Some(d) => missing_features(d, listed_features(dependency_table)),
                    None => Seq::empty(),
                }
            } else {
                Seq::empty()
            },
            None => Seq::empty(),
        }
    }
}

/// Whether `f` is one of the looked-up default features.
pub open spec fn is_default_feature(default_features: Option<Seq<Seq<char>>>, f: Seq<char>) -> bool {
    match default_features {
        Some(d) => d.contains(f),
        None => false,
    }
}

/// Whether inheriting drops the default features: the member's own table keeps them and
/// the workspace entry switches them off.
pub open spec fn inheriting_drops_defaults(dependency_table: Option<Value>, crate_name: Seq<char>, workspace_document: Value) -> bool {
    let kept_by_member = match dependency_table {
        Some(t) => !default_features_disabled(t),
        None => true,
    };
    kept_by_member && match dig_value(workspace_document, seq!["workspace"@, "dependencies"@, crate_name]) {
        Some(entry) => entry is Table && default_features_disabled(entry),
        None => false,
    }
}

/// Inheriting a dependency adds only default features of the dependency, never one that
/// the member already lists; and where inheriting drops the default features, it adds
/// every default feature that the member does not list.
pub proof fn lemma_feature_additions(
    dependency_table: Option<Value>,
    crate_name: Seq<char>,
    workspace_document: Value,
    default_features: Option<Seq<Seq<char>>>,
)
    ensures
        forall|f: Seq<char>|
            #![trigger feature_additions(dependency_table, crate_name, workspace_document, default_features).contains(f)]
            feature_additions(dependency_table, crate_name, workspace_document, default_features).contains(f) ==> (
            is_default_feature(default_features, f) && !listed_features(dependency_table).contains(f)),
        inheriting_drops_defaults(dependency_table, crate_name, workspace_document) ==> forall|f: Seq<char>|
            #![trigger feature_additions(dependency_table, crate_name, workspace_document, default_features).contains(f)]
            (is_default_feature(default_features, f) && !listed_features(dependency_table).contains(f))
                ==> feature_additions(dependency_table, crate_name, workspace_document, default_features).contains(f),
{
    match default_features {
        Some(d) => lemma_missing_features(d, listed_features(dependency_table)),
        None => {},
    }
}

pub open spec fn option_value(v: Option<&Value>) -> Option<Value> {
    match v {
        Some(x) => Some(*x),
        None => None,
    }
}

pub open spec fn option_texts(v: Option<&[String]>) -> Option<Seq<Seq<char>>> {
    match v {
        Some(x) => Some(texts(x@)),
        None => None,
    }
}

/// The default features that inheriting `crate_name` from the workspace would drop; see
/// `feature_additions`.
pub fn inherited_default_feature_additions(
    dependency_table: Option<&Value>,
    crate_name: &str,
    workspace_document: &Value,
    default_features: Option<&[String]>,
) -> (r: Vec<String>)
    ensures
        texts(r@) == feature_additions(
            option_value(dependency_table),
            crate_name@,
            *workspace_document,
            option_texts(default_features),
        ),
{
    let mut r: Vec<String> = Vec::new();
    match dependency_table {
        Some(t) => if dependency_table_default_features_disabled(t) {
            assert(texts(r@) =~= Seq::<Seq<char>>::empty());
            return r;
        },
        None => {},
    }
    let keys = ["workspace", "dependencies", crate_name];
    assert(crate::document::key_views(keys@) =~= seq!["workspace"@, "dependencies"@, crate_name@]);
    let entry = match crate::document::dig_keys(workspace_document, &keys) {
        Some((_, e)) => e,
        None => {
            assert(texts(r@) =~= Seq::<Seq<char>>::empty());
            return r;
        },
    };
    match entry {
        Value::Table { .. } => {},
        _ => {
            assert(texts(r@) =~= Seq::<Seq<char>>::empty());
            return r;
        },
    }
    if !dependency_table_default_features_disabled(entry) {
        assert(texts(r@) =~= Seq::<Seq<char>>::empty());
        return r;
    }
    let defaults = match default_features {
        Some(d) => d,
        None => {
            assert(texts(r@) =~= Seq::<Seq<char>>::empty());
            return r;
        },
    };
    let existing: Vec<String> = match dependency_table {
        Some(t) => match t.get("features") {
            Some(features) => match features {
                Value::Array { .. } => collect_feature_names(features),
                _ => Vec::new(),
            },
            None => Vec::new(),
        },
        None => Vec::new(),
    };
    assert(texts(existing@) =~= listed_features(option_value(dependency_table)));
    let ghost d = texts(defaults@);
    let n = defaults.len();
    let mut i: usize = 0;
    assert(texts(r@) =~= missing_features(d.take(0), texts(existing@)));
    while i < n
        invariant
            n == defaults@.len(),
            d == texts(defaults@),
            0 <= i <= n,
            texts(r@) == missing_features(d.take(i as int), texts(existing@)),
        decreases n - i,
    {
        assert(d.take(i + 1).drop_last() =~= d.take(i as int));
        assert(d.take(i + 1).last() == d[i as int]);
        if !contains_text(&existing, defaults[i].as_str()) {
            r.push(defaults[i].clone());
            assert(texts(r@) =~= missing_features(d.take(i + 1), texts(existing@)));
        }
        i = i + 1;
    }
    assert(d.take(n as int) =~= d);
    r
}

/// A features array extended by `additions`: the items as printed, then each addition
/// quoted.
pub open spec fn feature_array_text(items: Seq<Seq<char>>, additions: Seq<Seq<char>>) -> Seq<char> {
    "["@ + joined(items + quoted_texts(additions), ", "@) + "]"@
}

/// Each text as `{:?}` prints it.
pub open spec fn quoted_texts(items: Seq<Seq<char>>) -> Seq<Seq<char>> {
    items.map_values(|s: Seq<char>| debug_quoted(s))
}

/// A list of features as a TOML array.
pub open spec fn values_text(items: Seq<Seq<char>>) -> Seq<char> {
    "["@ + joined(items.map_values(|s: Seq<char>| ""@ + debug_quoted(s)), ", "@) + "]"@
}

proof fn lemma_quoted(v: Seq<String>)
    ensures
        quoted_all(v) == quoted_texts(texts(v)),
        feature_values_text(v) == values_text(texts(v)),
{
    assert(quoted_all(v) =~= quoted_texts(texts(v)));
    assert(v.map_values(|s: String| ""@ + debug_quoted(s@)) =~= texts(v).map_values(
        |s: Seq<char>| ""@ + debug_quoted(s),
    ));
}

/// Renders a features array extended by `additions`; `items` are its values as the
/// document prints them.
pub fn render_feature_array(items: &[String], additions: &[String]) -> (r: String)
    ensures
        r@ == feature_array_text(items@.map_values(|s: String| s@), texts(additions@)),
{
    proof { lemma_quoted(additions@); }
    let mut parts: Vec<String> = Vec::new();
    let n = items.len();
    let mut i: usize = 0;
    while i < n
        invariant
            n == items@.len(),
            0 <= i <= n,
            parts@.map_values(|s: String| s@) == items@.map_values(|s: String| s@).take(i as int),
        decreases n - i,
    {
        let ghost before = parts@;
        parts.push(items[i].clone());
        assert(parts@.map_values(|s: String| s@) =~= before.map_values(|s: String| s@).push(items@[i as int]@));
        assert(items@.map_values(|s: String| s@).take(i + 1) =~= items@.map_values(|s: String| s@).take(i as int).push(
            items@[i as int]@,
        ));
        i = i + 1;
    }
    assert(items@.map_values(|s: String| s@).take(n as int) =~= items@.map_values(|s: String| s@));
    let mut quoted = quote_all(additions);
    let ghost first = parts@;
    let ghost second = quoted@;
    parts.append(&mut quoted);
    assert(parts@.map_values(|s: String| s@) =~= first.map_values(|s: String| s@) + second.map_values(|s: String| s@));
    let mut r = String::from_str("[");
    let inner = join_texts(parts.as_slice(), ", ");
    r.append(inner.as_str());
    r.append("]");
    r
}

/// Whether a table's entries include one under `key`.
pub open spec fn has_entry(entries: Seq<(Key, Value)>, key: Seq<char>) -> bool {
    exists|i: int| 0 <= i < entries.len() && #[trigger] entries[i].0.value@ == key
}

/// The entries of the inline table that inherits the first `n` entries of a dependency
/// table: `workspace = true`, then each entry but `version` and `workspace` as printed
/// (`rendered[i]` is how the document prints the value of entry `i`), a features array
/// extended by `additions` (`feature_items` are its values as printed).
pub open spec fn inline_entries(
    entries: Seq<(Key, Value)>,
    rendered: Seq<Seq<char>>,
    feature_items: Seq<Seq<char>>,
    additions: Seq<Seq<char>>,
    n: nat,
) -> Seq<Seq<char>>
    decreases n,
{
    if n == 0 {
        seq!["workspace = true"@]
    } else {
        let rest = inline_entries(entries, rendered, feature_items, additions, (n - 1) as nat);
        let name = entries[n - 1].0.value@;
        if name == "version"@ || name == "workspace"@ {
            rest
        } else if name == "features"@ {
            if entries[n - 1].1 is Array {
                rest.push("features = "@ + feature_array_text(feature_items, additions))
            } else {
                rest.push("features = "@ + rendered[n - 1])
            }
        } else {
            rest.push(name + " = "@ + rendered[n - 1])
        }
    }
}

/// The inline table that inherits a dependency table from the workspace, keeping its other
/// entries, with a `features` entry added for `additions` where it has none.
pub open spec fn inline_table_text(
    crate_name: Seq<char>,
    entries: Seq<(Key, Value)>,
    rendered: Seq<Seq<char>>,
    feature_items: Seq<Seq<char>>,
    additions: Seq<Seq<char>>,
) -> Seq<char> {
    let kept = inline_entries(entries, rendered, feature_items, additions, entries.len());
    let all = if !has_entry(entries, "features"@) && additions.len() > 0 {
        kept.push("features = "@ + values_text(additions))
    } else {
        kept
    };
    crate_name + " = { "@ + joined(all, ", "@) + " }"@
}

/// The entries of a table value.
pub open spec fn entries_of(table: Value) -> Seq<(Key, Value)> {
    match table {
        Value::Table { entries, .. } => entries@,
        _ => Seq::empty(),
    }
}

/// Renders the inline table that inherits `table` from the workspace; `rendered` holds
/// how the document prints the value of each entry, and `feature_items` how it prints
/// each value of the `features` array.
pub fn render_inherited_dependency_inline_table(
    crate_name: &str,
    table: &Value,
    rendered: &[String],
    feature_items: &[String],
    additions: &[String],
) -> (r: String)
    requires
        rendered@.len() == entries_of(*table).len(),
    ensures
        r@ == inline_table_text(
            crate_name@,
            entries_of(*table),
            rendered@.map_values(|s: String| s@),
            feature_items@.map_values(|s: String| s@),
            texts(additions@),
        ),
{
    proof {
        lemma_quoted(additions@);
        reveal_strlit("features");
        reveal_strlit("version");
        reveal_strlit("workspace");
        assert("features"@[0] != "version"@[0]);
        assert("features"@[0] != "workspace"@[0]);
    }
    let ghost es = entries_of(*table);
    let ghost rs = rendered@.map_values(|s: String| s@);
    let ghost fs = feature_items@.map_values(|s: String| s@);
    let mut parts: Vec<String> = Vec::new();
    parts.push(String::from_str("workspace = true"));
    let mut has_features = false;
    let empty: Vec<(Key, Value)> = Vec::new();
    let entries = match table {
        Value::Table { entries, .. } => entries,
        _ => &empty,
    };
    assert(entries@ == es);
    let n = entries.len();
    let mut i: usize = 0;
    assert(parts@.map_values(|s: String| s@) =~= inline_entries(es, rs, fs, texts(additions@), 0));
    while i < n
        invariant
            n == es.len(),
            entries@ == es,
            rs == rendered@.map_values(|s: String| s@),
            fs == feature_items@.map_values(|s: String| s@),
            rendered@.len() == n,
            0 <= i <= n,
            parts@.map_values(|s: String| s@) == inline_entries(es, rs, fs, texts(additions@), i as nat),
            has_features == has_entry(es.take(i as int), "features"@),
            "features"@ != "version"@,
            "features"@ != "workspace"@,
        decreases n - i,
    {
        let ghost before = parts@;
        let (key, value) = &entries[i];
        let name = key.value.as_str();
        if str_eq(name, "version") || str_eq(name, "workspace") {
        } else if str_eq(name, "features") {
            has_features = true;
            let mut text = String::from_str("features = ");
            match value {
                Value::Array { .. } => {
                    let array = render_feature_array(feature_items, additions);
                    text.append(array.as_str());
                },
                _ => {
                    text.append(rendered[i].as_str());
                },
            }
            parts.push(text);
        } else {
            let mut text = String::from_str(name);
            text.append(" = ");
            text.append(rendered[i].as_str());
            parts.push(text);
        }
        assert(parts@.map_values(|s: String| s@) =~= inline_entries(es, rs, fs, texts(additions@), (i + 1) as nat));
        proof {
            let t1 = es.take(i + 1);
            let t0 = es.take(i as int);
            if es[i as int].0.value@ == "features"@ {
                assert(t1[i as int].0.value@ == "features"@);
                assert(has_entry(t1, "features"@));
            } else {
                if has_entry(t1, "features"@) {
                    let k = choose|k: int| 0 <= k < t1.len() && #[trigger] t1[k].0.value@ == "features"@;
                    assert(k < i);
                    assert(t0[k] == t1[k]);
                    assert(t0[k].0.value@ == "features"@);
                    assert(has_entry(t0, "features"@));
                }
                if has_entry(t0, "features"@) {
                    let k = choose|k: int| 0 <= k < t0.len() && #[trigger] t0[k].0.value@ == "features"@;
                    assert(t0[k] == t1[k]);
                    assert(t1[k].0.value@ == "features"@);
                    assert(has_entry(t1, "features"@));
                }
            }
        }
        i = i + 1;
    }
    assert(es.take(n as int) =~= es);
    let ghost kept = inline_entries(es, rs, fs, texts(additions@), es.len());
    assert(parts@.map_values(|s: String| s@) == kept);
    if !has_features && additions.len() > 0 {
        let mut text = String::from_str("features = ");
        let values = render_feature_values(additions);
        text.append(values.as_str());
        parts.push(text);
        assert(parts@.map_values(|s: String| s@) =~= kept.push("features = "@ + values_text(texts(additions@))));
    }
    let mut r = String::from_str(crate_name);
    r.append(" = { ");
    let inner = join_texts(parts.as_slice(), ", ");
    r.append(inner.as_str());
    r.append(" }");
    r
}

/// Where a `features` array stands in the source: where its `[` ends, the span of its last
/// value and of the comma after that value (where there is a value), and whether it is laid
/// out one value per line.
#[derive(Debug, Clone, Copy)]
pub struct ArrayLayout {
    pub bracket_start_end: Option<Position>,
    pub last_value: Option<(Range, Option<Range>)>,
    pub multiline: bool,
}

/// `n` spaces.
pub open spec fn spaces(n: nat) -> Seq<char> {
    Seq::new(n, |i: int| ' ')
}

/// Each item on a line of its own after `indent`, followed by a comma.
pub open spec fn indented_lines(items: Seq<Seq<char>>, indent: Seq<char>) -> Seq<char>
    decreases items.len(),
{
    if items.len() == 0 {
        Seq::empty()
    } else {
        indented_lines(items.drop_last(), indent) + seq!['\n'] + indent + items.last() + seq![',']
    }
}

/// Where and what to insert to add `additions` to the end of a features array: right after
/// `[` in an empty array; else after the last value (or its comma), one per line indented
/// as the last value where the array is multi-line, else on the same line.
pub open spec fn feature_append(layout: ArrayLayout, additions: Seq<Seq<char>>) -> Option<(Position, Seq<char>)> {
    let quoted = quoted_texts(additions);
    match layout.last_value {
        None => match layout.bracket_start_end {
            Some(p) => Some((p, joined(quoted, ", "@))),
            None => None,
        },
        Some((value, comma)) => {
            let at = match comma {
                Some(c) => c.end,
                None => value.end,
            };
            if layout.multiline {
                Some(
                    (
                        at,
                        (if comma is Some {
                            Seq::empty()
                        } else {
                            seq![',']
                        }) + indented_lines(quoted, spaces(value.start.column as nat)),
                    ),
                )
            } else {
                Some(
                    (
                        at,
                        (if comma is Some {
                            seq![' ']
                        } else {
                            seq![',', ' ']
                        }) + joined(quoted, ", "@),
                    ),
                )
            }
        },
    }
}

/// Where and what to insert to add `additions` to the end of a features array; see
/// `feature_append`.
pub fn calculate_feature_array_append(layout: &ArrayLayout, additions: &[String]) -> (r: Option<(Position, String)>)
    ensures
        match feature_append(*layout, texts(additions@)) {
            Some((p, text)) => r matches Some(x) && x.0 == p && x.1@ == text,
            None => r is None,
        },
{
    proof { lemma_quoted(additions@); }
    let quoted = quote_all(additions);
    match layout.last_value {
        None => match layout.bracket_start_end {
            Some(p) => Some((p, join_texts(quoted.as_slice(), ", "))),
            None => None,
        },
        Some((value, comma)) => {
            let at = match comma {
                Some(c) => c.end,
                None => value.end,
            };
            let mut text = String::new();
            if layout.multiline {
                if comma.is_none() {
                    push_char(&mut text, ',');
                }
                let ghost head = text@;
                let mut indent = String::new();
                let columns = value.start.column;
                let mut k: u32 = 0;
                while k < columns
                    invariant
                        0 <= k <= columns,
                        indent@ =~= spaces(k as nat),
                    decreases columns - k,
                {
                    push_char(&mut indent, ' ');
                    k = k + 1;
                }
                let ghost qs = quoted@.map_values(|s: String| s@);
                let n = quoted.len();
                let mut i: usize = 0;
                assert(head + indented_lines(qs.take(0), indent@) =~= head);
                while i < n
                    invariant
                        n == quoted@.len(),
                        qs == quoted@.map_values(|s: String| s@),
                        0 <= i <= n,
                        text@ == head + indented_lines(qs.take(i as int), indent@),
                    decreases n - i,
                {
                    assert(qs.take(i + 1).drop_last() =~= qs.take(i as int));
                    assert(qs.take(i + 1).last() == qs[i as int]);
                    push_char(&mut text, '\n');
                    text.append(indent.as_str());
                    text.append(quoted[i].as_str());
                    push_char(&mut text, ',');
                    assert(text@ =~= head + indented_lines(qs.take(i + 1), indent@));
                    i = i + 1;
                }
                assert(qs.take(n as int) =~= qs);
            } else {
                if comma.is_none() {
                    push_char(&mut text, ',');
                }
                push_char(&mut text, ' ');
                let joined_text = join_texts(quoted.as_slice(), ", ");
                text.append(joined_text.as_str());
            }
            Some((at, text))
        },
    }
}

/// Whether a path starts at an entry of `[dependencies]`, `[dev-dependencies]` or
/// `[build-dependencies]`.
pub open spec fn plain_dependency_prefix(a: Seq<Accessor>) -> bool {
    a.len() >= 2 && (matches_pattern(a.take(2), key_any("dependencies"@)) || matches_pattern(
        a.take(2),
        key_any("dev-dependencies"@),
    ) || matches_pattern(a.take(2), key_any("build-dependencies"@)))
}

/// Whether a path starts at an entry of a dependency table of `[target.<cfg>]`.
pub open spec fn target_dependency_prefix(a: Seq<Accessor>) -> bool {
    a.len() >= 4 && (matches_pattern(a.take(4), target_pattern("dependencies"@)) || matches_pattern(
        a.take(4),
        target_pattern("dev-dependencies"@),
    ) || matches_pattern(a.take(4), target_pattern("build-dependencies"@)))
}

/// How many accessors lead to the dependency entry.
pub open spec fn entry_path_len(a: Seq<Accessor>) -> int {
    if target_dependency_prefix(a) {
        4
    } else {
        2
    }
}

/// The line that makes a dependency written as a version string inherit from the
/// workspace.
pub open spec fn inherited_string_text(crate_name: Seq<char>, additions: Seq<Seq<char>>) -> Seq<char> {
    if additions.len() == 0 {
        crate_name + " = { workspace = true }"@
    } else {
        crate_name + " = { workspace = true, features = "@ + values_text(additions) + " }"@
    }
}

/// What replaces `version = ..` in a `[dependencies.name]` table.
pub open spec fn table_version_text(has_feature_array: bool, additions: Seq<Seq<char>>) -> Seq<char> {
    if !has_feature_array && additions.len() > 0 {
        "workspace = true\nfeatures = "@ + values_text(additions)
    } else {
        "workspace = true"@
    }
}

/// The edits of "Inherit Dependency from Workspace" on the dependency entry that
/// `accessors` start at, where the workspace lists it in `[workspace.dependencies]`:
/// - a version string: the key and the string become the inline table
///   `name = { workspace = true }`, listing the `feature_additions`;
/// - a dotted-key or inline table with a `version` and no `workspace`: the key and the
///   table become an inline table that inherits and keeps the other entries;
/// - a `[dependencies.name]` table with a `version` and no `workspace`: `version = ..`
///   becomes `workspace = true`, and the additions go into its `features` (appended to the
///   array, whose `layout` the caller reads from the source, or on a line of their own).
/// `key_ranges[i]` is the span of the key at `accessors[i]`; `rendered` and
/// `feature_items` are as for `inline_table_text`.
pub open spec fn inherit_dependency_edits(
    document: Value,
    accessors: Seq<Accessor>,
    key_ranges: Seq<Option<Range>>,
    workspace_document: Value,
    default_features: Option<Seq<Seq<char>>>,
    rendered: Seq<Seq<char>>,
    feature_items: Seq<Seq<char>>,
    layout: Option<ArrayLayout>,
) -> Option<Seq<(Range, Seq<char>)>> {
    if !(plain_dependency_prefix(accessors) || target_dependency_prefix(accessors)) {
        None
    } else {
        let len = entry_path_len(accessors);
        match (accessors[len - 1], key_ranges[len - 1], dig_path(document, accessors.take(len))) {
            (Accessor::Key(crate_name), Some(key_range), Some(value)) => if dig(
                workspace_document,
                seq!["workspace"@, "dependencies"@, crate_name@],
            ) is None {
                None
            } else {
                match value {
                    Value::String { range, .. } => Some(
                        seq![
                            (
                                Range { start: key_range.start, end: range.end },
                                inherited_string_text(
                                    crate_name@,
                                    feature_additions(None, crate_name@, workspace_document, default_features),
                                ),
                            ),
                        ],
                    ),
                    Value::Table { range, kind, .. } => if table_entry(value, "workspace"@) is Some {
                        None
                    } else {
                        match table_entry(value, "version"@) {
                            Some((version_key, version)) => {
                                let additions = feature_additions(
                                    Some(value),
                                    crate_name@,
                                    workspace_document,
                                    default_features,
                                );
                                if kind == TableKind::KeyValue || kind == TableKind::InlineTable {
                                    Some(
                                        seq![
                                            (
                                                covering(key_range, range),
                                                inline_table_text(
                                                    crate_name@,
                                                    entries_of(value),
                                                    rendered,
                                                    feature_items,
                                                    additions,
                                                ),
                                            ),
                                        ],
                                    )
                                } else {
                                    let has_array = table_get(value, "features"@) matches Some(Value::Array { .. });
                                    let first = (
                                        covering(version_key.range, version.span()),
                                        table_version_text(has_array, additions),
                                    );
                                    if additions.len() > 0 && has_array {
                                        match layout {
                                            Some(l) => match feature_append(l, additions) {
                                                Some((p, text)) => Some(
                                                    seq![first, (Range { start: p, end: p }, text)],
                                                ),
                                                None => None,
                                            },
                                            None => None,
                                        }
                                    } else {
                                        Some(seq![first])
                                    }
                                }
                            },
                            None => None,
                        }
                    },
                    _ => None,
                }
            },
            _ => None,
        }
    }
}

pub open spec fn edits_view(edits: Seq<TextEdit>) -> Seq<(Range, Seq<char>)> {
    edits.map_values(|e: TextEdit| (e.range, e.new_text@))
}

/// Whether the path starts at a dependency entry; see `plain_dependency_prefix`.
fn has_plain_dependency_prefix(accessors: &[Accessor]) -> (r: bool)
    ensures
        r == plain_dependency_prefix(accessors@),
{
    if accessors.len() < 2 {
        return false;
    }
    let head = vstd::slice::slice_subrange(accessors, 0, 2);
    assert(head@ =~= accessors@.take(2));
    let a = [Some("dependencies"), None];
    let b = [Some("dev-dependencies"), None];
    let c = [Some("build-dependencies"), None];
    assert(pattern_view(a@) =~= key_any("dependencies"@));
    assert(pattern_view(b@) =~= key_any("dev-dependencies"@));
    assert(pattern_view(c@) =~= key_any("build-dependencies"@));
    matches_accessors(head, &a) || matches_accessors(head, &b) || matches_accessors(head, &c)
}

/// Whether the path starts at a dependency entry of a platform; see
/// `target_dependency_prefix`.
fn has_target_dependency_prefix(accessors: &[Accessor]) -> (r: bool)
    ensures
        r == target_dependency_prefix(accessors@),
{
    if accessors.len() < 4 {
        return false;
    }
    let head = vstd::slice::slice_subrange(accessors, 0, 4);
    assert(head@ =~= accessors@.take(4));
    let a = [Some("target"), None, Some("dependencies"), None];
    let b = [Some("target"), None, Some("dev-dependencies"), None];
    let c = [Some("target"), None, Some("build-dependencies"), None];
    assert(pattern_view(a@) =~= target_pattern("dependencies"@));
    assert(pattern_view(b@) =~= target_pattern("dev-dependencies"@));
    assert(pattern_view(c@) =~= target_pattern("build-dependencies"@));
    matches_accessors(head, &a) || matches_accessors(head, &b) || matches_accessors(head, &c)
}

/// "Inherit Dependency from Workspace" on the dependency entry that `accessors` start at;
/// see `inherit_dependency_edits`. `default_features` are the default features of the
/// workspace's version of the dependency, where the caller could look them up (see
/// `workspace_dependency_default_features`); `layout` is the layout of the entry's
/// `features` array, where the caller found it in the source.
pub fn use_workspace_dependency_code_action(
    document_tree: &Value,
    accessors: &[Accessor],
    key_ranges: &[Option<Range>],
    workspace_document_tree: &Value,
    default_features: Option<&[String]>,
    rendered: &[String],
    feature_items: &[String],
    layout: Option<&ArrayLayout>,
) -> (r: Option<CodeAction>)
    requires
        key_ranges@.len() == accessors@.len(),
        match dig_path(*document_tree, accessors@.take(entry_path_len(accessors@))) {
            Some(v) => v is Table ==> rendered@.len() == entries_of(v).len(),
            None => true,
        },
    ensures
        match inherit_dependency_edits(
            *document_tree,
            accessors@,
            key_ranges@,
            *workspace_document_tree,
            option_texts(default_features),
            rendered@.map_values(|s: String| s@),
            feature_items@.map_values(|s: String| s@),
            match layout {
                Some(l) => Some(*l),
                None => None,
            },
        ) {
            Some(edits) => r matches Some(a) && a.workspace_edits@.len() == 0 && a.title@ == CodeActionRefactorRewriteName::InheritDependencyFromWorkspace.title()
                && edits_view(a.edits@) == edits && a.disabled is None,
            None => r is None,
        },
{
    let plain = has_plain_dependency_prefix(accessors);
    let target = has_target_dependency_prefix(accessors);
    if !(plain || target) {
        return None;
    }
    let len: usize = if target {
        4
    } else {
        2
    };
    let crate_name = match &accessors[len - 1] {
        Accessor::Key(name) => name,
        Accessor::Index(_) => return None,
    };
    let key_range = match key_ranges[len - 1] {
        Some(k) => k,
        None => return None,
    };
    let head = vstd::slice::slice_subrange(accessors, 0, len);
    assert(head@ =~= accessors@.take(len as int));
    let value = match dig_accessors(document_tree, head) {
        Some(v) => v,
        None => return None,
    };
    let keys = ["workspace", "dependencies", crate_name.as_str()];
    assert(crate::document::key_views(keys@) =~= seq!["workspace"@, "dependencies"@, crate_name@]);
    if crate::document::dig_keys(workspace_document_tree, &keys).is_none() {
        return None;
    }
    let mut edits: Vec<TextEdit> = Vec::new();
    match value {
        Value::String { range, .. } => {
            let additions = inherited_default_feature_additions(None, crate_name.as_str(), workspace_document_tree, default_features);
            let text = render_inherited_dependency_string(crate_name.as_str(), additions.as_slice());
            proof { lemma_quoted(additions@); }
            edits.push(TextEdit { range: Range::new(key_range.start, range.end), new_text: text });
        },
        Value::Table { range, kind, .. } => {
            if value.contains_key("workspace") {
                return None;
            }
            let (version_key, version) = match value.get_key_value("version") {
                Some(e) => e,
                None => return None,
            };
            let additions = inherited_default_feature_additions(
                Some(value),
                crate_name.as_str(),
                workspace_document_tree,
                default_features,
            );
            proof { lemma_quoted(additions@); }
            if *kind == TableKind::KeyValue || *kind == TableKind::InlineTable {
                let text = render_inherited_dependency_inline_table(
                    crate_name.as_str(),
                    value,
                    rendered,
                    feature_items,
                    additions.as_slice(),
                );
                edits.push(TextEdit { range: cover(key_range, *range), new_text: text });
            } else {
                let has_array = match value.get("features") {
                    Some(Value::Array { .. }) => true,
                    _ => false,
                };
                let existing: Option<()> = if has_array {
                    Some(())
                } else {
                    None
                };
                let text = render_inherited_dependency_table_version(existing, additions.as_slice());
                edits.push(TextEdit { range: cover(version_key.range, version.range()), new_text: text });
                if additions.len() > 0 && has_array {
                    let l = match layout {
                        Some(l) => l,
                        None => return None,
                    };
                    match calculate_feature_array_append(l, additions.as_slice()) {
                        Some((p, text)) => {
                            edits.push(TextEdit { range: Range::at(p), new_text: text });
                        },
                        None => return None,
                    }
                }
            }
        },
        _ => return None,
    }
    Some(
        CodeAction {
            title: CodeActionRefactorRewriteName::InheritDependencyFromWorkspace.to_string(),
            edits,
            disabled: None,
            workspace_edits: Vec::new(),
        },
    )
}

} // verus!
