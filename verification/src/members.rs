//! The member and exclude patterns of a workspace (`[workspace]` of a `Cargo.toml`,
//! `[tool.uv.workspace]` of a `pyproject.toml`), and which member manifests an exclude
//! pattern leaves out. Finding the directories that a member pattern names reads the file
//! system and is the caller's; matching a path against a pattern is the glob crate's.

use vstd::prelude::*;

use crate::accessor::{dig_accessors, dig_path, matches_accessors, matches_pattern, pattern_view, Accessor};
use crate::did_open::{sanitize_dependency_key, sanitized_dependency_key};
use crate::document::{dig, dig_value, key_views, string_text, table_get, Key, Range, Value};

verus! {

/// Whether `path` matches the glob `pattern` (with glob's default options), for texts
/// without a backslash; nothing where `pattern` is no valid glob.
pub uninterp spec fn glob_match(pattern: Seq<char>, path: Seq<char>) -> Option<bool>;

/// Whether a text holds no backslash. The glob crate takes `\` for a path separator on
/// Windows alone (where any two separators also match each other), so only for texts
/// without one does a match come out the same on every platform.
pub open spec fn slash_only(s: Seq<char>) -> bool {
    !s.contains('\\')
}

/// Compiles `pattern` with `glob::Pattern::new` and, where it is a valid glob, matches
/// `path` against it with `glob::Pattern::matches`. Where neither text holds a backslash
/// the contract names the result by `glob_match`; the glob syntax is the crate's and is
/// not stated here. Of a text with a backslash nothing is stated: the result depends on
/// the platform.
#[verifier::external_body]
fn glob_pattern_matches(pattern: &str, path: &str) -> (r: Option<bool>)
    ensures
        slash_only(pattern@) && slash_only(path@) ==> r == glob_match(pattern@, path@),
{
    glob::Pattern::new(pattern).ok().map(|compiled| compiled.matches(path))
}

/// Whether one of `patterns` is a valid glob that `path` matches.
pub open spec fn excluded_by(patterns: Seq<Seq<char>>, path: Seq<char>) -> bool {
    exists|i: int| 0 <= i < patterns.len() && glob_match(#[trigger] patterns[i], path) == Some(true)
}

/// Whether the member manifest at `manifest_path` is left out by one of the exclude
/// patterns; patterns that are no valid glob leave nothing out. Stated where neither the
/// path nor a pattern holds a backslash; otherwise the match is the platform's.
pub fn is_excluded(manifest_path: &str, exclude_patterns: &[&String]) -> (r: bool)
    ensures
        slash_only(manifest_path@) && (forall|i: int|
            0 <= i < exclude_patterns@.len() ==> slash_only(#[trigger] exclude_patterns@[i]@)) ==> r
            == excluded_by(exclude_patterns@.map_values(|s: &String| s@), manifest_path@),
{
    let ghost ps = exclude_patterns@.map_values(|s: &String| s@);
    let n = exclude_patterns.len();
    let mut i: usize = 0;
    while i < n
        invariant
            n == exclude_patterns@.len(),
            ps == exclude_patterns@.map_values(|s: &String| s@),
            0 <= i <= n,
            slash_only(manifest_path@) && (forall|k: int|
                0 <= k < exclude_patterns@.len() ==> slash_only(#[trigger] exclude_patterns@[k]@)) ==> forall|j: int|
                0 <= j < i ==> glob_match(#[trigger] ps[j], manifest_path@) != Some(true),
        decreases n - i,
    {
        if glob_pattern_matches(exclude_patterns[i].as_str(), manifest_path) == Some(true) {
            assert(slash_only(manifest_path@) && (forall|k: int|
                0 <= k < exclude_patterns@.len() ==> slash_only(#[trigger] exclude_patterns@[k]@)) ==> glob_match(
                ps[i as int],
                manifest_path@,
            ) == Some(true));
            return true;
        }
        i = i + 1;
    }
    false
}

/// The strings among `values`, with their spans, in order.
pub open spec fn string_entries(values: Seq<Value>) -> Seq<(Seq<char>, Range)>
    decreases values.len(),
{
    if values.len() == 0 {
        Seq::empty()
    } else {
        let rest = string_entries(values.drop_last());
        match values.last() {
            Value::String { value, range } => rest.push((value@, range)),
            _ => rest,
        }
    }
}

/// The strings of the array at `path`; none where there is no array.
pub open spec fn strings_at(document: Value, path: Seq<Seq<char>>) -> Seq<(Seq<char>, Range)> {
    match dig_value(document, path) {
        Some(Value::Array { values, .. }) => string_entries(values@),
        _ => Seq::empty(),
    }
}

pub open spec fn pattern_entries<'a>(v: Seq<(&'a String, Range)>) -> Seq<(Seq<char>, Range)> {
    v.map_values(|p: (&'a String, Range)| (p.0@, p.1))
}

/// The strings of the array at `path`, with their spans.
pub fn array_strings_at<'a>(document: &'a Value, path: &[&str]) -> (r: Vec<(&'a String, Range)>)
    ensures
        pattern_entries(r@) == strings_at(*document, key_views(path@)),
{
    let mut out: Vec<(&'a String, Range)> = Vec::new();
    let values = match crate::document::dig_keys(document, path) {
        Some((_, Value::Array { values, .. })) => values,
        _ => {
            assert(pattern_entries(out@) =~= Seq::<(Seq<char>, Range)>::empty());
            return out;
        },
    };
    let n = values.len();
    let mut i: usize = 0;
    assert(pattern_entries(out@) =~= string_entries(values@.take(0)));
    while i < n
        invariant
            n == values@.len(),
            0 <= i <= n,
            pattern_entries(out@) == string_entries(values@.take(i as int)),
        decreases n - i,
    {
        assert(values@.take(i + 1).drop_last() =~= values@.take(i as int));
        assert(values@.take(i + 1).last() == values@[i as int]);
        let ghost before = pattern_entries(out@);
        match &values[i] {
            Value::String { value, range } => {
                out.push((value, *range));
                assert(pattern_entries(out@) =~= before.push((value@, *range)));
            },
            _ => {},
        }
        assert(pattern_entries(out@) =~= string_entries(values@.take(i + 1)));
        i = i + 1;
    }
    assert(values@.take(n as int) =~= values@);
    out
}

/// The member patterns that a path in a workspace manifest points at: the one member
/// string that `accessors` name where they point into the members array at
/// `members_path`, else every string of that array.
pub open spec fn member_patterns_of(
    document: Value,
    accessors: Seq<Accessor>,
    members_path: Seq<Seq<char>>,
) -> Seq<(Seq<char>, Range)> {
    if matches_pattern(accessors, members_path.map_values(|k: Seq<char>| Some(k)).push(None)) {
        match dig_path(document, accessors) {
            Some(Value::String { value, range }) => seq![(value@, range)],
            _ => Seq::empty(),
        }
    } else {
        strings_at(document, members_path)
    }
}

/// The member patterns that a path in a workspace manifest points at; see
/// `member_patterns_of`.
pub fn member_pattern_strings<'a>(document: &'a Value, accessors: &[Accessor], members_path: &[&str]) -> (r: Vec<
    (&'a String, Range),
>)
    ensures
        pattern_entries(r@) == member_patterns_of(*document, accessors@, key_views(members_path@)),
{
    let mut pattern: Vec<Option<&str>> = Vec::new();
    let n = members_path.len();
    let mut i: usize = 0;
    while i < n
        invariant
            n == members_path@.len(),
            0 <= i <= n,
            pattern_view(pattern@) == key_views(members_path@).take(i as int).map_values(|k: Seq<char>| Some(k)),
        decreases n - i,
    {
        let ghost before = pattern@;
        pattern.push(Some(members_path[i]));
        assert(pattern_view(pattern@) =~= pattern_view(before).push(Some(members_path@[i as int]@)));
        assert(key_views(members_path@).take(i + 1).map_values(|k: Seq<char>| Some(k)) =~= key_views(
            members_path@,
        ).take(i as int).map_values(|k: Seq<char>| Some(k)).push(Some(members_path@[i as int]@)));
        i = i + 1;
    }
    assert(key_views(members_path@).take(n as int) =~= key_views(members_path@));
    let ghost before = pattern@;
    pattern.push(None);
    assert(pattern_view(pattern@) =~= pattern_view(before).push(None));
    if matches_accessors(accessors, pattern.as_slice()) {
        let mut out: Vec<(&'a String, Range)> = Vec::new();
        match dig_accessors(document, accessors) {
            Some(Value::String { value, range }) => {
                out.push((value, *range));
            },
            _ => {},
        }
        assert(pattern_entries(out@) =~= member_patterns_of(*document, accessors@, key_views(members_path@)));
        out
    } else {
        array_strings_at(document, members_path)
    }
}

/// The member patterns of `[workspace]` that a path in a workspace `Cargo.toml` points at:
/// those of `workspace.members`, or of the array named `members_key` in its place.
pub fn extract_member_patterns<'a>(workspace_document_tree: &'a Value, accessors: &[Accessor], members_key: &str) -> (r: Vec<
    (&'a String, Range),
>)
    ensures
        pattern_entries(r@) == member_patterns_of(
            *workspace_document_tree,
            accessors@,
            seq!["workspace"@, members_key@],
        ),
{
    let path = ["workspace", members_key];
    assert(key_views(path@) =~= seq!["workspace"@, members_key@]);
    member_pattern_strings(workspace_document_tree, accessors, &path)
}

/// The exclude patterns of `workspace.exclude` of a workspace `Cargo.toml`.
pub fn extract_exclude_patterns<'a>(workspace_document_tree: &'a Value) -> (r: Vec<(&'a String, Range)>)
    ensures
        pattern_entries(r@) == strings_at(*workspace_document_tree, seq!["workspace"@, "exclude"@]),
{
    let path = ["workspace", "exclude"];
    assert(key_views(path@) =~= seq!["workspace"@, "exclude"@]);
    array_strings_at(workspace_document_tree, &path)
}

/// The member patterns of `[tool.uv.workspace]` that a path in a workspace
/// `pyproject.toml` points at.
pub fn extract_uv_member_patterns<'a>(workspace_document_tree: &'a Value, accessors: &[Accessor]) -> (r: Vec<
    (&'a String, Range),
>)
    ensures
        pattern_entries(r@) == member_patterns_of(
            *workspace_document_tree,
            accessors@,
            seq!["tool"@, "uv"@, "workspace"@, "members"@],
        ),
{
    let path = ["tool", "uv", "workspace", "members"];
    assert(key_views(path@) =~= seq!["tool"@, "uv"@, "workspace"@, "members"@]);
    member_pattern_strings(workspace_document_tree, accessors, &path)
}

/// The exclude patterns of `tool.uv.workspace.exclude` of a workspace `pyproject.toml`.
pub fn extract_uv_exclude_patterns<'a>(workspace_document_tree: &'a Value) -> (r: Vec<(&'a String, Range)>)
    ensures
        pattern_entries(r@) == strings_at(
            *workspace_document_tree,
            seq!["tool"@, "uv"@, "workspace"@, "exclude"@],
        ),
{
    let path = ["tool", "uv", "workspace", "exclude"];
    assert(key_views(path@) =~= seq!["tool"@, "uv"@, "workspace"@, "exclude"@]);
    array_strings_at(workspace_document_tree, &path)
}

/// Whether a path starts with `[target, <cfg>, <dependency table>]`.
pub open spec fn target_table_prefix(a: Seq<Accessor>) -> bool {
    a.len() >= 3 && (matches_pattern(a.take(3), seq![Some("target"@), None, Some("dependencies"@)])
        || matches_pattern(a.take(3), seq![Some("target"@), None, Some("dev-dependencies"@)])
        || matches_pattern(a.take(3), seq![Some("target"@), None, Some("build-dependencies"@)]))
}

/// The keys among a path's accessors, in order.
pub open spec fn key_texts(a: Seq<Accessor>) -> Seq<Seq<char>>
    decreases a.len(),
{
    if a.len() == 0 {
        Seq::empty()
    } else {
        let rest = key_texts(a.drop_last());
        match a.last() {
            Accessor::Key(k) => rest.push(k@),
            Accessor::Index(_) => rest,
        }
    }
}

/// The path under `[workspace]` that a member's `... .workspace` points at: the path
/// without its `target.<cfg>` prefix, its first key read as the workspace table it
/// inherits from (`dev-` and `build-dependencies` come from `dependencies`), its indexes
/// left out. Nothing where the path does not start with a key.
pub open spec fn workspace_keys(a: Seq<Accessor>) -> Option<Seq<Seq<char>>> {
    let start = if target_table_prefix(a) {
        2int
    } else {
        0int
    };
    if start < a.len() && a[start] is Key {
        Some(seq![sanitized_dependency_key(a[start]->Key_0@)] + key_texts(a.skip(start + 1)))
    } else {
        None
    }
}

/// Where a member's `workspace = true` at `accessors` leads in the workspace manifest:
/// the entry at `workspace` followed by the path's keys without the last (the
/// `workspace` key itself); where the caller may jump on to a path dependency's own
/// manifest, also that dependency's `path`.
pub open spec fn workspace_definition_of(
    accessors: Seq<Accessor>,
    workspace_document: Value,
    jump_to_subcrate: bool,
) -> Option<(Key, Option<Seq<char>>)> {
    match workspace_keys(accessors) {
        Some(keys) => match dig(workspace_document, seq!["workspace"@] + keys.drop_last()) {
            Some((key, value)) => {
                let first = keys[0];
                let subcrate = if jump_to_subcrate && (first == "dependencies"@ || first == "dev-dependencies"@
                    || first == "build-dependencies"@) && value is Table {
                    string_text(table_get(value, "path"@))
                } else {
                    None
                };
                Some((key, subcrate))
            },
            None => None,
        },
        None => None,
    }
}

/// The key of the workspace entry that a member's `workspace = true` at `accessors`
/// inherits, with the `path` of a path dependency that the caller may jump on to; see
/// `workspace_definition_of`. The caller goes to `package.name` of the manifest that
/// the path leads to, where it finds one, and to the key otherwise.
pub fn workspace_definition<'a>(accessors: &[Accessor], workspace_document_tree: &'a Value, jump_to_subcrate: bool) -> (r: Option<
    (&'a Key, Option<&'a String>),
>)
    ensures
        match workspace_definition_of(accessors@, *workspace_document_tree, jump_to_subcrate) {
            Some((key, subcrate)) => r matches Some(p) && *p.0 == key && match subcrate {
                Some(path) => p.1 matches Some(s) && s@ == path,
                None => p.1 is None,
            },
            None => r is None,
        },
{
    let n = accessors.len();
    let target = if n >= 3 {
        let head = vstd::slice::slice_subrange(accessors, 0, 3);
        assert(head@ =~= accessors@.take(3));
        let a = [Some("target"), None, Some("dependencies")];
        let b = [Some("target"), None, Some("dev-dependencies")];
        let c = [Some("target"), None, Some("build-dependencies")];
        assert(pattern_view(a@) =~= seq![Some("target"@), None, Some("dependencies"@)]);
        assert(pattern_view(b@) =~= seq![Some("target"@), None, Some("dev-dependencies"@)]);
        assert(pattern_view(c@) =~= seq![Some("target"@), None, Some("build-dependencies"@)]);
        matches_accessors(head, &a) || matches_accessors(head, &b) || matches_accessors(head, &c)
    } else {
        false
    };
    let start: usize = if target {
        2
    } else {
        0
    };
    if start >= n {
        return None;
    }
    let first = match &accessors[start] {
        Accessor::Key(k) => sanitize_dependency_key(k.as_str()),
        Accessor::Index(_) => return None,
    };
    let ghost all = seq![first@] + key_texts(accessors@.skip(start + 1));
    assert(workspace_keys(accessors@) == Some(all));
    let mut path: Vec<&str> = Vec::new();
    path.push("workspace");
    path.push(first);
    let ghost rest = accessors@.skip(start + 1);
    let mut i: usize = start + 1;
    assert(accessors@.skip(start + 1).take(0) =~= Seq::<Accessor>::empty());
    assert(key_views(path@) =~= seq!["workspace"@] + (seq![first@] + key_texts(rest.take(0))));
    while i < n
        invariant
            n == accessors@.len(),
            start + 1 <= i <= n,
            rest == accessors@.skip(start + 1),
            key_views(path@) == seq!["workspace"@] + (seq![first@] + key_texts(rest.take(i - start - 1))),
        decreases n - i,
    {
        let ghost k = (i - start - 1) as int;
        assert(rest.take(k + 1).drop_last() =~= rest.take(k));
        assert(rest.take(k + 1).last() == accessors@[i as int]);
        let ghost before = path@;
        match &accessors[i] {
            Accessor::Key(key) => {
                path.push(key.as_str());
                assert(key_views(path@) =~= key_views(before).push(key@));
            },
            Accessor::Index(_) => {},
        }
        assert(key_views(path@) =~= seq!["workspace"@] + (seq![first@] + key_texts(rest.take(k + 1))));
        i = i + 1;
    }
    assert(rest.take(n - start - 1) =~= rest);
    assert(key_views(path@) =~= seq!["workspace"@] + all);
    let m = path.len();
    let lookup = vstd::slice::slice_subrange(path.as_slice(), 0, m - 1);
    assert(lookup@ =~= path@.subrange(0, m - 1));
    assert(key_views(lookup@) =~= key_views(path@).subrange(0, m - 1));
    assert(key_views(lookup@) =~= seq!["workspace"@] + all.drop_last());
    let (key, value) = match crate::document::dig_keys(workspace_document_tree, lookup) {
        Some(e) => e,
        None => return None,
    };
    let is_dependency_table = crate::text::str_eq(first, "dependencies") || crate::text::str_eq(first, "dev-dependencies")
        || crate::text::str_eq(first, "build-dependencies");
    let subcrate = if jump_to_subcrate && is_dependency_table {
        match value {
            Value::Table { .. } => value.get_string("path"),
            _ => None,
        }
    } else {
        None
    };
    Some((key, subcrate))
}

/// The path of the workspace that a member names in `package.workspace`.
pub fn get_workspace_cargo_toml_path(document_tree: &Value) -> (r: Option<&String>)
    ensures
        match string_text(dig_value(*document_tree, seq!["package"@, "workspace"@])) {
            Some(p) => r matches Some(s) && s@ == p,
            None => r is None,
        },
{
    let path = ["package", "workspace"];
    assert(key_views(path@) =~= seq!["package"@, "workspace"@]);
    match crate::document::dig_keys(document_tree, &path) {
        Some((_, Value::String { value, .. })) => Some(value),
        _ => None,
    }
}

} // verus!
