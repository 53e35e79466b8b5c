//! The `nagi.toml` configuration: which files are nagi configurations, which values name
//! paths (for completion), and where a source shared through the workspace is declared
//! and used.

use vstd::prelude::*;

use crate::accessor::{is_key, matches_accessors, matches_pattern, pattern_view, Accessor};
use crate::document::{dig, key_views, table_get, Key, Range, Value};
use crate::text::{last_index, lemma_last_index, str_eq};

verus! {

/// The file name at the end of a path: what follows its last `/`.
pub open spec fn file_name_of(path: Seq<char>) -> Seq<char> {
    if last_index(path, '/') >= 0 {
        path.skip(last_index(path, '/') + 1)
    } else {
        path
    }
}

/// Whether a document at `path` is a nagi configuration: its file is `nagi.toml` or
/// `.nagi.toml`.
pub fn is_nagi_config(path: &str) -> (r: bool)
    ensures
        r == (file_name_of(path@) == "nagi.toml"@ || file_name_of(path@) == ".nagi.toml"@),
{
    proof {
        lemma_last_index(path@, '/');
    }
    let n = path.unicode_len();
    let name = match crate::text::rfind_char(path, '/') {
        Some(i) => {
            let rest = path.substring_char(i + 1, n);
            assert(rest@ =~= path@.skip(i + 1));
            rest
        },
        None => path,
    };
    str_eq(name, "nagi.toml") || str_eq(name, ".nagi.toml")
}

/// The patterns of the paths in a nagi configuration whose values name files or
/// directories.
pub open spec fn path_patterns() -> Seq<Seq<Option<Seq<char>>>> {
    seq![
        seq![Some("rules"@), Some("include"@), None],
        seq![Some("rules"@), Some("exclude"@), None],
        seq![Some("workspace"@), Some("members"@), None],
        seq![Some("workspace"@), Some("exclude"@), None],
        seq![Some("sources"@), None, Some("dbt"@), Some("project-root"@)],
        seq![Some("sources"@), None, Some("manifest"@), Some("directory"@)],
        seq![Some("workspace"@), Some("sources"@), None, Some("dbt"@), Some("project-root"@)],
        seq![Some("workspace"@), Some("sources"@), None, Some("manifest"@), Some("directory"@)],
        seq![Some("sources"@), None, Some("include"@), None],
        seq![Some("sources"@), None, Some("exclude"@), None],
        seq![Some("sources"@), None, Some("migration"@), Some("include"@), None],
        seq![Some("sources"@), None, Some("migration"@), Some("exclude"@), None],
        seq![Some("sources"@), None, Some("overrides"@), None, Some("include"@), None],
        seq![Some("sources"@), None, Some("overrides"@), None, Some("exclude"@), None],
        seq![Some("workspace"@), Some("sources"@), None, Some("include"@), None],
        seq![Some("workspace"@), Some("sources"@), None, Some("exclude"@), None],
        seq![Some("workspace"@), Some("sources"@), None, Some("migration"@), Some("include"@), None],
        seq![Some("workspace"@), Some("sources"@), None, Some("migration"@), Some("exclude"@), None],
        seq![Some("workspace"@), Some("sources"@), None, Some("overrides"@), None, Some("include"@), None],
        seq![Some("workspace"@), Some("sources"@), None, Some("overrides"@), None, Some("exclude"@), None],
    ]
}

/// Whether a path has the shape of one of `patterns`.
pub open spec fn matches_any(accessors: Seq<Accessor>, patterns: Seq<Seq<Option<Seq<char>>>>) -> bool {
    exists|i: int| 0 <= i < patterns.len() && matches_pattern(accessors, #[trigger] patterns[i])
}

/// Whether a path has the shape of one of `patterns`.
fn matches_one_of(accessors: &[Accessor], patterns: &Vec<Vec<Option<&str>>>) -> (r: bool)
    ensures
        r == matches_any(accessors@, patterns@.map_values(|p: Vec<Option<&str>>| pattern_view(p@))),
{
    let ghost ps = patterns@.map_values(|p: Vec<Option<&str>>| pattern_view(p@));
    let n = patterns.len();
    let mut i: usize = 0;
    while i < n
        invariant
            n == patterns@.len(),
            ps == patterns@.map_values(|p: Vec<Option<&str>>| pattern_view(p@)),
            0 <= i <= n,
            forall|j: int| 0 <= j < i ==> !matches_pattern(accessors@, #[trigger] ps[j]),
        decreases n - i,
    {
        if matches_accessors(accessors, patterns[i].as_slice()) {
            assert(matches_pattern(accessors@, ps[i as int]));
            return true;
        }
        i = i + 1;
    }
    false
}

/// Whether the value at a path of a nagi configuration names a file or a directory, so
/// that completion offers paths there.
pub fn is_path(accessors: &[Accessor]) -> (r: bool)
    ensures
        r == matches_any(accessors@, path_patterns()),
{
    let patterns: Vec<Vec<Option<&str>>> = vec![
        vec![Some("rules"), Some("include"), None],
        vec![Some("rules"), Some("exclude"), None],
        vec![Some("workspace"), Some("members"), None],
        vec![Some("workspace"), Some("exclude"), None],
        vec![Some("sources"), None, Some("dbt"), Some("project-root")],
        vec![Some("sources"), None, Some("manifest"), Some("directory")],
        vec![Some("workspace"), Some("sources"), None, Some("dbt"), Some("project-root")],
        vec![Some("workspace"), Some("sources"), None, Some("manifest"), Some("directory")],
        vec![Some("sources"), None, Some("include"), None],
        vec![Some("sources"), None, Some("exclude"), None],
        vec![Some("sources"), None, Some("migration"), Some("include"), None],
        vec![Some("sources"), None, Some("migration"), Some("exclude"), None],
        vec![Some("sources"), None, Some("overrides"), None, Some("include"), None],
        vec![Some("sources"), None, Some("overrides"), None, Some("exclude"), None],
        vec![Some("workspace"), Some("sources"), None, Some("include"), None],
        vec![Some("workspace"), Some("sources"), None, Some("exclude"), None],
        vec![Some("workspace"), Some("sources"), None, Some("migration"), Some("include"), None],
        vec![Some("workspace"), Some("sources"), None, Some("migration"), Some("exclude"), None],
        vec![Some("workspace"), Some("sources"), None, Some("overrides"), None, Some("include"), None],
        vec![Some("workspace"), Some("sources"), None, Some("overrides"), None, Some("exclude"), None],
    ];
    assert forall|i: int| 0 <= i < 20 implies #[trigger] pattern_view(patterns@[i]@) =~= path_patterns()[i] by {}
    assert(patterns@.map_values(|p: Vec<Option<&str>>| pattern_view(p@)) =~= path_patterns());
    matches_one_of(accessors, &patterns)
}

/// Path completion is offered on every entry of the file lists of a nagi configuration:
/// `rules.include`, `rules.exclude`, `workspace.members`, `workspace.exclude`; the `dbt`
/// project root and the `manifest` directory of each source; and the `include` and
/// `exclude` lists of each source, of its `migration` and of each of its `overrides`,
/// under `[sources]` and under `[workspace.sources]` alike. A path of another length
/// than those shapes (at most seven steps) is never offered paths.
pub proof fn lemma_path_completion_shapes(a: Seq<Accessor>)
    ensures
        a.len() == 3 && is_key(a[0], "rules"@) && (is_key(a[1], "include"@) || is_key(a[1], "exclude"@))
            ==> matches_any(a, path_patterns()),
        a.len() == 3 && is_key(a[0], "workspace"@) && (is_key(a[1], "members"@) || is_key(a[1], "exclude"@))
            ==> matches_any(a, path_patterns()),
        a.len() == 4 && is_key(a[0], "sources"@) && ((is_key(a[2], "dbt"@) && is_key(a[3], "project-root"@)) || (
        is_key(a[2], "manifest"@) && is_key(a[3], "directory"@)) || is_key(a[2], "include"@) || is_key(a[2], "exclude"@))
            ==> matches_any(a, path_patterns()),
        a.len() == 5 && is_key(a[0], "workspace"@) && is_key(a[1], "sources"@) && ((is_key(a[3], "dbt"@) && is_key(
            a[4],
            "project-root"@,
        )) || (is_key(a[3], "manifest"@) && is_key(a[4], "directory"@)) || is_key(a[3], "include"@) || is_key(
            a[3],
            "exclude"@,
        )) ==> matches_any(a, path_patterns()),
        a.len() == 5 && is_key(a[0], "sources"@) && is_key(a[2], "migration"@) && (is_key(a[3], "include"@) || is_key(
            a[3],
            "exclude"@,
        )) ==> matches_any(a, path_patterns()),
        a.len() == 6 && is_key(a[0], "workspace"@) && is_key(a[1], "sources"@) && is_key(a[3], "migration"@) && (
        is_key(a[4], "include"@) || is_key(a[4], "exclude"@)) ==> matches_any(a, path_patterns()),
        a.len() == 6 && is_key(a[0], "sources"@) && is_key(a[2], "overrides"@) && (is_key(a[4], "include"@) || is_key(
            a[4],
            "exclude"@,
        )) ==> matches_any(a, path_patterns()),
        a.len() == 7 && is_key(a[0], "workspace"@) && is_key(a[1], "sources"@) && is_key(a[3], "overrides"@) && (
        is_key(a[5], "include"@) || is_key(a[5], "exclude"@)) ==> matches_any(a, path_patterns()),
        (a.len() < 3 || a.len() > 7) ==> !matches_any(a, path_patterns()),
{
    let ps = path_patterns();
    if a.len() == 3 && is_key(a[0], "rules"@) {
        if is_key(a[1], "include"@) {
            assert(matches_pattern(a, ps[0]));
        }
        if is_key(a[1], "exclude"@) {
            assert(matches_pattern(a, ps[1]));
        }
    }
    if a.len() == 3 && is_key(a[0], "workspace"@) {
        if is_key(a[1], "members"@) {
            assert(matches_pattern(a, ps[2]));
        }
        if is_key(a[1], "exclude"@) {
            assert(matches_pattern(a, ps[3]));
        }
    }
    if a.len() == 4 && is_key(a[0], "sources"@) {
        if is_key(a[2], "dbt"@) && is_key(a[3], "project-root"@) {
            assert(matches_pattern(a, ps[4]));
        }
        if is_key(a[2], "manifest"@) && is_key(a[3], "directory"@) {
            assert(matches_pattern(a, ps[5]));
        }
        if is_key(a[2], "include"@) {
            assert(matches_pattern(a, ps[8]));
        }
        if is_key(a[2], "exclude"@) {
            assert(matches_pattern(a, ps[9]));
        }
    }
    if a.len() == 5 && is_key(a[0], "workspace"@) && is_key(a[1], "sources"@) {
        if is_key(a[3], "dbt"@) && is_key(a[4], "project-root"@) {
            assert(matches_pattern(a, ps[6]));
        }
        if is_key(a[3], "manifest"@) && is_key(a[4], "directory"@) {
            assert(matches_pattern(a, ps[7]));
        }
        if is_key(a[3], "include"@) {
            assert(matches_pattern(a, ps[14]));
        }
        if is_key(a[3], "exclude"@) {
            assert(matches_pattern(a, ps[15]));
        }
    }
    if a.len() == 5 && is_key(a[0], "sources"@) && is_key(a[2], "migration"@) {
        if is_key(a[3], "include"@) {
            assert(matches_pattern(a, ps[10]));
        }
        if is_key(a[3], "exclude"@) {
            assert(matches_pattern(a, ps[11]));
        }
    }
    if a.len() == 6 && is_key(a[0], "workspace"@) && is_key(a[1], "sources"@) && is_key(a[3], "migration"@) {
        if is_key(a[4], "include"@) {
            assert(matches_pattern(a, ps[16]));
        }
        if is_key(a[4], "exclude"@) {
            assert(matches_pattern(a, ps[17]));
        }
    }
    if a.len() == 6 && is_key(a[0], "sources"@) && is_key(a[2], "overrides"@) {
        if is_key(a[4], "include"@) {
            assert(matches_pattern(a, ps[12]));
        }
        if is_key(a[4], "exclude"@) {
            assert(matches_pattern(a, ps[13]));
        }
    }
    if a.len() == 7 && is_key(a[0], "workspace"@) && is_key(a[1], "sources"@) && is_key(a[3], "overrides"@) {
        if is_key(a[5], "include"@) {
            assert(matches_pattern(a, ps[18]));
        }
        if is_key(a[5], "exclude"@) {
            assert(matches_pattern(a, ps[19]));
        }
    }
    if a.len() < 3 || a.len() > 7 {
        assert forall|i: int| 0 <= i < ps.len() implies !matches_pattern(a, #[trigger] ps[i]) by {
            assert(3 <= ps[i].len() <= 7);
        }
    }
}

/// The key of the workspace source that a path `["workspace", "sources", name]` points at.
pub open spec fn workspace_source_key(document: Value, accessors: Seq<Accessor>) -> Option<Key> {
    if matches_pattern(accessors, seq![Some("workspace"@), Some("sources"@), None]) && accessors[2] is Key {
        match dig(document, seq!["workspace"@, "sources"@, accessors[2]->Key_0@]) {
            Some((key, _)) => Some(key),
            None => None,
        }
    } else {
        None
    }
}

/// Where a workspace source that a path `["workspace", "sources", name]` points at is
/// declared: the span of its key.
pub fn workspace_source_definition_location(document_tree: &Value, accessors: &[Accessor]) -> (r: Option<Range>)
    ensures
        match workspace_source_key(*document_tree, accessors@) {
            Some(key) => r == Some(key.range),
            None => r is None,
        },
{
    let pattern = [Some("workspace"), Some("sources"), None];
    assert(pattern_view(pattern@) =~= seq![Some("workspace"@), Some("sources"@), None]);
    if !matches_accessors(accessors, &pattern) {
        return None;
    }
    let name = match &accessors[2] {
        Accessor::Key(name) => name,
        Accessor::Index(_) => return None,
    };
    let path = ["workspace", "sources", name.as_str()];
    assert(key_views(path@) =~= seq!["workspace"@, "sources"@, name@]);
    match crate::document::dig_keys(document_tree, &path) {
        Some((key, _)) => Some(key.range),
        None => None,
    }
}

/// The key of the source `source_name` of a configuration where the source is taken from
/// the workspace (`workspace = true`).
pub open spec fn inherited_source_key(document: Value, source_name: Seq<char>) -> Option<Key> {
    match dig(document, seq!["sources"@, source_name]) {
        Some((key, source)) => if source is Table && table_get(source, "workspace"@) matches Some(
            Value::Boolean { value: true, .. },
        ) {
            Some(key)
        } else {
            None
        },
        None => None,
    }
}

/// Where a configuration uses the workspace source `source_name`: the span of the key of
/// its own source that says `workspace = true`.
pub fn source_reference_location(document_tree: &Value, source_name: &str) -> (r: Option<Range>)
    ensures
        match inherited_source_key(*document_tree, source_name@) {
            Some(key) => r == Some(key.range),
            None => r is None,
        },
{
    let path = ["sources", source_name];
    assert(key_views(path@) =~= seq!["sources"@, source_name@]);
    let (key, source) = match crate::document::dig_keys(document_tree, &path) {
        Some(e) => e,
        None => return None,
    };
    match source {
        Value::Table { .. } => match source.get("workspace") {
            Some(Value::Boolean { value: true, .. }) => Some(key.range),
            _ => None,
        },
        _ => None,
    }
}

/// Where a member's source at `["sources", name]` (or its `workspace` flag) is declared in
/// the workspace: the source must say `workspace = true`; a configuration that is itself the
/// workspace declares it in its own `[workspace.sources]`, any other in the workspace's
/// (`workspace_document`, which the caller finds above the member). The result says which
/// document holds it (`true` for the member itself) and the span of its key.
pub open spec fn workspace_source_of(
    document: Value,
    accessors: Seq<Accessor>,
    workspace_document: Option<Value>,
) -> Option<(bool, Range)> {
    if accessors.len() >= 2 && accessors[1] is Key {
        let name = accessors[1]->Key_0@;
        match inherited_source_key(document, name) {
            Some(_) => if table_get(document, "workspace"@) is Some {
                match dig(document, seq!["workspace"@, "sources"@, name]) {
                    Some((key, _)) => Some((true, key.range)),
                    None => None,
                }
            } else {
                match workspace_document {
                    Some(w) => match dig(w, seq!["workspace"@, "sources"@, name]) {
                        Some((key, _)) => Some((false, key.range)),
                        None => None,
                    },
                    None => None,
                }
            },
            None => None,
        }
    } else {
        None
    }
}

/// Where a member's source is declared in the workspace; see `workspace_source_of`.
pub fn workspace_source_location(document_tree: &Value, accessors: &[Accessor], workspace_document_tree: Option<&Value>) -> (r: Option<
    (bool, Range),
>)
    ensures
        r == workspace_source_of(
            *document_tree,
            accessors@,
            match workspace_document_tree {
                Some(w) => Some(*w),
                None => None,
            },
        ),
{
    if accessors.len() < 2 {
        return None;
    }
    let name = match &accessors[1] {
        Accessor::Key(name) => name,
        Accessor::Index(_) => return None,
    };
    if source_reference_location(document_tree, name.as_str()).is_none() {
        return None;
    }
    let path = ["workspace", "sources", name.as_str()];
    assert(key_views(path@) =~= seq!["workspace"@, "sources"@, name@]);
    if document_tree.get("workspace").is_some() {
        return match crate::document::dig_keys(document_tree, &path) {
            Some((key, _)) => Some((true, key.range)),
            None => None,
        };
    }
    match workspace_document_tree {
        Some(w) => match crate::document::dig_keys(w, &path) {
            Some((key, _)) => Some((false, key.range)),
            None => None,
        },
        None => None,
    }
}

/// What a navigation from a path of a nagi configuration looks for: the member
/// configurations (`workspace.members`), or the workspace declaration of a source.
#[derive(Debug, Clone, Copy, PartialEq, Eq, Structural)]
pub enum NagiNavigation {
    Members,
    WorkspaceSource,
    Nothing,
}

/// What a navigation from a path of a nagi configuration looks for.
pub fn workspace_navigation_kind(accessors: &[Accessor]) -> (r: NagiNavigation)
    ensures
        r == if matches_pattern(accessors@, seq![Some("workspace"@), Some("members"@)]) || matches_pattern(
            accessors@,
            seq![Some("workspace"@), Some("members"@), None],
        ) {
            NagiNavigation::Members
        } else if matches_pattern(accessors@, seq![Some("sources"@), None]) || matches_pattern(
            accessors@,
            seq![Some("sources"@), None, Some("workspace"@)],
        ) {
            NagiNavigation::WorkspaceSource
        } else {
            NagiNavigation::Nothing
        },
{
    let a = [Some("workspace"), Some("members")];
    let b = [Some("workspace"), Some("members"), None];
    let c = [Some("sources"), None];
    let d = [Some("sources"), None, Some("workspace")];
    assert(pattern_view(a@) =~= seq![Some("workspace"@), Some("members"@)]);
    assert(pattern_view(b@) =~= seq![Some("workspace"@), Some("members"@), None]);
    assert(pattern_view(c@) =~= seq![Some("sources"@), None]);
    assert(pattern_view(d@) =~= seq![Some("sources"@), None, Some("workspace"@)]);
    if matches_accessors(accessors, &a) || matches_accessors(accessors, &b) {
        NagiNavigation::Members
    } else if matches_accessors(accessors, &c) || matches_accessors(accessors, &d) {
        NagiNavigation::WorkspaceSource
    } else {
        NagiNavigation::Nothing
    }
}

/// The member patterns of a nagi workspace that a path points at: the one member string
/// that a path `["workspace", "members", i]` names, else all of `workspace.members`.
pub fn member_patterns<'a>(document_tree: &'a Value, accessors: &[Accessor]) -> (r: Vec<(&'a String, Range)>)
    ensures
        crate::members::pattern_entries(r@) == crate::members::member_patterns_of(
            *document_tree,
            accessors@,
            seq!["workspace"@, "members"@],
        ),
{
    let path = ["workspace", "members"];
    assert(key_views(path@) =~= seq!["workspace"@, "members"@]);
    crate::members::member_pattern_strings(document_tree, accessors, &path)
}

} // verus!
