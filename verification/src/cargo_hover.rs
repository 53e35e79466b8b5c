//! What hovering over a dependency of a `Cargo.toml` decides: whether the key is hovered,
//! where a local dependency's metadata comes from, and what a manifest says of its package.

use vstd::prelude::*;

use crate::accessor::{is_any_dependency_accessor, is_dependency_path, matches_pattern, Accessor};
use crate::document::{dig, dig_value, position_le, string_text, table_entry, Position, Range, Value};

verus! {

/// What a hover shows: a title and a description.
#[derive(Debug, Clone, PartialEq, Eq)]
pub struct HoverMetadata {
    pub title: Option<String>,
    pub description: Option<String>,
}

/// The dependency path a hover is about: the path itself, where it names a dependency
/// entry of the package or of the workspace.
pub fn get_dependency_accessors(accessors: &[Accessor]) -> (r: Option<&[Accessor]>)
    ensures
        r == if matches_pattern(accessors@, seq![Some("workspace"@), Some("dependencies"@), None])
            || is_dependency_path(accessors@, Seq::empty()) {
            Some(accessors)
        } else {
            None
        },
{
    if is_any_dependency_accessor(accessors) {
        Some(accessors)
    } else {
        None
    }
}

/// Whether a span holds a position, its ends included.
pub open spec fn range_contains(range: Range, position: Position) -> bool {
    position_le(range.start, position) && position_le(position, range.end)
}

/// The keys of a path made of keys only.
pub open spec fn path_keys(accessors: Seq<Accessor>) -> Option<Seq<Seq<char>>>
    decreases accessors.len(),
{
    if accessors.len() == 0 {
        Some(Seq::empty())
    } else {
        match (path_keys(accessors.drop_last()), accessors.last()) {
            (Some(ks), Accessor::Key(k)) => Some(ks.push(k@)),
            _ => None,
        }
    }
}

/// The keys of a path made of keys only.
fn accessor_keys(accessors: &[Accessor]) -> (r: Option<Vec<String>>)
    ensures
        match path_keys(accessors@) {
            Some(ks) => r matches Some(v) && v@.map_values(|s: String| s@) == ks,
            None => r is None,
        },
{
    let mut out: Vec<String> = Vec::new();
    let n = accessors.len();
    let mut i: usize = 0;
    assert(out@.map_values(|s: String| s@) =~= Seq::<Seq<char>>::empty());
    while i < n
        invariant
            n == accessors@.len(),
            0 <= i <= n,
            path_keys(accessors@.take(i as int)) == Some(out@.map_values(|s: String| s@)),
        decreases n - i,
    {
        assert(accessors@.take(i + 1).drop_last() =~= accessors@.take(i as int));
        assert(accessors@.take(i + 1).last() == accessors@[i as int]);
        match &accessors[i] {
            Accessor::Key(k) => {
                let ghost before = out@;
                out.push(k.clone());
                assert(out@.map_values(|s: String| s@) =~= before.map_values(|s: String| s@).push(k@));
            },
            Accessor::Index(_) => {
                proof {
                    lemma_path_keys_none(accessors@, i as int);
                }
                return None;
            },
        }
        i = i + 1;
    }
    assert(accessors@.take(n as int) =~= accessors@);
    Some(out)
}

/// A path with an index has no keys.
proof fn lemma_path_keys_none(accessors: Seq<Accessor>, i: int)
    requires
        0 <= i < accessors.len(),
        accessors[i] is Index,
    ensures
        path_keys(accessors) is None,
    decreases accessors.len(),
{
    if i < accessors.len() - 1 {
        assert(accessors.drop_last()[i] == accessors[i]);
        lemma_path_keys_none(accessors.drop_last(), i);
    }
}

/// Whether the hovered position lies on the key of the dependency entry that a path names.
pub fn is_hovering_dependency_key(document_tree: &Value, dependency_accessors: &[Accessor], position: Position) -> (r: bool)
    ensures
        r == match path_keys(dependency_accessors@) {
            Some(ks) => match dig(*document_tree, ks) {
                Some(entry) => range_contains(entry.0.range, position),
                None => false,
            },
            None => false,
        },
{
    let keys = match accessor_keys(dependency_accessors) {
        Some(k) => k,
        None => return false,
    };
    match crate::document::dig_strings(document_tree, &keys) {
        Some((key, _)) => key.range.start.le(&position) && position.le(&key.range.end),
        None => false,
    }
}

/// Whether a dependency comes from a git repository or another registry, on which no
/// metadata is fetched.
pub fn is_unsupported_remote_dependency(dependency_value: &Value) -> (r: bool)
    ensures
        r == (dependency_value is Table && (table_entry(*dependency_value, "git"@) is Some || table_entry(
            *dependency_value,
            "registry"@,
        ) is Some)),
{
    match dependency_value {
        Value::Table { .. } => dependency_value.contains_key("git") || dependency_value.contains_key("registry"),
        _ => false,
    }
}

/// The dependency table that a dependency path lies in: the second key under
/// `workspace`, the third under `target`, else the first.
pub open spec fn dependency_kind_of(accessors: Seq<Accessor>) -> Option<Seq<char>> {
    let k = if matches_pattern(accessors, seq![Some("workspace"@), None, None]) {
        1int
    } else if matches_pattern(accessors, seq![Some("target"@), None, None, None]) {
        2int
    } else {
        0int
    };
    if k < accessors.len() {
        match accessors[k] {
            Accessor::Key(key) => Some(key@),
            _ => None,
        }
    } else {
        None
    }
}

/// The dependency table that a dependency path lies in.
pub fn dependency_kind(dependency_accessors: &[Accessor]) -> (r: Option<&str>)
    ensures
        match dependency_kind_of(dependency_accessors@) {
            Some(k) => r matches Some(s) && s@ == k,
            None => r is None,
        },
{
    let a = [Some("workspace"), None, None];
    let b = [Some("target"), None, None, None];
    assert(crate::accessor::pattern_view(a@) =~= seq![Some("workspace"@), None, None]);
    assert(crate::accessor::pattern_view(b@) =~= seq![Some("target"@), None, None, None]);
    let k: usize = if crate::accessor::matches_accessors(dependency_accessors, &a) {
        1
    } else if crate::accessor::matches_accessors(dependency_accessors, &b) {
        2
    } else {
        0
    };
    if k < dependency_accessors.len() {
        match &dependency_accessors[k] {
            Accessor::Key(key) => Some(key.as_str()),
            _ => None,
        }
    } else {
        None
    }
}

/// What a manifest says of its package: its name as title and its description; nothing
/// where it says neither.
pub fn package_metadata(document_tree: &Value) -> (r: Option<HoverMetadata>)
    ensures
        ({
            let name = string_text(dig_value(*document_tree, seq!["package"@, "name"@]));
            let description = string_text(dig_value(*document_tree, seq!["package"@, "description"@]));
            if name is None && description is None {
                r is None
            } else {
                r matches Some(m) && crate::cargo_lock::opt_text(m.title) == name && crate::cargo_lock::opt_text(
                    m.description,
                ) == description
            }
        }),
{
    let a = ["package", "name"];
    let b = ["package", "description"];
    assert(crate::document::key_views(a@) =~= seq!["package"@, "name"@]);
    assert(crate::document::key_views(b@) =~= seq!["package"@, "description"@]);
    let title = match crate::document::dig_keys(document_tree, &a) {
        Some((_, Value::String { value, .. })) => Some(value.clone()),
        _ => None,
    };
    let description = match crate::document::dig_keys(document_tree, &b) {
        Some((_, Value::String { value, .. })) => Some(value.clone()),
        _ => None,
    };
    if title.is_none() && description.is_none() {
        None
    } else {
        Some(HoverMetadata { title, description })
    }
}

} // verus!
