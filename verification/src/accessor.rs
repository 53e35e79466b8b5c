//! Paths into a TOML document, as the editor features receive them, and the shapes of path
//! that the manifests' features act on.

use vstd::prelude::*;

use crate::document::{table_get, Value};
use crate::text::str_eq;

verus! {

/// One step of a path into a document: a key of a table or an index into an array.
#[derive(Debug, Clone, PartialEq, Eq)]
pub enum Accessor {
    Key(String),
    Index(usize),
}

/// Whether `accessor` is the key `key`.
pub open spec fn is_key(accessor: Accessor, key: Seq<char>) -> bool {
    accessor matches Accessor::Key(k) && k@ == key
}

/// Whether a path has the shape of a pattern: as many steps, and the key the pattern names
/// wherever it names one (`None` admits any step).
pub open spec fn matches_pattern(accessors: Seq<Accessor>, pattern: Seq<Option<Seq<char>>>) -> bool {
    accessors.len() == pattern.len() && forall|i: int|
        0 <= i < pattern.len() ==> match #[trigger] pattern[i] {
            Some(k) => is_key(accessors[i], k),
            None => true,
        }
}

/// The keys of a pattern written with string slices.
pub open spec fn pattern_view(pattern: Seq<Option<&str>>) -> Seq<Option<Seq<char>>> {
    pattern.map_values(|p: Option<&str>| match p {
        Some(s) => Some(s@),
        None => None,
    })
}

/// Whether `accessor` is the key `key`.
pub fn accessor_is_key(accessor: &Accessor, key: &str) -> (r: bool)
    ensures
        r == is_key(*accessor, key@),
{
    match accessor {
        Accessor::Key(k) => str_eq(k.as_str(), key),
        Accessor::Index(_) => false,
    }
}

/// Whether a path has the shape of a pattern.
pub fn matches_accessors(accessors: &[Accessor], pattern: &[Option<&str>]) -> (r: bool)
    ensures
        r == matches_pattern(accessors@, pattern_view(pattern@)),
{
    let ghost p = pattern_view(pattern@);
    if accessors.len() != pattern.len() {
        return false;
    }
    let n = pattern.len();
    let mut i: usize = 0;
    while i < n
        invariant
            n == pattern@.len(),
            n == accessors@.len(),
            p == pattern_view(pattern@),
            0 <= i <= n,
            forall|j: int| 0 <= j < i ==> match #[trigger] p[j] {
                Some(k) => is_key(accessors@[j], k),
                None => true,
            },
        decreases n - i,
    {
        match pattern[i] {
            Some(k) => {
                if !accessor_is_key(&accessors[i], k) {
                    assert(!match p[i as int] {
                        Some(k) => is_key(accessors@[i as int], k),
                        None => true,
                    });
                    return false;
                }
            },
            None => {},
        }
        i = i + 1;
    }
    true
}

/// `[key, _]`.
pub open spec fn key_any(a: Seq<char>) -> Seq<Option<Seq<char>>> {
    seq![Some(a), None]
}

/// `["target", _, table, _]` and its extension by one more key.
pub open spec fn target_pattern(table: Seq<char>) -> Seq<Option<Seq<char>>> {
    seq![Some("target"@), None, Some(table), None]
}

/// Whether a path names an entry of one of the dependency tables of a package (plain or
/// under `target.<cfg>`), with `tail` appended to the entry's path.
pub open spec fn is_dependency_path(accessors: Seq<Accessor>, tail: Seq<Option<Seq<char>>>) -> bool {
    ||| matches_pattern(accessors, key_any("dependencies"@) + tail)
    ||| matches_pattern(accessors, key_any("dev-dependencies"@) + tail)
    ||| matches_pattern(accessors, key_any("build-dependencies"@) + tail)
    ||| matches_pattern(accessors, target_pattern("dependencies"@) + tail)
    ||| matches_pattern(accessors, target_pattern("dev-dependencies"@) + tail)
    ||| matches_pattern(accessors, target_pattern("build-dependencies"@) + tail)
}

/// Whether a path names a dependency entry, with `tail` appended, of any dependency table
/// of a package.
fn matches_dependency_path(accessors: &[Accessor], tail: Option<&str>) -> (r: bool)
    ensures
        r == is_dependency_path(
            accessors@,
            match tail {
                Some(t) => seq![Some(t@)],
                None => Seq::empty(),
            },
        ),
{
    let ghost tl: Seq<Option<Seq<char>>> = match tail {
        Some(t) => seq![Some(t@)],
        None => Seq::empty(),
    };
    let r = match tail {
        Some(t) => {
            let a = [Some("dependencies"), None, Some(t)];
            let b = [Some("dev-dependencies"), None, Some(t)];
            let c = [Some("build-dependencies"), None, Some(t)];
            let d = [Some("target"), None, Some("dependencies"), None, Some(t)];
            let e = [Some("target"), None, Some("dev-dependencies"), None, Some(t)];
            let f = [Some("target"), None, Some("build-dependencies"), None, Some(t)];
            assert(pattern_view(a@) =~= key_any("dependencies"@) + tl);
            assert(pattern_view(b@) =~= key_any("dev-dependencies"@) + tl);
            assert(pattern_view(c@) =~= key_any("build-dependencies"@) + tl);
            assert(pattern_view(d@) =~= target_pattern("dependencies"@) + tl);
            assert(pattern_view(e@) =~= target_pattern("dev-dependencies"@) + tl);
            assert(pattern_view(f@) =~= target_pattern("build-dependencies"@) + tl);
            matches_accessors(accessors, &a) || matches_accessors(accessors, &b) || matches_accessors(accessors, &c)
                || matches_accessors(accessors, &d) || matches_accessors(accessors, &e) || matches_accessors(
                accessors,
                &f,
            )
        },
        None => {
            let a = [Some("dependencies"), None];
            let b = [Some("dev-dependencies"), None];
            let c = [Some("build-dependencies"), None];
            let d = [Some("target"), None, Some("dependencies"), None];
            let e = [Some("target"), None, Some("dev-dependencies"), None];
            let f = [Some("target"), None, Some("build-dependencies"), None];
            assert(pattern_view(a@) =~= key_any("dependencies"@) + tl);
            assert(pattern_view(b@) =~= key_any("dev-dependencies"@) + tl);
            assert(pattern_view(c@) =~= key_any("build-dependencies"@) + tl);
            assert(pattern_view(d@) =~= target_pattern("dependencies"@) + tl);
            assert(pattern_view(e@) =~= target_pattern("dev-dependencies"@) + tl);
            assert(pattern_view(f@) =~= target_pattern("build-dependencies"@) + tl);
            matches_accessors(accessors, &a) || matches_accessors(accessors, &b) || matches_accessors(accessors, &c)
                || matches_accessors(accessors, &d) || matches_accessors(accessors, &e) || matches_accessors(
                accessors,
                &f,
            )
        },
    };
    r
}

} // verus!

verus! {

/// Whether a path is `package.name`.
pub fn is_package_name_accessor(accessors: &[Accessor]) -> (r: bool)
    ensures
        r == matches_pattern(accessors@, seq![Some("package"@), Some("name"@)]),
{
    let p = [Some("package"), Some("name")];
    assert(pattern_view(p@) =~= seq![Some("package"@), Some("name"@)]);
    matches_accessors(accessors, &p)
}

/// Whether a path is a key of `[features]`.
pub fn is_feature_key_accessor(accessors: &[Accessor]) -> (r: bool)
    ensures
        r == matches_pattern(accessors@, key_any("features"@)),
{
    let p = [Some("features"), None];
    assert(pattern_view(p@) =~= key_any("features"@));
    matches_accessors(accessors, &p)
}

/// Whether a path is a dependency entry of a package.
pub fn is_dependency_accessor(accessors: &[Accessor]) -> (r: bool)
    ensures
        r == is_dependency_path(accessors@, Seq::empty()),
{
    matches_dependency_path(accessors, None)
}

/// Whether a path is an entry of `[workspace.dependencies]`.
pub fn is_workspace_dependency_accessor(accessors: &[Accessor]) -> (r: bool)
    ensures
        r == matches_pattern(accessors@, seq![Some("workspace"@), Some("dependencies"@), None]),
{
    let p = [Some("workspace"), Some("dependencies"), None];
    assert(pattern_view(p@) =~= seq![Some("workspace"@), Some("dependencies"@), None]);
    matches_accessors(accessors, &p)
}

/// Whether a path is a dependency entry of a package or of the workspace.
pub fn is_any_dependency_accessor(accessors: &[Accessor]) -> (r: bool)
    ensures
        r == (matches_pattern(accessors@, seq![Some("workspace"@), Some("dependencies"@), None])
            || is_dependency_path(accessors@, Seq::empty())),
{
    is_workspace_dependency_accessor(accessors) || is_dependency_accessor(accessors)
}

/// Whether a path is the `path` of a dependency entry of a package.
pub fn is_dependency_path_accessor(accessors: &[Accessor]) -> (r: bool)
    ensures
        r == is_dependency_path(accessors@, seq![Some("path"@)]),
{
    matches_dependency_path(accessors, Some("path"))
}

/// Whether a path is the `path` of a dependency entry of a package or of the workspace.
pub fn is_any_dependency_path_accessor(accessors: &[Accessor]) -> (r: bool)
    ensures
        r == (matches_pattern(accessors@, seq![Some("workspace"@), Some("dependencies"@), None, Some("path"@)])
            || is_dependency_path(accessors@, seq![Some("path"@)])),
{
    let p = [Some("workspace"), Some("dependencies"), None, Some("path")];
    assert(pattern_view(p@) =~= seq![Some("workspace"@), Some("dependencies"@), None, Some("path"@)]);
    matches_accessors(accessors, &p) || is_dependency_path_accessor(accessors)
}

/// Whether a path ends in the key `workspace`.
pub fn is_workspace_key_accessor(accessors: &[Accessor]) -> (r: bool)
    ensures
        r == (accessors@.len() > 0 && is_key(accessors@.last(), "workspace"@)),
{
    let n = accessors.len();
    n > 0 && accessor_is_key(&accessors[n - 1], "workspace")
}

/// Whether a path is the `optional` flag of a dependency entry of a package.
pub fn is_optional_dependency_accessor(accessors: &[Accessor]) -> (r: bool)
    ensures
        r == is_dependency_path(accessors@, seq![Some("optional"@)]),
{
    matches_dependency_path(accessors, Some("optional"))
}

/// Whether a path is the `workspace` flag of a dependency entry of a package.
pub fn is_workspace_flag_accessor(accessors: &[Accessor]) -> (r: bool)
    ensures
        r == is_dependency_path(accessors@, seq![Some("workspace"@)]),
{
    matches_dependency_path(accessors, Some("workspace"))
}

/// Whether a path is something that the workspace defines: a workspace dependency, its
/// `path`, or the member lists and their items.
pub fn is_workspace_definition_accessor(accessors: &[Accessor]) -> (r: bool)
    ensures
        r == ({
            ||| matches_pattern(accessors@, seq![Some("workspace"@), Some("dependencies"@), None])
            ||| matches_pattern(accessors@, seq![Some("workspace"@), Some("dependencies"@), None, Some("path"@)])
            ||| matches_pattern(accessors@, seq![Some("workspace"@), Some("members"@)])
            ||| matches_pattern(accessors@, seq![Some("workspace"@), Some("members"@), None])
            ||| matches_pattern(accessors@, seq![Some("workspace"@), Some("default-members"@)])
            ||| matches_pattern(accessors@, seq![Some("workspace"@), Some("default-members"@), None])
        }),
{
    let a = [Some("workspace"), Some("dependencies"), None];
    let b = [Some("workspace"), Some("dependencies"), None, Some("path")];
    let c = [Some("workspace"), Some("members")];
    let d = [Some("workspace"), Some("members"), None];
    let e = [Some("workspace"), Some("default-members")];
    let f = [Some("workspace"), Some("default-members"), None];
    assert(pattern_view(a@) =~= seq![Some("workspace"@), Some("dependencies"@), None]);
    assert(pattern_view(b@) =~= seq![Some("workspace"@), Some("dependencies"@), None, Some("path"@)]);
    assert(pattern_view(c@) =~= seq![Some("workspace"@), Some("members"@)]);
    assert(pattern_view(d@) =~= seq![Some("workspace"@), Some("members"@), None]);
    assert(pattern_view(e@) =~= seq![Some("workspace"@), Some("default-members"@)]);
    assert(pattern_view(f@) =~= seq![Some("workspace"@), Some("default-members"@), None]);
    matches_accessors(accessors, &a) || matches_accessors(accessors, &b) || matches_accessors(accessors, &c)
        || matches_accessors(accessors, &d) || matches_accessors(accessors, &e) || matches_accessors(
        accessors,
        &f,
    )
}

/// The value that a path leads to: keys step into tables, indexes into arrays.
pub open spec fn dig_path(value: Value, accessors: Seq<Accessor>) -> Option<Value>
    decreases accessors.len(),
{
    if accessors.len() == 0 {
        Some(value)
    } else {
        let next = match accessors[0] {
            Accessor::Key(k) => table_get(value, k@),
            Accessor::Index(i) => match value {
                Value::Array { values, .. } => if i < values@.len() {
                    Some(values@[i as int])
                } else {
                    None
                },
                _ => None,
            },
        };
        match next {
            Some(v) => dig_path(v, accessors.drop_first()),
            None => None,
        }
    }
}

/// The value that a path leads to from `value`.
pub fn dig_accessors<'a>(value: &'a Value, accessors: &[Accessor]) -> (r: Option<&'a Value>)
    ensures
        match dig_path(*value, accessors@) {
            Some(v) => r matches Some(x) && *x == v,
            None => r is None,
        },
{
    let n = accessors.len();
    let mut current = value;
    let mut i: usize = 0;
    assert(accessors@.skip(0) =~= accessors@);
    while i < n
        invariant
            n == accessors@.len(),
            0 <= i <= n,
            dig_path(*value, accessors@) == dig_path(*current, accessors@.skip(i as int)),
        decreases n - i,
    {
        let ghost rest = accessors@.skip(i as int);
        assert(rest.drop_first() =~= accessors@.skip(i + 1));
        assert(rest[0] == accessors@[i as int]);
        let next = match &accessors[i] {
            Accessor::Key(k) => current.get(k.as_str()),
            Accessor::Index(j) => match current {
                Value::Array { values, .. } => if *j < values.len() {
                    Some(&values[*j])
                } else {
                    None
                },
                _ => None,
            },
        };
        match next {
            Some(v) => {
                current = v;
            },
            None => return None,
        }
        i = i + 1;
    }
    assert(accessors@.skip(n as int).len() == 0);
    Some(current)
}

/// Whether a path is a dependency entry of a package that inherits from the workspace.
pub fn is_workspace_managed_dependency_accessor(document_tree: &Value, accessors: &[Accessor]) -> (r: bool)
    ensures
        r == (is_dependency_path(accessors@, Seq::empty()) && match dig_path(*document_tree, accessors@) {
            Some(v) => v is Table && table_get(v, "workspace"@) matches Some(Value::Boolean { value: true, .. }),
            None => false,
        }),
{
    if !is_dependency_accessor(accessors) {
        return false;
    }
    match dig_accessors(document_tree, accessors) {
        Some(v) => match v {
            Value::Table { .. } => match v.get("workspace") {
                Some(Value::Boolean { value, .. }) => *value,
                _ => false,
            },
            _ => false,
        },
        None => false,
    }
}

/// The path of the table that holds the entry a path names.
pub fn dependency_parent_accessors(accessors: &[Accessor]) -> (r: &[Accessor])
    ensures
        r@ == if accessors@.len() > 0 {
            accessors@.drop_last()
        } else {
            accessors@
        },
{
    let n = accessors.len();
    let end = if n > 0 { n - 1 } else { 0 };
    let r = vstd::slice::slice_subrange(accessors, 0, end);
    assert(r@ =~= if n > 0 { accessors@.drop_last() } else { accessors@ });
    r
}

/// Which navigation feature a path in a `Cargo.toml` belongs to.
#[derive(Debug, Clone, Copy, PartialEq, Eq, Structural)]
pub enum CargoNavigationFeature {
    Dependency,
    Member,
    Path,
}

/// The navigation feature of a path in a `Cargo.toml`: a `path` key, the workspace member
/// lists, or else a dependency.
pub fn classify_cargo_navigation_feature(accessors: &[Accessor]) -> (r: CargoNavigationFeature)
    ensures
        r == if accessors@.len() > 0 && is_key(accessors@.last(), "path"@) {
            CargoNavigationFeature::Path
        } else if accessors@.len() >= 2 && is_key(accessors@[0], "workspace"@) && (is_key(accessors@[1], "members"@)
            || is_key(accessors@[1], "default-members"@)) {
            CargoNavigationFeature::Member
        } else {
            CargoNavigationFeature::Dependency
        },
{
    let n = accessors.len();
    if n > 0 && accessor_is_key(&accessors[n - 1], "path") {
        CargoNavigationFeature::Path
    } else if n >= 2 && accessor_is_key(&accessors[0], "workspace") && (accessor_is_key(&accessors[1], "members")
        || accessor_is_key(&accessors[1], "default-members")) {
        CargoNavigationFeature::Member
    } else {
        CargoNavigationFeature::Dependency
    }
}

} // verus!
