//! Where "go to definition" leads from the uv workspace entries of a `pyproject.toml`: from
//! a workspace source to the member project of that name, and from the member patterns to
//! the member projects.
//!
//! The caller finds and reads the member manifests: it hands over, for each member that the
//! member patterns find, in order, the span of the pattern that found it, the manifest's
//! path and its document.

use vstd::prelude::*;
use vstd::string::StringExecFns;

use crate::accessor::{dig_accessors, dig_path, matches_accessors, matches_pattern, pattern_view, Accessor};
use crate::cargo_goto::{location_view, locations_view, DefinitionLocation, LocationView};
use crate::dependency_link::{inside_quotes, unquoted_range};
use crate::document::{dig, dig_keys, key_views, table_entry, Range, Value};
use crate::text::str_eq;

verus! {

/// The project name of the manifest at `path`: the text of its `project.name` string.
pub open spec fn project_name_location_of(path: Seq<char>, document: Value) -> Option<LocationView> {
    match dig(document, seq!["project"@, "name"@]) {
        Some((_, Value::String { range, .. })) => Some((path, inside_quotes(range))),
        _ => None,
    }
}

/// The project name of the manifest at `path`; see `project_name_location_of`.
pub fn project_name_location(path: &str, document: &Value) -> (r: Option<DefinitionLocation>)
    ensures
        match project_name_location_of(path@, *document) {
            Some(l) => r matches Some(x) && location_view(x) == l,
            None => r is None,
        },
{
    let keys = ["project", "name"];
    assert(key_views(keys@) =~= seq!["project"@, "name"@]);
    match dig_keys(document, &keys) {
        Some((_, Value::String { range, .. })) => Some(
            DefinitionLocation { path: String::from_str(path), range: unquoted_range(*range) },
        ),
        _ => None,
    }
}

/// The project names of the member manifests found, in order; a manifest without one gives
/// none.
pub open spec fn member_project_locations_of(found: Seq<(Range, String, Value)>) -> Seq<LocationView>
    decreases found.len(),
{
    if found.len() == 0 {
        Seq::empty()
    } else {
        member_project_locations_of(found.drop_last()) + match project_name_location_of(
            found.last().1@,
            found.last().2,
        ) {
            Some(l) => seq![l],
            None => Seq::empty(),
        }
    }
}

/// The project names of the member manifests found; see `member_project_locations_of`.
pub fn goto_member_pyprojects(found: &[(Range, String, Value)]) -> (r: Vec<DefinitionLocation>)
    ensures
        locations_view(r@) == member_project_locations_of(found@),
{
    let mut out: Vec<DefinitionLocation> = Vec::new();
    let n = found.len();
    let mut i: usize = 0;
    assert(locations_view(out@) =~= member_project_locations_of(found@.take(0)));
    while i < n
        invariant
            n == found@.len(),
            0 <= i <= n,
            locations_view(out@) == member_project_locations_of(found@.take(i as int)),
        decreases n - i,
    {
        assert(found@.take(i + 1).drop_last() =~= found@.take(i as int));
        assert(found@.take(i + 1).last() == found@[i as int]);
        let ghost before = locations_view(out@);
        match project_name_location(found[i].1.as_str(), &found[i].2) {
            Some(l) => {
                let ghost v = location_view(l);
                out.push(l);
                assert(locations_view(out@) =~= before.push(v));
            },
            None => {},
        }
        assert(locations_view(out@) =~= member_project_locations_of(found@.take(i + 1)));
        i = i + 1;
    }
    assert(found@.take(n as int) =~= found@);
    out
}

/// The first member found whose project is named `package_name`: its index.
pub open spec fn member_named(found: Seq<(Range, String, Value)>, package_name: Seq<char>) -> Option<int>
    decreases found.len(),
{
    if found.len() == 0 {
        None
    } else {
        match dig(found[0].2, seq!["project"@, "name"@]) {
            Some((_, Value::String { value, .. })) => if value@ == package_name {
                Some(0)
            } else {
                match member_named(found.drop_first(), package_name) {
                    Some(i) => Some(i + 1),
                    None => None,
                }
            },
            _ => match member_named(found.drop_first(), package_name) {
                Some(i) => Some(i + 1),
                None => None,
            },
        }
    }
}

/// The member project named `package_name` among those found: the path of its manifest
/// and the span of the text of the member pattern that found it.
pub fn find_member_project_toml(found: &[(Range, String, Value)], package_name: &str) -> (r: Option<(String, Range)>)
    ensures
        match member_named(found@, package_name@) {
            Some(i) => r matches Some(p) && 0 <= i < found@.len() && p.0@ == found@[i].1@ && p.1 == inside_quotes(
                found@[i].0,
            ),
            None => r is None,
        },
{
    let n = found.len();
    let mut i: usize = 0;
    assert(found@.skip(0) =~= found@);
    while i < n
        invariant
            n == found@.len(),
            0 <= i <= n,
            match member_named(found@.skip(i as int), package_name@) {
                Some(j) => member_named(found@, package_name@) == Some(j + i),
                None => member_named(found@, package_name@) is None,
            },
        decreases n - i,
    {
        let ghost rest = found@.skip(i as int);
        assert(rest[0] == found@[i as int]);
        assert(rest.drop_first() =~= found@.skip(i + 1));
        let keys = ["project", "name"];
        assert(key_views(keys@) =~= seq!["project"@, "name"@]);
        match dig_keys(&found[i].2, &keys) {
            Some((_, Value::String { value, .. })) => {
                if str_eq(value.as_str(), package_name) {
                    return Some((found[i].1.clone(), unquoted_range(found[i].0)));
                }
            },
            _ => {},
        }
        i = i + 1;
    }
    assert(found@.skip(n as int).len() == 0);
    None
}

/// Whether a source is a table without a `workspace` key.
pub open spec fn source_without_flag(source: Option<Value>) -> bool {
    match source {
        Some(t) => t is Table && table_entry(t, "workspace"@) is None,
        None => false,
    }
}

/// The package that a workspace source at `accessors` (`tool.uv.sources.<name>`, or its
/// `workspace` flag) names: none where the path is not of that shape, or where it is the
/// source table itself and that table has no `workspace` key.
pub open spec fn workspace_source_package_of(document: Value, accessors: Seq<Accessor>) -> Option<Seq<char>> {
    if !(matches_pattern(accessors, seq![Some("tool"@), Some("uv"@), Some("sources"@), None]) || matches_pattern(
        accessors,
        seq![Some("tool"@), Some("uv"@), Some("sources"@), None, Some("workspace"@)],
    )) {
        None
    } else {
        match accessors[3] {
            Accessor::Key(name) => if accessors.len() == 4 && source_without_flag(dig_path(document, accessors)) {
                None
            } else {
                Some(name@)
            },
            Accessor::Index(_) => None,
        }
    }
}

/// The package that a workspace source at `accessors` names; see
/// `workspace_source_package_of`. The caller looks that package up among the members of
/// the workspace (see `find_member_project_toml`).
pub fn workspace_source_package<'a>(document: &Value, accessors: &'a [Accessor]) -> (r: Option<&'a String>)
    ensures
        match workspace_source_package_of(*document, accessors@) {
            Some(name) => r matches Some(s) && s@ == name,
            None => r is None,
        },
{
    let a = [Some("tool"), Some("uv"), Some("sources"), None];
    let b = [Some("tool"), Some("uv"), Some("sources"), None, Some("workspace")];
    assert(pattern_view(a@) =~= seq![Some("tool"@), Some("uv"@), Some("sources"@), None]);
    assert(pattern_view(b@) =~= seq![Some("tool"@), Some("uv"@), Some("sources"@), None, Some("workspace"@)]);
    if !(matches_accessors(accessors, &a) || matches_accessors(accessors, &b)) {
        return None;
    }
    let name = match &accessors[3] {
        Accessor::Key(k) => k,
        Accessor::Index(_) => return None,
    };
    if accessors.len() == 4 {
        match dig_accessors(document, accessors) {
            Some(t) => match t {
                Value::Table { .. } => {
                    if !t.contains_key("workspace") {
                        return None;
                    }
                },
                _ => {},
            },
            None => {},
        }
    }
    Some(name)
}

/// Where the declaration of a dependency with a uv source leads.
#[derive(Debug, Clone, PartialEq, Eq)]
pub enum SourceDeclaration {
    /// To the member project of the workspace (the source says `workspace = true`).
    WorkspaceMember,
    /// To the key of the source, at this span of the manifest at hand.
    SourceKey(Range),
}

/// Where the declaration of the dependency `package_name` leads through its entry of
/// `[tool.uv.sources]`: none without a table entry; the workspace member where it says
/// `workspace = true`; else the entry's key.
pub open spec fn source_declaration_of(document: Value, package_name: Seq<char>) -> Option<SourceDeclaration> {
    match dig(document, seq!["tool"@, "uv"@, "sources"@]) {
        Some((_, sources)) => if sources is Table {
            match table_entry(sources, package_name) {
                Some((key, source)) => if source is Table {
                    if crate::document::table_get(source, "workspace"@) matches Some(Value::Boolean { value: true, .. }) {
                        Some(SourceDeclaration::WorkspaceMember)
                    } else {
                        Some(SourceDeclaration::SourceKey(key.range))
                    }
                } else {
                    None
                },
                None => None,
            }
        } else {
            None
        },
        None => None,
    }
}

/// Where the declaration of the dependency `package_name` leads through its uv source; see
/// `source_declaration_of`.
pub fn dependency_source_declaration(document: &Value, package_name: &str) -> (r: Option<SourceDeclaration>)
    ensures
        r == source_declaration_of(*document, package_name@),
{
    let keys = ["tool", "uv", "sources"];
    assert(key_views(keys@) =~= seq!["tool"@, "uv"@, "sources"@]);
    let sources = match dig_keys(document, &keys) {
        Some((_, v)) => v,
        None => return None,
    };
    match sources {
        Value::Table { .. } => {},
        _ => return None,
    }
    let (key, source) = match sources.get_key_value(package_name) {
        Some(entry) => entry,
        None => return None,
    };
    match source {
        Value::Table { .. } => {},
        _ => return None,
    }
    match source.get("workspace") {
        Some(Value::Boolean { value: true, .. }) => Some(SourceDeclaration::WorkspaceMember),
        _ => Some(SourceDeclaration::SourceKey(key.range)),
    }
}

/// The declaration that the item at `accessors` of a `pyproject.toml` is itself: the key of
/// a dependency group (`["dependency-groups", name]`).
pub fn get_current_declaration(document: &Value, accessors: &[Accessor]) -> (r: Option<Range>)
    ensures
        if matches_pattern(accessors@, seq![Some("dependency-groups"@), None]) && accessors@[1] is Key {
            match dig(*document, seq!["dependency-groups"@, accessors@[1]->Key_0@]) {
                Some((key, _)) => r == Some(key.range),
                None => r is None,
            }
        } else {
            r is None
        },
{
    let pattern = [Some("dependency-groups"), None];
    assert(pattern_view(pattern@) =~= seq![Some("dependency-groups"@), None]);
    if !matches_accessors(accessors, &pattern) {
        return None;
    }
    let name = match &accessors[1] {
        Accessor::Key(k) => k,
        Accessor::Index(_) => return None,
    };
    let keys = ["dependency-groups", name.as_str()];
    assert(key_views(keys@) =~= seq!["dependency-groups"@, name@]);
    match dig_keys(document, &keys) {
        Some((key, _)) => Some(key.range),
        None => None,
    }
}

} // verus!
