//! What hovering over a dependency of a `pyproject.toml` decides: which path is a
//! dependency string, where a uv source's metadata comes from, and what a manifest or
//! PyPI says of a project.

use vstd::prelude::*;

use crate::accessor::{is_key, matches_accessors, matches_pattern, pattern_view, Accessor};
use crate::cargo_hover::HoverMetadata;
use crate::cargo_lock::opt_text;
use crate::document::{dig_value, string_text, table_get, Value};
use crate::pep508::{Pep508Requirement, RequirementVersion, RequirementVersionView};

verus! {

/// The dependency string a hover is about: an item of `project.dependencies`, of a list of
/// `project.optional-dependencies`, or of a dependency group.
pub open spec fn hover_dependency_path(accessors: Seq<Accessor>) -> Option<Seq<Accessor>> {
    if matches_pattern(accessors, seq![Some("project"@), Some("dependencies"@), None]) {
        Some(accessors.take(3))
    } else if matches_pattern(accessors, seq![Some("project"@), Some("optional-dependencies"@), None, None]) {
        Some(accessors.take(4))
    } else if matches_pattern(accessors, seq![Some("dependency-groups"@), None, None]) {
        Some(accessors.take(3))
    } else {
        None
    }
}

/// A hover on an item of `project.dependencies`, of any list of
/// `project.optional-dependencies` or of any dependency group is about that very item;
/// a hover found anywhere else is about no dependency, and never about another path.
pub proof fn lemma_hover_dependency_items(a: Seq<Accessor>)
    ensures
        a.len() == 3 && is_key(a[0], "project"@) && is_key(a[1], "dependencies"@) ==> hover_dependency_path(a)
            == Some(a),
        a.len() == 4 && is_key(a[0], "project"@) && is_key(a[1], "optional-dependencies"@) ==> hover_dependency_path(
            a,
        ) == Some(a),
        a.len() == 3 && is_key(a[0], "dependency-groups"@) ==> hover_dependency_path(a) == Some(a),
        hover_dependency_path(a) matches Some(p) ==> p == a,
        !(a.len() == 3 || a.len() == 4) ==> hover_dependency_path(a) is None,
{
    if a.len() == 3 {
        assert(a.take(3) =~= a);
    }
    if a.len() == 4 {
        assert(a.take(4) =~= a);
    }
}

/// The dependency string a hover is about.
pub fn get_dependency_accessors(accessors: &[Accessor]) -> (r: Option<&[Accessor]>)
    ensures
        match hover_dependency_path(accessors@) {
            Some(p) => r matches Some(x) && x@ == p,
            None => r is None,
        },
{
    let a = [Some("project"), Some("dependencies"), None];
    let b = [Some("project"), Some("optional-dependencies"), None, None];
    let c = [Some("dependency-groups"), None, None];
    assert(pattern_view(a@) =~= seq![Some("project"@), Some("dependencies"@), None]);
    assert(pattern_view(b@) =~= seq![Some("project"@), Some("optional-dependencies"@), None, None]);
    assert(pattern_view(c@) =~= seq![Some("dependency-groups"@), None, None]);
    if matches_accessors(accessors, &a) || matches_accessors(accessors, &c) {
        let r = vstd::slice::slice_subrange(accessors, 0, 3);
        assert(r@ =~= accessors@.take(3));
        Some(r)
    } else if matches_accessors(accessors, &b) {
        let r = vstd::slice::slice_subrange(accessors, 0, 4);
        assert(r@ =~= accessors@.take(4));
        Some(r)
    } else {
        None
    }
}

/// Whether a hover is on a uv source (`tool.uv.sources.<name>` or a key inside it).
pub fn is_source_hover(accessors: &[Accessor]) -> (r: bool)
    ensures
        r == (matches_pattern(accessors@, seq![Some("tool"@), Some("uv"@), Some("sources"@), None])
            || matches_pattern(accessors@, seq![Some("tool"@), Some("uv"@), Some("sources"@), None, None])),
{
    let a = [Some("tool"), Some("uv"), Some("sources"), None];
    let b = [Some("tool"), Some("uv"), Some("sources"), None, None];
    assert(pattern_view(a@) =~= seq![Some("tool"@), Some("uv"@), Some("sources"@), None]);
    assert(pattern_view(b@) =~= seq![Some("tool"@), Some("uv"@), Some("sources"@), None, None]);
    matches_accessors(accessors, &a) || matches_accessors(accessors, &b)
}

/// Where the metadata of a uv source comes from.
#[derive(Debug, Clone, PartialEq, Eq)]
pub enum SourceTarget {
    /// A member of the workspace of that package name.
    WorkspaceMember,
    /// The project at this path.
    Path(String),
}

/// Where the metadata of a uv source comes from: a workspace member where it says
/// `workspace = true`, else its `path`.
pub open spec fn source_target_of(source: Value) -> Option<Option<Seq<char>>> {
    match source {
        Value::Table { .. } => if table_get(source, "workspace"@) matches Some(Value::Boolean { value: true, .. }) {
            Some(None)
        } else {
            match string_text(table_get(source, "path"@)) {
                Some(p) => Some(Some(p)),
                None => None,
            }
        },
        _ => None,
    }
}

/// Where the metadata of a uv source comes from.
pub fn source_target(source: &Value) -> (r: Option<SourceTarget>)
    ensures
        match source_target_of(*source) {
            Some(None) => r == Some(SourceTarget::WorkspaceMember),
            Some(Some(p)) => r matches Some(SourceTarget::Path(x)) && x@ == p,
            None => r is None,
        },
{
    match source {
        Value::Table { .. } => {},
        _ => return None,
    }
    match source.get("workspace") {
        Some(Value::Boolean { value: true, .. }) => return Some(SourceTarget::WorkspaceMember),
        _ => {},
    }
    match source.get_string("path") {
        Some(p) => Some(SourceTarget::Path(p.clone())),
        None => None,
    }
}

/// What a `pyproject.toml` says of its project: its name as title and its description;
/// nothing where it says neither.
pub fn project_metadata(document_tree: &Value) -> (r: Option<HoverMetadata>)
    ensures
        ({
            let name = string_text(dig_value(*document_tree, seq!["project"@, "name"@]));
            let description = string_text(dig_value(*document_tree, seq!["project"@, "description"@]));
            if name is None && description is None {
                r is None
            } else {
                r matches Some(m) && opt_text(m.title) == name && opt_text(m.description) == description
            }
        }),
{
    let a = ["project", "name"];
    let b = ["project", "description"];
    assert(crate::document::key_views(a@) =~= seq!["project"@, "name"@]);
    assert(crate::document::key_views(b@) =~= seq!["project"@, "description"@]);
    let title = match crate::document::dig_keys(document_tree, &a) {
        Some((_, Value::String { value, .. })) => Some(value.clone()),
        _ => None,
    };
    let description = match crate::document::dig_keys(document_tree, &b) {
        Some((_, Value::String { value, .. })) => Some(value.clone()),
        _ => None,
    };
    if title.is_none() && description.is_none() {
        None
    } else {
        Some(HoverMetadata { title, description })
    }
}

/// The hover of a PyPI project answer: its name and summary; nothing where it has neither.
pub fn pypi_metadata(name: Option<String>, summary: Option<String>) -> (r: Option<HoverMetadata>)
    ensures
        if name is None && summary is None {
            r is None
        } else {
            r == Some(HoverMetadata { title: name, description: summary })
        },
{
    if name.is_none() && summary.is_none() {
        None
    } else {
        Some(HoverMetadata { title: name, description: summary })
    }
}

/// The package whose PyPI metadata a hover shows: none for a requirement that points at a
/// URL.
pub fn remote_lookup_name(requirement: &Pep508Requirement) -> (r: Option<&str>)
    ensures
        if requirement.view_requirement().version_or_url matches Some(RequirementVersionView::Url) {
            r is None
        } else {
            r matches Some(n) && n@ == requirement.name@
        },
{
    match &requirement.version_or_url {
        Some(RequirementVersion::Url) => None,
        _ => Some(requirement.name.as_str()),
    }
}

} // verus!
