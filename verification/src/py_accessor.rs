//! The shapes of path in a `pyproject.toml` that its features act on.

use vstd::prelude::*;

use crate::accessor::{accessor_is_key, is_key, matches_accessors, matches_pattern, pattern_view, Accessor};

verus! {

/// The dependency lists of `[tool.uv]`.
pub open spec fn uv_dependency_keys() -> Seq<Seq<char>> {
    seq![
        "dev-dependencies"@,
        "constraint-dependencies"@,
        "override-dependencies"@,
        "build-constraint-dependencies"@,
    ]
}

/// The dependency lists of `[tool.uv]`.
pub fn uv_dependency_key_list() -> (r: Vec<&'static str>)
    ensures
        r@.map_values(|s: &str| s@) == uv_dependency_keys(),
{
    let r = vec!["dev-dependencies", "constraint-dependencies", "override-dependencies", "build-constraint-dependencies"];
    assert(r@.map_values(|s: &str| s@) =~= uv_dependency_keys());
    r
}

/// Whether a path is `project.name`.
pub fn is_project_name_accessors(accessors: &[Accessor]) -> (r: bool)
    ensures
        r == matches_pattern(accessors@, seq![Some("project"@), Some("name"@)]),
{
    let p = [Some("project"), Some("name")];
    assert(pattern_view(p@) =~= seq![Some("project"@), Some("name"@)]);
    matches_accessors(accessors, &p)
}

/// Whether a path is an item of a standard dependency list: `project.dependencies`, a list
/// of `project.optional-dependencies`, or a dependency group.
pub fn is_dependency_name_accessors(accessors: &[Accessor]) -> (r: bool)
    ensures
        r == ({
            ||| matches_pattern(accessors@, seq![Some("project"@), Some("dependencies"@), None])
            ||| matches_pattern(accessors@, seq![Some("project"@), Some("optional-dependencies"@), None, None])
            ||| matches_pattern(accessors@, seq![Some("dependency-groups"@), None, None])
        }),
{
    let a = [Some("project"), Some("dependencies"), None];
    let b = [Some("project"), Some("optional-dependencies"), None, None];
    let c = [Some("dependency-groups"), None, None];
    assert(pattern_view(a@) =~= seq![Some("project"@), Some("dependencies"@), None]);
    assert(pattern_view(b@) =~= seq![Some("project"@), Some("optional-dependencies"@), None, None]);
    assert(pattern_view(c@) =~= seq![Some("dependency-groups"@), None, None]);
    matches_accessors(accessors, &a) || matches_accessors(accessors, &b) || matches_accessors(accessors, &c)
}

/// Whether a path is the name of a dependency group.
pub fn is_dependency_group_name_accessors(accessors: &[Accessor]) -> (r: bool)
    ensures
        r == matches_pattern(accessors@, seq![Some("dependency-groups"@), None]),
{
    let p = [Some("dependency-groups"), None];
    assert(pattern_view(p@) =~= seq![Some("dependency-groups"@), None]);
    matches_accessors(accessors, &p)
}

/// Whether a path is the `include-group` of an item of a dependency group.
pub fn is_dependency_groups_include_group_accessors(accessors: &[Accessor]) -> (r: bool)
    ensures
        r == matches_pattern(accessors@, seq![Some("dependency-groups"@), None, None, Some("include-group"@)]),
{
    let p = [Some("dependency-groups"), None, None, Some("include-group")];
    assert(pattern_view(p@) =~= seq![Some("dependency-groups"@), None, None, Some("include-group"@)]);
    matches_accessors(accessors, &p)
}

/// Whether the first three steps of a path (all of it, where it is shorter) are
/// `tool.uv.<key>`.
pub open spec fn starts_with_tool_uv(accessors: Seq<Accessor>, key: Seq<char>) -> bool {
    matches_pattern(
        accessors.take(if accessors.len() < 3 { accessors.len() as int } else { 3 }),
        seq![Some("tool"@), Some("uv"@), Some(key)],
    )
}

/// Whether the first three steps of a path are `tool.uv.<key>`.
fn starts_with_tool_uv_exec(accessors: &[Accessor], key: &str) -> (r: bool)
    ensures
        r == starts_with_tool_uv(accessors@, key@),
{
    let n = accessors.len();
    let m = if n < 3 { n } else { 3 };
    let head = vstd::slice::slice_subrange(accessors, 0, m);
    let p = [Some("tool"), Some("uv"), Some(key)];
    assert(pattern_view(p@) =~= seq![Some("tool"@), Some("uv"@), Some(key@)]);
    assert(head@ =~= accessors@.take(m as int));
    matches_accessors(head, &p)
}

/// Whether a path lies in `[tool.uv.sources]`.
pub fn has_uv_sources_accessors(accessors: &[Accessor]) -> (r: bool)
    ensures
        r == starts_with_tool_uv(accessors@, "sources"@),
{
    starts_with_tool_uv_exec(accessors, "sources")
}

/// Whether a path is a source of `[tool.uv.sources]`.
pub fn is_uv_sources_accessors(accessors: &[Accessor]) -> (r: bool)
    ensures
        r == matches_pattern(accessors@, seq![Some("tool"@), Some("uv"@), Some("sources"@), None]),
{
    let p = [Some("tool"), Some("uv"), Some("sources"), None];
    assert(pattern_view(p@) =~= seq![Some("tool"@), Some("uv"@), Some("sources"@), None]);
    matches_accessors(accessors, &p)
}

/// Whether a path is the `workspace` flag of a uv source.
pub fn is_uv_source_workspace_accessors(accessors: &[Accessor]) -> (r: bool)
    ensures
        r == matches_pattern(accessors@, seq![Some("tool"@), Some("uv"@), Some("sources"@), None, Some("workspace"@)]),
{
    let p = [Some("tool"), Some("uv"), Some("sources"), None, Some("workspace")];
    assert(pattern_view(p@) =~= seq![Some("tool"@), Some("uv"@), Some("sources"@), None, Some("workspace"@)]);
    matches_accessors(accessors, &p)
}

/// Whether a path is the `path` of a uv source.
pub fn is_uv_source_path_accessors(accessors: &[Accessor]) -> (r: bool)
    ensures
        r == matches_pattern(accessors@, seq![Some("tool"@), Some("uv"@), Some("sources"@), None, Some("path"@)]),
{
    let p = [Some("tool"), Some("uv"), Some("sources"), None, Some("path")];
    assert(pattern_view(p@) =~= seq![Some("tool"@), Some("uv"@), Some("sources"@), None, Some("path"@)]);
    matches_accessors(accessors, &p)
}

/// Whether a path lies in `[tool.uv.workspace]`.
pub fn is_uv_workspace_accessors(accessors: &[Accessor]) -> (r: bool)
    ensures
        r == starts_with_tool_uv(accessors@, "workspace"@),
{
    starts_with_tool_uv_exec(accessors, "workspace")
}

/// Whether a path is an item of one of the dependency lists of `[tool.uv]`.
pub open spec fn is_uv_dependency_path(accessors: Seq<Accessor>) -> bool {
    &&& accessors.len() == 4
    &&& is_key(accessors[0], "tool"@)
    &&& is_key(accessors[1], "uv"@)
    &&& accessors[3] is Index
    &&& exists|i: int| 0 <= i < uv_dependency_keys().len() && is_key(accessors[2], #[trigger] uv_dependency_keys()[i])
}

/// Whether a path is an item of one of the dependency lists of `[tool.uv]`.
pub fn is_uv_dependency_accessor(accessors: &[Accessor]) -> (r: bool)
    ensures
        r == is_uv_dependency_path(accessors@),
{
    if accessors.len() != 4 {
        return false;
    }
    let is_index = match &accessors[3] {
        Accessor::Index(_) => true,
        Accessor::Key(_) => false,
    };
    if !(accessor_is_key(&accessors[0], "tool") && accessor_is_key(&accessors[1], "uv") && is_index) {
        return false;
    }
    let keys = uv_dependency_key_list();
    let mut i: usize = 0;
    while i < keys.len()
        invariant
            keys@.map_values(|s: &str| s@) == uv_dependency_keys(),
            accessors@.len() == 4,
            is_key(accessors@[0], "tool"@),
            is_key(accessors@[1], "uv"@),
            accessors@[3] is Index,
            0 <= i <= keys@.len(),
            forall|j: int| 0 <= j < i ==> !is_key(accessors@[2], #[trigger] uv_dependency_keys()[j]),
        decreases keys@.len() - i,
    {
        assert(uv_dependency_keys()[i as int] == keys@[i as int]@);
        if accessor_is_key(&accessors[2], keys[i]) {
            assert(is_key(accessors@[2], uv_dependency_keys()[i as int]));
            return true;
        }
        i = i + 1;
    }
    false
}

/// The path of the dependency item that a path lies in, where it lies in one.
pub open spec fn dependency_item_path(accessors: Seq<Accessor>) -> Option<Seq<Accessor>> {
    if matches_pattern(accessors, seq![Some("project"@), Some("dependencies"@), None]) {
        Some(accessors.take(3))
    } else if matches_pattern(accessors, seq![Some("project"@), Some("optional-dependencies"@), None, None]) {
        Some(accessors.take(4))
    } else if matches_pattern(accessors, seq![Some("dependency-groups"@), None, None]) {
        Some(accessors.take(3))
    } else if is_uv_dependency_path(accessors) {
        Some(accessors.take(4))
    } else {
        None
    }
}

/// The path of the dependency item that a path lies in.
pub fn get_dependency_accessors(accessors: &[Accessor]) -> (r: Option<&[Accessor]>)
    ensures
        match dependency_item_path(accessors@) {
            Some(p) => r matches Some(x) && x@ == p,
            None => r is None,
        },
{
    let a = [Some("project"), Some("dependencies"), None];
    let b = [Some("project"), Some("optional-dependencies"), None, None];
    let c = [Some("dependency-groups"), None, None];
    assert(pattern_view(a@) =~= seq![Some("project"@), Some("dependencies"@), None]);
    assert(pattern_view(b@) =~= seq![Some("project"@), Some("optional-dependencies"@), None, None]);
    assert(pattern_view(c@) =~= seq![Some("dependency-groups"@), None, None]);
    if matches_accessors(accessors, &a) {
        let r = vstd::slice::slice_subrange(accessors, 0, 3);
        assert(r@ =~= accessors@.take(3));
        Some(r)
    } else if matches_accessors(accessors, &b) {
        let r = vstd::slice::slice_subrange(accessors, 0, 4);
        assert(r@ =~= accessors@.take(4));
        Some(r)
    } else if matches_accessors(accessors, &c) {
        let r = vstd::slice::slice_subrange(accessors, 0, 3);
        assert(r@ =~= accessors@.take(3));
        Some(r)
    } else if is_uv_dependency_accessor(accessors) {
        let r = vstd::slice::slice_subrange(accessors, 0, 4);
        assert(r@ =~= accessors@.take(4));
        Some(r)
    } else {
        None
    }
}

/// Which navigation feature a path in a `pyproject.toml` belongs to.
#[derive(Debug, Clone, Copy, PartialEq, Eq, Structural)]
pub enum PyprojectNavigationFeature {
    Dependency,
    Member,
    Path,
}

/// The navigation feature of a path in a `pyproject.toml`: a `path` key, the uv workspace
/// or sources, or else a dependency.
pub fn classify_pyproject_navigation_feature(accessors: &[Accessor]) -> (r: PyprojectNavigationFeature)
    ensures
        r == if accessors@.len() > 0 && is_key(accessors@.last(), "path"@) {
            PyprojectNavigationFeature::Path
        } else if starts_with_tool_uv(accessors@, "workspace"@) || starts_with_tool_uv(accessors@, "sources"@) {
            PyprojectNavigationFeature::Member
        } else {
            PyprojectNavigationFeature::Dependency
        },
{
    let n = accessors.len();
    if n > 0 && accessor_is_key(&accessors[n - 1], "path") {
        PyprojectNavigationFeature::Path
    } else if is_uv_workspace_accessors(accessors) || has_uv_sources_accessors(accessors) {
        PyprojectNavigationFeature::Member
    } else {
        PyprojectNavigationFeature::Dependency
    }
}

/// What path completion offers at a value of a `pyproject.toml`.
#[derive(Debug, Clone, Copy, PartialEq, Eq, Structural)]
pub enum PathCompletion {
    /// Directories only: the members and excludes of the uv workspace.
    Directory,
    /// Files and directories: a source's `path`, the build backend path, the readme and
    /// the license files.
    File,
}

/// What path completion offers at a path of a `pyproject.toml`, if anything.
pub open spec fn path_completion_of(a: Seq<Accessor>) -> Option<PathCompletion> {
    if matches_pattern(a, seq![Some("tool"@), Some("uv"@), Some("workspace"@), Some("members"@), None]) || matches_pattern(
        a,
        seq![Some("tool"@), Some("uv"@), Some("workspace"@), Some("exclude"@), None],
    ) {
        Some(PathCompletion::Directory)
    } else if matches_pattern(a, seq![Some("tool"@), Some("uv"@), Some("sources"@), None, Some("path"@)])
        || matches_pattern(a, seq![Some("build-system"@), Some("backend-path"@), None])
        || matches_pattern(a, seq![Some("project"@), Some("readme"@)])
        || matches_pattern(a, seq![Some("project"@), Some("readme"@), Some("file"@)])
        || matches_pattern(a, seq![Some("project"@), Some("license"@), Some("file"@)])
        || matches_pattern(a, seq![Some("project"@), Some("license-files"@), None]) {
        Some(PathCompletion::File)
    } else {
        None
    }
}

/// What path completion offers at a path of a `pyproject.toml`.
pub fn completion_path_kind(accessors: &[Accessor]) -> (r: Option<PathCompletion>)
    ensures
        r == path_completion_of(accessors@),
{
    let members = [Some("tool"), Some("uv"), Some("workspace"), Some("members"), None];
    let exclude = [Some("tool"), Some("uv"), Some("workspace"), Some("exclude"), None];
    assert(pattern_view(members@) =~= seq![Some("tool"@), Some("uv"@), Some("workspace"@), Some("members"@), None]);
    assert(pattern_view(exclude@) =~= seq![Some("tool"@), Some("uv"@), Some("workspace"@), Some("exclude"@), None]);
    if matches_accessors(accessors, &members) || matches_accessors(accessors, &exclude) {
        return Some(PathCompletion::Directory);
    }
    let source = [Some("tool"), Some("uv"), Some("sources"), None, Some("path")];
    let backend = [Some("build-system"), Some("backend-path"), None];
    let readme = [Some("project"), Some("readme")];
    let readme_file = [Some("project"), Some("readme"), Some("file")];
    let license_file = [Some("project"), Some("license"), Some("file")];
    let license_files = [Some("project"), Some("license-files"), None];
    assert(pattern_view(source@) =~= seq![Some("tool"@), Some("uv"@), Some("sources"@), None, Some("path"@)]);
    assert(pattern_view(backend@) =~= seq![Some("build-system"@), Some("backend-path"@), None]);
    assert(pattern_view(readme@) =~= seq![Some("project"@), Some("readme"@)]);
    assert(pattern_view(readme_file@) =~= seq![Some("project"@), Some("readme"@), Some("file"@)]);
    assert(pattern_view(license_file@) =~= seq![Some("project"@), Some("license"@), Some("file"@)]);
    assert(pattern_view(license_files@) =~= seq![Some("project"@), Some("license-files"@), None]);
    if matches_accessors(accessors, &source) || matches_accessors(accessors, &backend) || matches_accessors(
        accessors,
        &readme,
    ) || matches_accessors(accessors, &readme_file) || matches_accessors(accessors, &license_file)
        || matches_accessors(accessors, &license_files) {
        Some(PathCompletion::File)
    } else {
        None
    }
}

} // verus!
