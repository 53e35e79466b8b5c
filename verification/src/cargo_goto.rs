//! Where "go to definition" leads from the dependency and member entries of a
//! `Cargo.toml`: to the package that a path dependency names, to the members of a
//! workspace, and from an entry of `[workspace.dependencies]` to the members that use it.
//!
//! The caller finds and reads the manifests involved and hands them over, each with its
//! path.

use vstd::prelude::*;
use vstd::string::StringExecFns;

use crate::accessor::{
    accessor_is_key, dig_accessors, dig_path, is_dependency_path, is_key, matches_accessors,
    matches_pattern, pattern_view, Accessor,
};
use crate::dependency_link::{inside_quotes, table_entries, unquoted_range};
use crate::document::{dig, dig_keys, key_views, table_get, Key, Range, Value};
use crate::feature_navigation::dependency_kinds;

verus! {

/// A place to go to: a manifest's path and a span in it.
#[derive(Debug, Clone, PartialEq, Eq)]
pub struct DefinitionLocation {
    pub path: String,
    pub range: Range,
}

/// A place as plain values.
pub type LocationView = (Seq<char>, Range);

pub open spec fn location_view(l: DefinitionLocation) -> LocationView {
    (l.path@, l.range)
}

pub open spec fn locations_view(ls: Seq<DefinitionLocation>) -> Seq<LocationView> {
    ls.map_values(|l: DefinitionLocation| location_view(l))
}

/// The package name of the manifest at `path`: the text of its `package.name` string.
pub open spec fn package_name_location_of(path: Seq<char>, document: Value) -> Option<LocationView> {
    match dig(document, seq!["package"@, "name"@]) {
        Some((_, Value::String { range, .. })) => Some((path, inside_quotes(range))),
        _ => None,
    }
}

/// The package name of the manifest at `path`; see `package_name_location_of`.
pub fn package_name_location(path: &str, document: &Value) -> (r: Option<DefinitionLocation>)
    ensures
        match package_name_location_of(path@, *document) {
            Some(l) => r matches Some(x) && location_view(x) == l,
            None => r is None,
        },
{
    let keys = ["package", "name"];
    assert(key_views(keys@) =~= seq!["package"@, "name"@]);
    match dig_keys(document, &keys) {
        Some((_, Value::String { range, .. })) => Some(
            DefinitionLocation { path: String::from_str(path), range: unquoted_range(*range) },
        ),
        _ => None,
    }
}

/// The package names of the manifests that member patterns found, in order; a manifest
/// without one gives none.
pub open spec fn member_locations_of(found: Seq<(String, Value)>) -> Seq<LocationView>
    decreases found.len(),
{
    if found.len() == 0 {
        Seq::empty()
    } else {
        member_locations_of(found.drop_last()) + match package_name_location_of(found.last().0@, found.last().1) {
            Some(l) => seq![l],
            None => Seq::empty(),
        }
    }
}

/// The package names of the member manifests that the caller found; see
/// `member_locations_of`.
pub fn member_crate_locations(found: &[(String, Value)]) -> (r: Vec<DefinitionLocation>)
    ensures
        locations_view(r@) == member_locations_of(found@),
{
    let mut out: Vec<DefinitionLocation> = Vec::new();
    let n = found.len();
    let mut i: usize = 0;
    assert(locations_view(out@) =~= member_locations_of(found@.take(0)));
    while i < n
        invariant
            n == found@.len(),
            0 <= i <= n,
            locations_view(out@) == member_locations_of(found@.take(i as int)),
        decreases n - i,
    {
        assert(found@.take(i + 1).drop_last() =~= found@.take(i as int));
        assert(found@.take(i + 1).last() == found@[i as int]);
        let ghost before = locations_view(out@);
        match package_name_location(found[i].0.as_str(), &found[i].1) {
            Some(l) => {
                let ghost v = location_view(l);
                out.push(l);
                assert(locations_view(out@) =~= before.push(v));
            },
            None => {},
        }
        assert(locations_view(out@) =~= member_locations_of(found@.take(i + 1)));
        i = i + 1;
    }
    assert(found@.take(n as int) =~= found@);
    out
}

/// The keys under which `table` lists `crate_name` in the dependency tables `kinds`, as
/// places in the manifest at `path`.
pub open spec fn kinds_key_locations(table: Value, kinds: Seq<Seq<char>>, crate_name: Seq<char>, path: Seq<char>) -> Seq<
    LocationView,
>
    decreases kinds.len(),
{
    if kinds.len() == 0 {
        Seq::empty()
    } else {
        kinds_key_locations(table, kinds.drop_last(), crate_name, path) + match dig(
            table,
            seq![kinds.last(), crate_name],
        ) {
            Some((key, _)) => seq![(path, key.range)],
            None => Seq::empty(),
        }
    }
}

/// The keys under which the platform tables `platforms` list `crate_name`, as places in the
/// manifest at `path`.
pub open spec fn platforms_key_locations(platforms: Seq<(Key, Value)>, crate_name: Seq<char>, path: Seq<char>) -> Seq<
    LocationView,
>
    decreases platforms.len(),
{
    if platforms.len() == 0 {
        Seq::empty()
    } else {
        platforms_key_locations(platforms.drop_last(), crate_name, path) + kinds_key_locations(
            platforms.last().1,
            dependency_kinds(),
            crate_name,
            path,
        )
    }
}

/// Where the members use the workspace dependency `crate_name`: for each member manifest
/// that names its package, in order, the keys of its dependency tables that list it, then
/// the keys that the platform tables `platforms` (those of the workspace manifest's
/// `[target]`) list it under, as places in that member's manifest.
pub open spec fn member_usage_locations(
    found: Seq<(String, Value)>,
    platforms: Seq<(Key, Value)>,
    crate_name: Seq<char>,
) -> Seq<LocationView>
    decreases found.len(),
{
    if found.len() == 0 {
        Seq::empty()
    } else {
        member_usage_locations(found.drop_last(), platforms, crate_name) + match package_name_location_of(
            found.last().0@,
            found.last().1,
        ) {
            Some(_) => kinds_key_locations(found.last().1, dependency_kinds(), crate_name, found.last().0@)
                + platforms_key_locations(platforms, crate_name, found.last().0@),
            None => Seq::empty(),
        }
    }
}

/// Where a dependency entry at `accessors` leads: where it has a `path`, to the package
/// name of the manifest `subcrate` that the path leads to; else, where it says
/// `workspace = true`, to `inherited` (where following that flag leads). An entry of
/// `[workspace.dependencies]` also leads to where the members (`members`, the member
/// manifests found) use it.
pub open spec fn dependency_crate_locations(
    document: Value,
    accessors: Seq<Accessor>,
    subcrate: Option<(Seq<char>, Value)>,
    inherited: Seq<LocationView>,
    members: Seq<(String, Value)>,
) -> Seq<LocationView> {
    if accessors.len() == 0 {
        Seq::empty()
    } else {
        match (accessors.last(), dig_path(document, accessors)) {
            (Accessor::Key(crate_name), Some(value)) => {
                let own = if value is Table {
                    match table_get(value, "path"@) {
                        Some(Value::String { .. }) => match subcrate {
                            Some((p, d)) => match package_name_location_of(p, d) {
                                Some(l) => seq![l],
                                None => Seq::empty(),
                            },
                            None => Seq::empty(),
                        },
                        _ => match table_get(value, "workspace"@) {
                            Some(Value::Boolean { value: true, .. }) => inherited,
                            _ => Seq::empty(),
                        },
                    }
                } else {
                    Seq::empty()
                };
                let usages = if is_key(accessors[0], "workspace"@) {
                    member_usage_locations(members, table_entries(table_get(document, "target"@)), crate_name@)
                } else {
                    Seq::empty()
                };
                own + usages
            },
            _ => Seq::empty(),
        }
    }
}

/// The keys under which `table` lists `crate_name` in its dependency tables; see
/// `kinds_key_locations`.
fn push_kinds_key_locations(table: &Value, crate_name: &str, path: &str, out: &mut Vec<DefinitionLocation>)
    ensures
        locations_view(final(out)@) == locations_view(old(out)@) + kinds_key_locations(
            *table,
            dependency_kinds(),
            crate_name@,
            path@,
        ),
{
    let ghost start = locations_view(out@);
    let kinds = ["dependencies", "dev-dependencies", "build-dependencies"];
    let ghost ks = dependency_kinds();
    assert(key_views(kinds@) =~= ks);
    let mut i: usize = 0;
    assert(locations_view(out@) =~= start + kinds_key_locations(*table, ks.take(0), crate_name@, path@));
    while i < 3
        invariant
            key_views(kinds@) == ks,
            ks == dependency_kinds(),
            kinds@.len() == 3,
            0 <= i <= 3,
            locations_view(out@) == start + kinds_key_locations(*table, ks.take(i as int), crate_name@, path@),
        decreases 3 - i,
    {
        assert(ks.take(i + 1).drop_last() =~= ks.take(i as int));
        assert(ks.take(i + 1).last() == kinds@[i as int]@);
        let keys = [kinds[i], crate_name];
        assert(key_views(keys@) =~= seq![kinds@[i as int]@, crate_name@]);
        let ghost before = locations_view(out@);
        match dig_keys(table, &keys) {
            Some((key, _)) => {
                let l = DefinitionLocation { path: String::from_str(path), range: key.range };
                let ghost v = location_view(l);
                out.push(l);
                assert(locations_view(out@) =~= before.push(v));
            },
            None => {},
        }
        assert(locations_view(out@) =~= start + kinds_key_locations(*table, ks.take(i + 1), crate_name@, path@));
        i = i + 1;
    }
    assert(ks.take(3) =~= ks);
}

/// Where the members use the workspace dependency `crate_name`; see
/// `member_usage_locations`.
fn push_member_usage_locations(
    found: &[(String, Value)],
    platforms: &[(Key, Value)],
    crate_name: &str,
    out: &mut Vec<DefinitionLocation>,
)
    ensures
        locations_view(final(out)@) == locations_view(old(out)@) + member_usage_locations(
            found@,
            platforms@,
            crate_name@,
        ),
{
    let ghost start = locations_view(out@);
    let n = found.len();
    let mut i: usize = 0;
    assert(locations_view(out@) =~= start + member_usage_locations(found@.take(0), platforms@, crate_name@));
    while i < n
        invariant
            n == found@.len(),
            0 <= i <= n,
            locations_view(out@) == start + member_usage_locations(found@.take(i as int), platforms@, crate_name@),
        decreases n - i,
    {
        assert(found@.take(i + 1).drop_last() =~= found@.take(i as int));
        assert(found@.take(i + 1).last() == found@[i as int]);
        let (path, document) = &found[i];
        let ghost before = locations_view(out@);
        match package_name_location(path.as_str(), document) {
            Some(_) => {
                push_kinds_key_locations(document, crate_name, path.as_str(), out);
                let ghost middle = locations_view(out@);
                let m = platforms.len();
                let mut j: usize = 0;
                assert(middle =~= middle + platforms_key_locations(platforms@.take(0), crate_name@, path@));
                while j < m
                    invariant
                        m == platforms@.len(),
                        0 <= j <= m,
                        locations_view(out@) == middle + platforms_key_locations(
                            platforms@.take(j as int),
                            crate_name@,
                            path@,
                        ),
                    decreases m - j,
                {
                    assert(platforms@.take(j + 1).drop_last() =~= platforms@.take(j as int));
                    assert(platforms@.take(j + 1).last() == platforms@[j as int]);
                    push_kinds_key_locations(&platforms[j].1, crate_name, path.as_str(), out);
                    assert(locations_view(out@) =~= middle + platforms_key_locations(
                        platforms@.take(j + 1),
                        crate_name@,
                        path@,
                    ));
                    j = j + 1;
                }
                assert(platforms@.take(m as int) =~= platforms@);
                assert(locations_view(out@) =~= before + (kinds_key_locations(
                    *document,
                    dependency_kinds(),
                    crate_name@,
                    path@,
                ) + platforms_key_locations(platforms@, crate_name@, path@)));
            },
            None => {},
        }
        assert(locations_view(out@) =~= start + member_usage_locations(found@.take(i + 1), platforms@, crate_name@));
        i = i + 1;
    }
    assert(found@.take(n as int) =~= found@);
}

/// Where a dependency entry leads (see `dependency_crate_locations`). The caller reads
/// what it leads to: `subcrate` is the manifest that the entry's `path` leads to, from the
/// directory of the manifest at hand; `inherited` where following its `workspace = true`
/// leads; `members` the member manifests that `workspace.members` finds.
pub fn goto_dependency_crates(
    document: &Value,
    accessors: &[Accessor],
    subcrate: Option<(&str, &Value)>,
    inherited: Vec<DefinitionLocation>,
    members: &[(String, Value)],
) -> (r: Vec<DefinitionLocation>)
    ensures
        locations_view(r@) == dependency_crate_locations(
            *document,
            accessors@,
            crate::dependency_link::loaded_view(subcrate),
            locations_view(inherited@),
            members@,
        ),
{
    let n = accessors.len();
    if n == 0 {
        return Vec::new();
    }
    let crate_name = match &accessors[n - 1] {
        Accessor::Key(k) => k,
        Accessor::Index(_) => return Vec::new(),
    };
    let value = match dig_accessors(document, accessors) {
        Some(v) => v,
        None => return Vec::new(),
    };
    let mut out: Vec<DefinitionLocation> = Vec::new();
    match value {
        Value::Table { .. } => match value.get("path") {
            Some(Value::String { .. }) => match subcrate {
                Some((p, d)) => match package_name_location(p, d) {
                    Some(l) => out.push(l),
                    None => {},
                },
                None => {},
            },
            _ => match value.get("workspace") {
                Some(Value::Boolean { value: true, .. }) => {
                    out = inherited;
                },
                _ => {},
            },
        },
        _ => {},
    }
    let ghost own = locations_view(out@);
    if accessor_is_key(&accessors[0], "workspace") {
        let platforms: &[(Key, Value)] = match document.get("target") {
            Some(Value::Table { entries, .. }) => entries.as_slice(),
            _ => &[],
        };
        assert(platforms@ == table_entries(table_get(*document, "target"@)));
        push_member_usage_locations(members, platforms, crate_name.as_str(), &mut out);
    }
    out
}

/// What "go to definition" does at a path of a workspace manifest.
#[derive(Debug, Clone, Copy, PartialEq, Eq)]
pub enum WorkspaceManifestGoto {
    /// An entry of `[workspace.dependencies]`: see `goto_dependency_crates`.
    DependencyCrates,
    /// The `path` of such an entry: to the package name of the manifest it leads to.
    CratePackage,
    /// `workspace.members` or one of its patterns: to the member packages.
    MemberCrates,
    /// `workspace.default-members` or one of its patterns: to those member packages.
    DefaultMemberCrates,
    /// Anything else: nowhere.
    Nothing,
}

/// What "go to definition" does at `accessors` of a workspace manifest.
pub open spec fn workspace_manifest_goto_of(accessors: Seq<Accessor>) -> WorkspaceManifestGoto {
    if matches_pattern(accessors, seq![Some("workspace"@), Some("dependencies"@), None]) {
        WorkspaceManifestGoto::DependencyCrates
    } else if matches_pattern(accessors, seq![Some("workspace"@), Some("dependencies"@), None, Some("path"@)]) {
        WorkspaceManifestGoto::CratePackage
    } else if matches_pattern(accessors, seq![Some("workspace"@), Some("members"@)]) || matches_pattern(
        accessors,
        seq![Some("workspace"@), Some("members"@), None],
    ) {
        WorkspaceManifestGoto::MemberCrates
    } else if matches_pattern(accessors, seq![Some("workspace"@), Some("default-members"@)]) || matches_pattern(
        accessors,
        seq![Some("workspace"@), Some("default-members"@), None],
    ) {
        WorkspaceManifestGoto::DefaultMemberCrates
    } else {
        WorkspaceManifestGoto::Nothing
    }
}

/// In a workspace manifest, "go to definition" on a pattern of `workspace.members` or of
/// `workspace.default-members` goes where it goes on the list itself: to the member
/// packages, all of them for `members` and those named for `default-members`.
pub proof fn lemma_member_patterns_route_like_their_list(list: Seq<Accessor>, item: Accessor)
    requires
        list.len() == 2,
        is_key(list[0], "workspace"@),
        is_key(list[1], "members"@) || is_key(list[1], "default-members"@),
    ensures
        workspace_manifest_goto_of(list.push(item)) == workspace_manifest_goto_of(list),
        is_key(list[1], "members"@) ==> workspace_manifest_goto_of(list) == WorkspaceManifestGoto::MemberCrates,
        is_key(list[1], "default-members"@) ==> workspace_manifest_goto_of(list)
            == WorkspaceManifestGoto::DefaultMemberCrates,
{
    let a = list.push(item);
    assert(a[0] == list[0] && a[1] == list[1]);
    reveal_strlit("members");
    reveal_strlit("default-members");
    reveal_strlit("dependencies");
    assert("members"@.len() == 7 && "default-members"@.len() == 15 && "dependencies"@.len() == 12);
    if is_key(list[1], "members"@) {
        assert(matches_pattern(list, seq![Some("workspace"@), Some("members"@)]));
        assert(matches_pattern(a, seq![Some("workspace"@), Some("members"@), None]));
    } else {
        assert(matches_pattern(list, seq![Some("workspace"@), Some("default-members"@)]));
        assert(matches_pattern(a, seq![Some("workspace"@), Some("default-members"@), None]));
    }
}

/// What "go to definition" does at `accessors` of a workspace manifest; see
/// `workspace_manifest_goto_of`.
pub fn workspace_manifest_goto(accessors: &[Accessor]) -> (r: WorkspaceManifestGoto)
    ensures
        r == workspace_manifest_goto_of(accessors@),
{
    let a = [Some("workspace"), Some("dependencies"), None];
    let b = [Some("workspace"), Some("dependencies"), None, Some("path")];
    let c = [Some("workspace"), Some("members")];
    let d = [Some("workspace"), Some("members"), None];
    let e = [Some("workspace"), Some("default-members")];
    let f = [Some("workspace"), Some("default-members"), None];
    assert(pattern_view(a@) =~= seq![Some("workspace"@), Some("dependencies"@), None]);
    assert(pattern_view(b@) =~= seq![Some("workspace"@), Some("dependencies"@), None, Some("path"@)]);
    assert(pattern_view(c@) =~= seq![Some("workspace"@), Some("members"@)]);
    assert(pattern_view(d@) =~= seq![Some("workspace"@), Some("members"@), None]);
    assert(pattern_view(e@) =~= seq![Some("workspace"@), Some("default-members"@)]);
    assert(pattern_view(f@) =~= seq![Some("workspace"@), Some("default-members"@), None]);
    if matches_accessors(accessors, &a) {
        WorkspaceManifestGoto::DependencyCrates
    } else if matches_accessors(accessors, &b) {
        WorkspaceManifestGoto::CratePackage
    } else if matches_accessors(accessors, &c) || matches_accessors(accessors, &d) {
        WorkspaceManifestGoto::MemberCrates
    } else if matches_accessors(accessors, &e) || matches_accessors(accessors, &f) {
        WorkspaceManifestGoto::DefaultMemberCrates
    } else {
        WorkspaceManifestGoto::Nothing
    }
}

/// What "go to definition" does at a path of a package manifest.
#[derive(Debug, Clone, Copy, PartialEq, Eq)]
pub enum CrateManifestGoto {
    /// A dependency entry: see `goto_dependency_crates`.
    DependencyCrates,
    /// A `workspace` key: to what it inherits (see `workspace_definition`).
    Workspace,
    /// The `path` of a dependency entry: to the package name of the manifest it leads to.
    CratePackage,
    /// The `path` of a `[[bin]]` target: to that file.
    BinPath,
    /// Anything else: nowhere.
    Nothing,
}

/// What "go to definition" does at `accessors` of a package manifest: a dependency entry
/// first, then a path ending in `workspace`, then a dependency's `path`, then a
/// `[[bin]]` target's `path`.
pub open spec fn crate_manifest_goto_of(accessors: Seq<Accessor>) -> CrateManifestGoto {
    if is_dependency_path(accessors, Seq::empty()) {
        CrateManifestGoto::DependencyCrates
    } else if accessors.len() > 0 && is_key(accessors.last(), "workspace"@) {
        CrateManifestGoto::Workspace
    } else if is_dependency_path(accessors, seq![Some("path"@)]) {
        CrateManifestGoto::CratePackage
    } else if matches_pattern(accessors, seq![Some("bin"@), None, Some("path"@)]) {
        CrateManifestGoto::BinPath
    } else {
        CrateManifestGoto::Nothing
    }
}

/// What "go to definition" does at `accessors` of a package manifest; see
/// `crate_manifest_goto_of`.
pub fn crate_manifest_goto(accessors: &[Accessor]) -> (r: CrateManifestGoto)
    ensures
        r == crate_manifest_goto_of(accessors@),
{
    let bin = [Some("bin"), None, Some("path")];
    assert(pattern_view(bin@) =~= seq![Some("bin"@), None, Some("path"@)]);
    if crate::accessor::is_dependency_accessor(accessors) {
        CrateManifestGoto::DependencyCrates
    } else if crate::accessor::is_workspace_key_accessor(accessors) {
        CrateManifestGoto::Workspace
    } else if crate::accessor::is_dependency_path_accessor(accessors) {
        CrateManifestGoto::CratePackage
    } else if matches_accessors(accessors, &bin) {
        CrateManifestGoto::BinPath
    } else {
        CrateManifestGoto::Nothing
    }
}

/// The path string at `accessors` that a dependency's or a `[[bin]]` target's `path`
/// holds, where it is a string.
pub fn path_string_at<'a>(document: &'a Value, accessors: &[Accessor]) -> (r: Option<&'a String>)
    ensures
        match dig_path(*document, accessors@) {
            Some(Value::String { value, .. }) => r matches Some(s) && *s == value,
            _ => r is None,
        },
{
    match dig_accessors(document, accessors) {
        Some(Value::String { value, .. }) => Some(value),
        _ => None,
    }
}

/// The keys among the entries of a dependency table that stand for the package `name`
/// (by their own name or their `package`), as places in the manifest at `path`.
pub open spec fn table_references(entries: Seq<(Key, Value)>, name: Seq<char>, path: Seq<char>) -> Seq<LocationView>
    decreases entries.len(),
{
    if entries.len() == 0 {
        Seq::empty()
    } else {
        table_references(entries.drop_last(), name, path) + if crate::inlay::package_name_of(
            entries.last().0.value@,
            entries.last().1,
        ) == name {
            seq![(path, entries.last().0.range)]
        } else {
            Seq::empty()
        }
    }
}

/// The references to `name` in the dependency tables `kinds` of `table`.
pub open spec fn kinds_references(table: Value, kinds: Seq<Seq<char>>, name: Seq<char>, path: Seq<char>) -> Seq<
    LocationView,
>
    decreases kinds.len(),
{
    if kinds.len() == 0 {
        Seq::empty()
    } else {
        kinds_references(table, kinds.drop_last(), name, path) + match table_get(table, kinds.last()) {
            Some(Value::Table { entries, .. }) => table_references(entries@, name, path),
            _ => Seq::empty(),
        }
    }
}

/// The references to `name` in the dependency tables of the platform tables `platforms`.
pub open spec fn platforms_references(platforms: Seq<(Key, Value)>, name: Seq<char>, path: Seq<char>) -> Seq<
    LocationView,
>
    decreases platforms.len(),
{
    if platforms.len() == 0 {
        Seq::empty()
    } else {
        platforms_references(platforms.drop_last(), name, path) + if platforms.last().1 is Table {
            kinds_references(platforms.last().1, dependency_kinds(), name, path)
        } else {
            Seq::empty()
        }
    }
}

/// The references to `name` in a member manifest at `path`: in its dependency tables, then
/// in those of the platforms of its `[target]`.
pub open spec fn member_references(document: Value, name: Seq<char>, path: Seq<char>) -> Seq<LocationView> {
    kinds_references(document, dependency_kinds(), name, path) + platforms_references(
        table_entries(table_get(document, "target"@)),
        name,
        path,
    )
}

/// The references to `name` in the members found that name their package, one member
/// after another.
pub open spec fn members_references(found: Seq<(String, Value)>, name: Seq<char>) -> Seq<LocationView>
    decreases found.len(),
{
    if found.len() == 0 {
        Seq::empty()
    } else {
        members_references(found.drop_last(), name) + match package_name_location_of(found.last().0@, found.last().1) {
            Some(_) => member_references(found.last().1, name, found.last().0@),
            None => Seq::empty(),
        }
    }
}

/// Where a package's name is referred to in its workspace: where the manifest's
/// `package.name` is a string and it belongs to a workspace (`workspace`, its path and
/// document), the entries of `[workspace.dependencies]` that stand for it, then the
/// dependency entries of the members (`members`, the member manifests found) that do.
pub open spec fn package_name_references_of(
    document: Value,
    workspace: Option<(Seq<char>, Value)>,
    members: Seq<(String, Value)>,
) -> Seq<LocationView> {
    match (dig(document, seq!["package"@, "name"@]), workspace) {
        (Some((_, Value::String { value: name, .. })), Some((workspace_path, workspace_document))) => {
            let workspace_entries = match dig(workspace_document, seq!["workspace"@, "dependencies"@]) {
                Some((_, Value::Table { entries, .. })) => table_references(entries@, name@, workspace_path),
                _ => Seq::empty(),
            };
            workspace_entries + members_references(members, name@)
        },
        _ => Seq::empty(),
    }
}

/// Appends the references to `name` among the entries of a dependency table.
fn push_table_references(entries: &[(Key, Value)], name: &str, path: &str, out: &mut Vec<DefinitionLocation>)
    ensures
        locations_view(final(out)@) == locations_view(old(out)@) + table_references(entries@, name@, path@),
{
    let ghost start = locations_view(out@);
    let n = entries.len();
    let mut i: usize = 0;
    assert(locations_view(out@) =~= start + table_references(entries@.take(0), name@, path@));
    while i < n
        invariant
            n == entries@.len(),
            0 <= i <= n,
            locations_view(out@) == start + table_references(entries@.take(i as int), name@, path@),
        decreases n - i,
    {
        assert(entries@.take(i + 1).drop_last() =~= entries@.take(i as int));
        assert(entries@.take(i + 1).last() == entries@[i as int]);
        let (key, value) = &entries[i];
        let ghost before = locations_view(out@);
        if crate::text::str_eq(crate::inlay::dependency_package_name(key.value.as_str(), value), name) {
            let l = DefinitionLocation { path: String::from_str(path), range: key.range };
            let ghost v = location_view(l);
            out.push(l);
            assert(locations_view(out@) =~= before.push(v));
        }
        assert(locations_view(out@) =~= start + table_references(entries@.take(i + 1), name@, path@));
        i = i + 1;
    }
    assert(entries@.take(n as int) =~= entries@);
}

/// Appends the references to `name` in the dependency tables of `table`.
fn push_kinds_references(table: &Value, name: &str, path: &str, out: &mut Vec<DefinitionLocation>)
    ensures
        locations_view(final(out)@) == locations_view(old(out)@) + kinds_references(
            *table,
            dependency_kinds(),
            name@,
            path@,
        ),
{
    let ghost start = locations_view(out@);
    let kinds = ["dependencies", "dev-dependencies", "build-dependencies"];
    let ghost ks = dependency_kinds();
    assert(key_views(kinds@) =~= ks);
    let mut i: usize = 0;
    assert(locations_view(out@) =~= start + kinds_references(*table, ks.take(0), name@, path@));
    while i < 3
        invariant
            key_views(kinds@) == ks,
            ks == dependency_kinds(),
            kinds@.len() == 3,
            0 <= i <= 3,
            locations_view(out@) == start + kinds_references(*table, ks.take(i as int), name@, path@),
        decreases 3 - i,
    {
        assert(ks.take(i + 1).drop_last() =~= ks.take(i as int));
        assert(ks.take(i + 1).last() == kinds@[i as int]@);
        match table.get(kinds[i]) {
            Some(Value::Table { entries, .. }) => {
                push_table_references(entries.as_slice(), name, path, out);
            },
            _ => {},
        }
        assert(locations_view(out@) =~= start + kinds_references(*table, ks.take(i + 1), name@, path@));
        i = i + 1;
    }
    assert(ks.take(3) =~= ks);
}

/// Appends the references to `name` in a member manifest; see `member_references`.
fn push_member_references(document: &Value, name: &str, path: &str, out: &mut Vec<DefinitionLocation>)
    ensures
        locations_view(final(out)@) == locations_view(old(out)@) + member_references(*document, name@, path@),
{
    let ghost start = locations_view(out@);
    push_kinds_references(document, name, path, out);
    let ghost middle = locations_view(out@);
    let platforms: &[(Key, Value)] = match document.get("target") {
        Some(Value::Table { entries, .. }) => entries.as_slice(),
        _ => &[],
    };
    assert(platforms@ == table_entries(table_get(*document, "target"@)));
    let m = platforms.len();
    let mut j: usize = 0;
    assert(locations_view(out@) =~= middle + platforms_references(platforms@.take(0), name@, path@));
    while j < m
        invariant
            m == platforms@.len(),
            0 <= j <= m,
            locations_view(out@) == middle + platforms_references(platforms@.take(j as int), name@, path@),
        decreases m - j,
    {
        assert(platforms@.take(j + 1).drop_last() =~= platforms@.take(j as int));
        assert(platforms@.take(j + 1).last() == platforms@[j as int]);
        match &platforms[j].1 {
            Value::Table { .. } => {
                push_kinds_references(&platforms[j].1, name, path, out);
            },
            _ => {},
        }
        assert(locations_view(out@) =~= middle + platforms_references(platforms@.take(j + 1), name@, path@));
        j = j + 1;
    }
    assert(platforms@.take(m as int) =~= platforms@);
    assert(locations_view(out@) =~= start + member_references(*document, name@, path@));
}

/// Where a package's name is referred to in its workspace (see
/// `package_name_references_of`); the caller hands over the workspace manifest, where it
/// found one, and the member manifests that `workspace.members` finds.
pub fn package_name_reference_locations(
    document: &Value,
    workspace: Option<(&str, &Value)>,
    members: &[(String, Value)],
) -> (r: Vec<DefinitionLocation>)
    ensures
        locations_view(r@) == package_name_references_of(
            *document,
            crate::dependency_link::loaded_view(workspace),
            members@,
        ),
{
    let mut out: Vec<DefinitionLocation> = Vec::new();
    let keys = ["package", "name"];
    assert(key_views(keys@) =~= seq!["package"@, "name"@]);
    let name = match dig_keys(document, &keys) {
        Some((_, Value::String { value, .. })) => value,
        _ => return out,
    };
    let (workspace_path, workspace_document) = match workspace {
        Some(w) => w,
        None => return out,
    };
    let dependency_keys = ["workspace", "dependencies"];
    assert(key_views(dependency_keys@) =~= seq!["workspace"@, "dependencies"@]);
    match dig_keys(workspace_document, &dependency_keys) {
        Some((_, Value::Table { entries, .. })) => {
            push_table_references(entries.as_slice(), name.as_str(), workspace_path, &mut out);
        },
        _ => {},
    }
    let ghost head = locations_view(out@);
    let n = members.len();
    let mut i: usize = 0;
    assert(locations_view(out@) =~= head + members_references(members@.take(0), name@));
    while i < n
        invariant
            n == members@.len(),
            0 <= i <= n,
            locations_view(out@) == head + members_references(members@.take(i as int), name@),
        decreases n - i,
    {
        assert(members@.take(i + 1).drop_last() =~= members@.take(i as int));
        assert(members@.take(i + 1).last() == members@[i as int]);
        let (path, member) = &members[i];
        match package_name_location(path.as_str(), member) {
            Some(_) => {
                push_member_references(member, name.as_str(), path.as_str(), &mut out);
            },
            None => {},
        }
        assert(locations_view(out@) =~= head + members_references(members@.take(i + 1), name@));
        i = i + 1;
    }
    assert(members@.take(n as int) =~= members@);
    out
}

/// The span of the text of the manifest's `package.name`, where it is a string: where
/// "go to definition" on `package.name` leads.
pub fn goto_definition_for_package_name(document: &Value) -> (r: Option<Range>)
    ensures
        match dig(*document, seq!["package"@, "name"@]) {
            Some((_, Value::String { range, .. })) => r == Some(inside_quotes(range)),
            _ => r is None,
        },
{
    let keys = ["package", "name"];
    assert(key_views(keys@) =~= seq!["package"@, "name"@]);
    match dig_keys(document, &keys) {
        Some((_, Value::String { range, .. })) => Some(unquoted_range(*range)),
        _ => None,
    }
}

/// The key of the feature at `accessors` (`["features", name]`) in `[features]`: where
/// "go to definition" on a feature's key leads.
pub fn goto_definition_for_feature_key(document: &Value, accessors: &[Accessor]) -> (r: Option<Range>)
    ensures
        if matches_pattern(accessors@, seq![Some("features"@), None]) && accessors@[1] is Key {
            match crate::feature_navigation::local_feature_key(*document, accessors@[1]->Key_0@) {
                Some(k) => r == Some(k.range),
                None => r is None,
            }
        } else {
            r is None
        },
{
    match crate::feature_navigation::feature_key_at_accessors(document, accessors) {
        Some(k) => Some(k.range),
        None => None,
    }
}

/// The keys of a path whose steps are all keys, as text.
pub open spec fn all_keys(a: Seq<Accessor>) -> Option<Seq<Seq<char>>>
    decreases a.len(),
{
    if a.len() == 0 {
        Some(Seq::empty())
    } else {
        match (all_keys(a.drop_last()), a.last()) {
            (Some(keys), Accessor::Key(k)) => Some(keys.push(k@)),
            _ => None,
        }
    }
}

/// The key of the dependency entry that holds the item at `accessors` (the path without
/// its last step), where that path is made of keys and leads to an entry.
pub open spec fn parent_dependency_key_of(document: Value, accessors: Seq<Accessor>) -> Option<Range> {
    let parent = if accessors.len() > 0 {
        accessors.drop_last()
    } else {
        accessors
    };
    match all_keys(parent) {
        Some(keys) => match dig(document, keys) {
            Some((key, _)) => Some(key.range),
            None => None,
        },
        None => None,
    }
}

/// The key of the dependency entry that holds the item at `accessors`; see
/// `parent_dependency_key_of`.
fn parent_dependency_key(document: &Value, accessors: &[Accessor]) -> (r: Option<Range>)
    ensures
        r == parent_dependency_key_of(*document, accessors@),
{
    let parent = crate::accessor::dependency_parent_accessors(accessors);
    let mut keys: Vec<&str> = Vec::new();
    let n = parent.len();
    let mut i: usize = 0;
    assert(parent@.take(0) =~= Seq::<Accessor>::empty());
    while i < n
        invariant
            n == parent@.len(),
            parent@ == if accessors@.len() > 0 {
                accessors@.drop_last()
            } else {
                accessors@
            },
            0 <= i <= n,
            all_keys(parent@.take(i as int)) == Some(key_views(keys@)),
        decreases n - i,
    {
        assert(parent@.take(i + 1).drop_last() =~= parent@.take(i as int));
        assert(parent@.take(i + 1).last() == parent@[i as int]);
        match &parent[i] {
            Accessor::Key(k) => {
                let ghost before = keys@;
                keys.push(k.as_str());
                assert(key_views(keys@) =~= key_views(before).push(k@));
            },
            Accessor::Index(_) => {
                assert(all_keys(parent@.take(i + 1)) is None);
                proof {
                    lemma_all_keys_none_extends(parent@, i as int + 1);
                }
                assert(all_keys(parent@) is None);
                assert(parent_dependency_key_of(*document, accessors@) is None);
                return None;
            },
        }
        i = i + 1;
    }
    assert(parent@.take(n as int) =~= parent@);
    match dig_keys(document, keys.as_slice()) {
        Some((key, _)) => Some(key.range),
        None => None,
    }
}

/// A path whose first `k` steps are not all keys is not all keys.
proof fn lemma_all_keys_none_extends(a: Seq<Accessor>, k: int)
    requires
        0 <= k <= a.len(),
        all_keys(a.take(k)) is None,
    ensures
        all_keys(a) is None,
    decreases a.len() - k,
{
    if k < a.len() {
        assert(a.take(k + 1).drop_last() =~= a.take(k));
        lemma_all_keys_none_extends(a, k + 1);
    } else {
        assert(a.take(k) =~= a);
    }
}

/// The key of the dependency entry whose `optional` flag is at `accessors`: where "go to
/// definition" on that flag leads.
pub fn goto_definition_for_optional_dependency(document: &Value, accessors: &[Accessor]) -> (r: Option<Range>)
    ensures
        r == parent_dependency_key_of(*document, accessors@),
{
    parent_dependency_key(document, accessors)
}

/// The declaration that the item at `accessors` of a `Cargo.toml` is itself: the key of a
/// feature of `[features]`, or, at an `optional = true` flag of a dependency entry, the
/// entry's key.
pub fn get_current_declaration(document: &Value, accessors: &[Accessor]) -> (r: Option<Range>)
    ensures
        if matches_pattern(accessors@, seq![Some("features"@), None]) {
            if accessors@[1] is Key {
                match crate::feature_navigation::local_feature_key(*document, accessors@[1]->Key_0@) {
                    Some(k) => r == Some(k.range),
                    None => r is None,
                }
            } else {
                r is None
            }
        } else if crate::feature_navigation::optional_entry_len(accessors@) > 0 && match dig_path(
            *document,
            accessors@.take(crate::feature_navigation::optional_entry_len(accessors@)),
        ) {
            Some(entry) => entry is Table && table_get(entry, "optional"@) matches Some(
                Value::Boolean { value: true, .. },
            ),
            None => false,
        } {
            r == parent_dependency_key_of(*document, accessors@)
        } else {
            r is None
        },
{
    let pattern = [Some("features"), None];
    assert(pattern_view(pattern@) =~= seq![Some("features"@), None]);
    if matches_accessors(accessors, &pattern) {
        return goto_definition_for_feature_key(document, accessors);
    }
    match crate::feature_navigation::optional_dependency_value_at_accessors(document, accessors) {
        Some((true, _)) => parent_dependency_key(document, accessors),
        _ => None,
    }
}

} // verus!
