//! What the inlay hints of a `Cargo.toml` show: resolved dependency versions and the
//! default features that a dependency brings in.

use vstd::prelude::*;
use vstd::string::StringExecFns;

use crate::cargo_lock::{opt_text, sole_value, sole_value_exec};
use crate::document::{ranges_intersect, string_text, table_get, Position, Range, Value};
use crate::lock_cache::{
    cache_resolution, lemma_pair_lookup_first, lemma_pair_lookup_none, lemma_pair_lookup_push,
    pair_lookup, CargoLockInlayCacheData,
};
use crate::document::dig_strings;
use crate::order::{contains_text, insert_sorted, sort_strings, sorted, strictly_sorted, texts};
use crate::text::{debug_quoted, join_quoted, joined, str_eq, to_owned};

verus! {

/// A member package of a workspace: its name and version.
#[derive(Debug, Clone)]
pub struct WorkspaceMemberPackage {
    pub name: String,
    pub version: String,
}

/// The package that a manifest declares: its name and version.
#[derive(Debug, Clone)]
pub struct CurrentPackage {
    pub name: String,
    pub version: String,
}

/// What each member package resolves `dependency_name` to, one item per member.
pub open spec fn member_resolutions(
    entries: Seq<(Seq<char>, Seq<char>, Seq<(Seq<char>, Seq<char>)>)>,
    members: Seq<WorkspaceMemberPackage>,
    dependency_name: Seq<char>,
) -> Seq<Option<Seq<char>>> {
    Seq::new(
        members.len(),
        |i: int| cache_resolution(entries, members[i].name@, members[i].version@, dependency_name),
    )
}

/// The version of a workspace dependency: the one version that the members which resolve
/// it agree on; none without members.
pub open spec fn workspace_lock_version(
    entries: Seq<(Seq<char>, Seq<char>, Seq<(Seq<char>, Seq<char>)>)>,
    members: Option<Seq<WorkspaceMemberPackage>>,
    dependency_name: Seq<char>,
) -> Option<Seq<char>> {
    match members {
        Some(ms) => sole_value(member_resolutions(entries, ms, dependency_name)),
        None => None,
    }
}

/// The members as a sequence, where there are members.
pub open spec fn members_view(members: Option<&Vec<WorkspaceMemberPackage>>) -> Option<Seq<WorkspaceMemberPackage>> {
    match members {
        Some(ms) => Some(ms@),
        None => None,
    }
}

/// The version that the workspace members resolve a dependency to, where they agree.
pub fn workspace_dependency_lock_version(
    cargo_lock_cache: &CargoLockInlayCacheData,
    workspace_member_packages: Option<&Vec<WorkspaceMemberPackage>>,
    dependency_name: &str,
) -> (r: Option<String>)
    ensures
        opt_text(r) == workspace_lock_version(
            cargo_lock_cache.entries(),
            members_view(workspace_member_packages),
            dependency_name@,
        ),
{
    let members = match workspace_member_packages {
        Some(members) => members,
        None => return None,
    };
    let ghost rs = member_resolutions(cargo_lock_cache.entries(), members@, dependency_name@);
    let n = members.len();
    let mut resolved: Vec<Option<String>> = Vec::new();
    let mut i: usize = 0;
    while i < n
        invariant
            n == members@.len(),
            rs == member_resolutions(cargo_lock_cache.entries(), members@, dependency_name@),
            0 <= i <= n,
            resolved@.len() == i,
            forall|j: int| 0 <= j < i ==> #[trigger] opt_text(resolved@[j]) == rs[j],
        decreases n - i,
    {
        let m = &members[i];
        resolved.push(
            cargo_lock_cache.resolved_dependency_version(m.name.as_str(), m.version.as_str(), dependency_name),
        );
        i = i + 1;
    }
    assert(resolved@.map_values(|v: Option<String>| opt_text(v)) =~= rs);
    sole_value_exec(&resolved)
}

/// Whether a list of keys is `workspace.dependencies`.
pub open spec fn is_workspace_dependencies(keys: Seq<&str>) -> bool {
    keys.len() == 2 && keys[0]@ == "workspace"@ && keys[1]@ == "dependencies"@
}

/// Whether the keys are `workspace.dependencies`.
pub fn keys_are_workspace_dependencies(keys: &[&str]) -> (r: bool)
    ensures
        r == is_workspace_dependencies(keys@),
{
    keys.len() == 2 && str_eq(keys[0], "workspace") && str_eq(keys[1], "dependencies")
}

/// The lockfile version of a dependency under `dependency_keys`: under
/// `workspace.dependencies` the one the members agree on, elsewhere the one the current
/// package resolves.
pub fn cargo_lock_dependency_version(
    cargo_lock_cache: &CargoLockInlayCacheData,
    dependency_keys: &[&str],
    dependency_name: &str,
    current_package: Option<&CurrentPackage>,
    workspace_member_packages: Option<&Vec<WorkspaceMemberPackage>>,
) -> (r: Option<String>)
    ensures
        opt_text(r) == if is_workspace_dependencies(dependency_keys@) {
            workspace_lock_version(
                cargo_lock_cache.entries(),
                members_view(workspace_member_packages),
                dependency_name@,
            )
        } else {
            match current_package {
                Some(p) => cache_resolution(cargo_lock_cache.entries(), p.name@, p.version@, dependency_name@),
                None => None,
            }
        },
{
    if keys_are_workspace_dependencies(dependency_keys) {
        return workspace_dependency_lock_version(cargo_lock_cache, workspace_member_packages, dependency_name);
    }
    match current_package {
        Some(p) => cargo_lock_cache.resolved_dependency_version(p.name.as_str(), p.version.as_str(), dependency_name),
        None => None,
    }
}

/// Pairs of strings as plain text.
pub open spec fn string_pairs(pairs: Seq<(String, String)>) -> Seq<(Seq<char>, Seq<char>)> {
    pairs.map_values(|p: (String, String)| (p.0@, p.1@))
}

/// Whether a list of names holds `name`.
pub open spec fn names_contain(names: Seq<String>, name: Seq<char>) -> bool {
    exists|i: int| 0 <= i < names.len() && #[trigger] names[i]@ == name
}

/// Whether some pair has the key `key`.
fn has_pair(pairs: &Vec<(String, String)>, key: &str) -> (r: bool)
    ensures
        r == (pair_lookup(string_pairs(pairs@), key@) is Some),
{
    let ghost p = string_pairs(pairs@);
    let n = pairs.len();
    let mut k: usize = 0;
    while k < n
        invariant
            n == pairs@.len(),
            p == string_pairs(pairs@),
            0 <= k <= n,
            forall|j: int| 0 <= j < k ==> #[trigger] p[j].0 != key@,
        decreases n - k,
    {
        if str_eq(pairs[k].0.as_str(), key) {
            proof { lemma_pair_lookup_first(p, key@, k as int); }
            return true;
        }
        k = k + 1;
    }
    proof { lemma_pair_lookup_none(p, key@); }
    false
}

/// The version of each named workspace dependency that the members agree on; names on
/// which they do not agree are left out, and all are without members.
pub fn workspace_dependency_lock_versions(
    cargo_lock_cache: &CargoLockInlayCacheData,
    workspace_member_packages: Option<&Vec<WorkspaceMemberPackage>>,
    dependency_names: &Vec<String>,
) -> (r: Vec<(String, String)>)
    ensures
        forall|name: Seq<char>| #[trigger] pair_lookup(string_pairs(r@), name) == if names_contain(dependency_names@, name) {
            workspace_lock_version(cargo_lock_cache.entries(), members_view(workspace_member_packages), name)
        } else {
            None
        },
{
    let ghost names = dependency_names@;
    let ghost members = members_view(workspace_member_packages);
    let ghost entries = cargo_lock_cache.entries();
    let mut result: Vec<(String, String)> = Vec::new();
    let n = dependency_names.len();
    let mut i: usize = 0;
    while i < n
        invariant
            n == names.len(),
            names == dependency_names@,
            members == members_view(workspace_member_packages),
            entries == cargo_lock_cache.entries(),
            0 <= i <= n,
            forall|name: Seq<char>| #[trigger] pair_lookup(string_pairs(result@), name) == if names_contain(names.take(i as int), name) {
                workspace_lock_version(entries, members, name)
            } else {
                None
            },
        decreases n - i,
    {
        let d = &dependency_names[i];
        let ghost old_pairs = string_pairs(result@);
        let ghost dn = d@;
        let known = has_pair(&result, d.as_str());
        if !known {
            match workspace_dependency_lock_version(cargo_lock_cache, workspace_member_packages, d.as_str()) {
                Some(v) => {
                    result.push((d.clone(), v));
                },
                None => {},
            }
        }
        proof {
            assert forall|name: Seq<char>| #[trigger] pair_lookup(string_pairs(result@), name) == if names_contain(names.take(i + 1), name) {
                workspace_lock_version(entries, members, name)
            } else {
                None
            } by {
                assert(names_contain(names.take(i + 1), name) == (names_contain(names.take(i as int), name) || dn == name)) by {
                    if names_contain(names.take(i + 1), name) {
                        let j = choose|j: int| 0 <= j < i + 1 && #[trigger] names.take(i + 1)[j]@ == name;
                        if j < i {
                            assert(names.take(i as int)[j]@ == name);
                        }
                    }
                    if names_contain(names.take(i as int), name) {
                        let j = choose|j: int| 0 <= j < i && #[trigger] names.take(i as int)[j]@ == name;
                        assert(names.take(i + 1)[j]@ == name);
                    }
                    if dn == name {
                        assert(names.take(i + 1)[i as int]@ == name);
                    }
                }
                if string_pairs(result@).len() > old_pairs.len() {
                    assert(string_pairs(result@) =~= old_pairs.push(string_pairs(result@).last()));
                    lemma_pair_lookup_push(old_pairs, string_pairs(result@).last(), name);
                } else {
                    assert(string_pairs(result@) =~= old_pairs);
                }
            }
        }
        i = i + 1;
    }
    assert(names.take(n as int) =~= names);
    result
}

/// The label of a version hint: ` → "version"`, left out where the written version is
/// already the resolved one, unless the hint is always shown.
pub fn version_hint_label(current_version: Option<&str>, resolved_version: &str, always_show: bool) -> (r: Option<String>)
    ensures
        match current_version {
            Some(c) if !always_show && c@ == resolved_version@ => r is None,
            _ => r matches Some(s) && s@ == " → \""@ + resolved_version@ + "\""@,
        },
{
    if !always_show {
        match current_version {
            Some(c) => {
                if str_eq(c, resolved_version) {
                    return None;
                }
            },
            None => {},
        }
    }
    let mut label = String::from_str(" → \"");
    label.append(resolved_version);
    label.append("\"");
    Some(label)
}

/// The key under which the inlay data of a lockfile is cached.
pub fn cargo_lock_cache_key(cargo_lock_path: &str) -> (r: String)
    ensures
        r@ == "tombi-toml/cargo:inlay_hint.lockfile:"@ + cargo_lock_path@,
{
    let mut key = String::from_str("tombi-toml/cargo:inlay_hint.lockfile:");
    key.append(cargo_lock_path);
    key
}

} // verus!

verus! {

/// The name of the package that a dependency entry stands for: its `package` key where it
/// has one, else the key it is written under.
pub open spec fn package_name_of(dependency_key: Seq<char>, dependency_value: Value) -> Seq<char> {
    match string_text(table_get(dependency_value, "package"@)) {
        Some(name) => name,
        None => dependency_key,
    }
}

/// The name of the package that a dependency entry stands for.
pub fn dependency_package_name<'a>(dependency_key: &'a str, dependency_value: &'a Value) -> (r: &'a str)
    ensures
        r@ == package_name_of(dependency_key@, *dependency_value),
{
    match dependency_value.get_string("package") {
        Some(name) => name.as_str(),
        None => dependency_key,
    }
}

/// Where the version shown for a local dependency comes from.
#[derive(Debug, Clone)]
pub enum LocalVersionSource {
    /// The manifest at this path.
    Path(String),
    /// The workspace dependency under this key.
    WorkspaceDependency(String),
}

/// A version hint before its version is resolved.
#[derive(Debug, Clone)]
pub struct DependencyVersionHint {
    pub dependency_name: String,
    pub position: Position,
    pub current_version: Option<String>,
    pub always_show: bool,
    pub local_version_source: Option<LocalVersionSource>,
}

/// A local version source as plain text: whether it is a path, and its text.
pub open spec fn source_view(source: Option<LocalVersionSource>) -> Option<(bool, Seq<char>)> {
    match source {
        Some(LocalVersionSource::Path(p)) => Some((true, p@)),
        Some(LocalVersionSource::WorkspaceDependency(k)) => Some((false, k@)),
        None => None,
    }
}

/// A version hint as plain values.
pub struct VersionHintView {
    pub dependency_name: Seq<char>,
    pub position: Position,
    pub current_version: Option<Seq<char>>,
    pub always_show: bool,
    pub local_version_source: Option<(bool, Seq<char>)>,
}

impl DependencyVersionHint {
    pub open spec fn view_hint(self) -> VersionHintView {
        VersionHintView {
            dependency_name: self.dependency_name@,
            position: self.position,
            current_version: opt_text(self.current_version),
            always_show: self.always_show,
            local_version_source: source_view(self.local_version_source),
        }
    }
}

/// The version hint of a dependency entry: after a version string, written alone or as
/// `version`; else after `workspace = true` (always shown, resolved through the
/// workspace); else after `path` (resolved through that manifest); else after `git`.
pub open spec fn version_hint_of(dependency_key: Seq<char>, dependency_value: Value) -> Option<VersionHintView> {
    let name = package_name_of(dependency_key, dependency_value);
    match dependency_value {
        Value::String { value, range } => Some(
            VersionHintView {
                dependency_name: name,
                position: range.end,
                current_version: Some(value@),
                always_show: false,
                local_version_source: None,
            },
        ),
        Value::Table { .. } => match table_get(dependency_value, "version"@) {
            Some(Value::String { value, range }) => Some(
                VersionHintView {
                    dependency_name: name,
                    position: range.end,
                    current_version: Some(value@),
                    always_show: false,
                    local_version_source: None,
                },
            ),
            _ => match table_get(dependency_value, "workspace"@) {
                Some(Value::Boolean { value: true, range }) => Some(
                    VersionHintView {
                        dependency_name: name,
                        position: range.end,
                        current_version: None,
                        always_show: true,
                        local_version_source: Some((false, dependency_key)),
                    },
                ),
                _ => match table_get(dependency_value, "path"@) {
                    Some(Value::String { value, range }) => Some(
                        VersionHintView {
                            dependency_name: name,
                            position: range.end,
                            current_version: None,
                            always_show: false,
                            local_version_source: Some((true, value@)),
                        },
                    ),
                    _ => match table_get(dependency_value, "git"@) {
                        Some(Value::String { range, .. }) => Some(
                            VersionHintView {
                                dependency_name: name,
                                position: range.end,
                                current_version: None,
                                always_show: false,
                                local_version_source: None,
                            },
                        ),
                        _ => None,
                    },
                },
            },
        },
        _ => None,
    }
}

/// The version hint of a dependency entry, if it gets one.
pub fn dependency_version_hint(dependency_key: &str, dependency_value: &Value) -> (r: Option<DependencyVersionHint>)
    ensures
        match version_hint_of(dependency_key@, *dependency_value) {
            Some(h) => r matches Some(x) && x.view_hint() == h,
            None => r is None,
        },
{
    let dependency_name = to_owned(dependency_package_name(dependency_key, dependency_value));
    match dependency_value {
        Value::String { value, range } => Some(
            DependencyVersionHint {
                dependency_name,
                position: range.end,
                current_version: Some(value.clone()),
                always_show: false,
                local_version_source: None,
            },
        ),
        Value::Table { .. } => {
            match dependency_value.get("version") {
                Some(Value::String { value, range }) => {
                    return Some(
                        DependencyVersionHint {
                            dependency_name,
                            position: range.end,
                            current_version: Some(value.clone()),
                            always_show: false,
                            local_version_source: None,
                        },
                    );
                },
                _ => {},
            }
            match dependency_value.get("workspace") {
                Some(Value::Boolean { value, range }) => {
                    if *value {
                        return Some(
                            DependencyVersionHint {
                                dependency_name,
                                position: range.end,
                                current_version: None,
                                always_show: true,
                                local_version_source: Some(
                                    LocalVersionSource::WorkspaceDependency(to_owned(dependency_key)),
                                ),
                            },
                        );
                    }
                },
                _ => {},
            }
            match dependency_value.get("path") {
                Some(Value::String { value, range }) => {
                    return Some(
                        DependencyVersionHint {
                            dependency_name,
                            position: range.end,
                            current_version: None,
                            always_show: false,
                            local_version_source: Some(LocalVersionSource::Path(value.clone())),
                        },
                    );
                },
                _ => {},
            }
            match dependency_value.get("git") {
                Some(Value::String { range, .. }) => Some(
                    DependencyVersionHint {
                        dependency_name,
                        position: range.end,
                        current_version: None,
                        always_show: false,
                        local_version_source: None,
                    },
                ),
                _ => None,
            }
        },
        _ => None,
    }
}

/// Whether a dependency table switches its default features off.
pub open spec fn default_features_disabled(table: Value) -> bool {
    table_get(table, "default-features"@) matches Some(Value::Boolean { value: false, .. })
}

/// Whether a dependency table switches its default features off.
pub fn dependency_table_default_features_disabled(table: &Value) -> (r: bool)
    ensures
        r == default_features_disabled(*table),
{
    match table.get("default-features") {
        Some(Value::Boolean { value, .. }) => !*value,
        _ => false,
    }
}

/// Where a default-features hint of a local dependency (one given by `path` or by
/// `workspace = true`) goes: after its `features` array, unless default features are off.
pub open spec fn local_default_features_position(dependency_value: Value) -> Option<Position> {
    match dependency_value {
        Value::Table { .. } => if default_features_disabled(dependency_value) {
            None
        } else {
            match table_get(dependency_value, "features"@) {
                Some(Value::Array { range, .. }) => if table_get(dependency_value, "path"@) is Some
                    || table_get(dependency_value, "workspace"@) matches Some(
                    Value::Boolean { value: true, .. },
                ) {
                    Some(range.end)
                } else {
                    None
                },
                _ => None,
            }
        },
        _ => None,
    }
}

/// Where the default-features hint of a local dependency goes.
pub fn local_default_features_request_position(dependency_value: &Value) -> (r: Option<Position>)
    ensures
        r == local_default_features_position(*dependency_value),
{
    match dependency_value {
        Value::Table { .. } => {},
        _ => return None,
    }
    if dependency_table_default_features_disabled(dependency_value) {
        return None;
    }
    let end = match dependency_value.get("features") {
        Some(Value::Array { range, .. }) => range.end,
        _ => return None,
    };
    let is_local = dependency_value.get("path").is_some() || match dependency_value.get("workspace") {
        Some(Value::Boolean { value, .. }) => *value,
        _ => false,
    };
    if is_local {
        Some(end)
    } else {
        None
    }
}

/// Whether a position lies in the visible range.
pub open spec fn visible_at(position: Position, visible_range: Range) -> bool {
    ranges_intersect(Range { start: position, end: position }, visible_range)
}

/// Whether a dependency needs its local manifest read to show a visible hint: a version
/// hint with a local source, or a local default-features hint, in the visible range.
pub open spec fn needs_local_manifest(
    dependency_key: Seq<char>,
    dependency_value: Value,
    visible_range: Range,
    dependency_version_enabled: bool,
    default_features_enabled: bool,
) -> bool {
    ||| dependency_version_enabled && match version_hint_of(dependency_key, dependency_value) {
        Some(h) => h.local_version_source is Some && visible_at(h.position, visible_range),
        None => false,
    }
    ||| default_features_enabled && match local_default_features_position(dependency_value) {
        Some(p) => visible_at(p, visible_range),
        None => false,
    }
}

/// Whether a dependency needs its local manifest read to show a visible hint.
pub fn needs_visible_local_manifest_prefetch(
    dependency_key: &str,
    dependency_value: &Value,
    visible_range: Range,
    dependency_version_enabled: bool,
    default_features_enabled: bool,
) -> (r: bool)
    ensures
        r == needs_local_manifest(
            dependency_key@,
            *dependency_value,
            visible_range,
            dependency_version_enabled,
            default_features_enabled,
        ),
{
    if dependency_version_enabled {
        match dependency_version_hint(dependency_key, dependency_value) {
            Some(hint) => {
                if hint.local_version_source.is_some() && Range::at(hint.position).intersects(&visible_range) {
                    return true;
                }
            },
            None => {},
        }
    }
    default_features_enabled && match local_default_features_request_position(dependency_value) {
        Some(position) => Range::at(position).intersects(&visible_range),
        None => false,
    }
}

} // verus!

verus! {

/// The texts of the string items of an array, in order.
pub open spec fn string_items(values: Seq<Value>) -> Seq<Seq<char>>
    decreases values.len(),
{
    if values.len() == 0 {
        Seq::empty()
    } else {
        let rest = string_items(values.drop_last());
        match values.last() {
            Value::String { value, .. } => rest.push(value@),
            _ => rest,
        }
    }
}

/// The strings among `values`, in order.
fn collect_strings(values: &Vec<Value>) -> (r: Vec<String>)
    ensures
        texts(r@) == string_items(values@),
{
    let mut out: Vec<String> = Vec::new();
    let n = values.len();
    let mut i: usize = 0;
    assert(texts(out@) =~= string_items(values@.take(0)));
    while i < n
        invariant
            n == values@.len(),
            0 <= i <= n,
            texts(out@) == string_items(values@.take(i as int)),
        decreases n - i,
    {
        assert(values@.take(i + 1).drop_last() =~= values@.take(i as int));
        assert(values@.take(i + 1).last() == values@[i as int]);
        match &values[i] {
            Value::String { value, .. } => {
                out.push(value.clone());
                assert(texts(out@) =~= string_items(values@.take(i + 1)));
            },
            _ => {},
        }
        i = i + 1;
    }
    assert(values@.take(n as int) =~= values@);
    out
}

/// The features that a `features` array names.
pub fn collect_feature_names(features: &Value) -> (r: Vec<String>)
    ensures
        texts(r@) == match *features {
            Value::Array { values, .. } => string_items(values@),
            _ => Seq::empty(),
        },
{
    match features {
        Value::Array { values, .. } => collect_strings(values),
        _ => {
            let r: Vec<String> = Vec::new();
            assert(texts(r@) =~= Seq::<Seq<char>>::empty());
            r
        },
    }
}

/// The default features that a manifest declares in `features.default`, where it
/// declares some.
pub open spec fn default_features_of(document: Value) -> Option<Seq<Seq<char>>> {
    match table_get(document, "features"@) {
        Some(features) => match table_get(features, "default"@) {
            Some(Value::Array { values, .. }) => if string_items(values@).len() > 0 {
                Some(string_items(values@))
            } else {
                None
            },
            _ => None,
        },
        None => None,
    }
}

/// The default features that a manifest declares, where it declares some.
pub fn package_default_features(dependency_document_tree: &Value) -> (r: Option<Vec<String>>)
    ensures
        match default_features_of(*dependency_document_tree) {
            Some(t) => r matches Some(v) && texts(v@) == t,
            None => r is None,
        },
{
    let features = match dependency_document_tree.get("features") {
        Some(f) => f,
        None => return None,
    };
    match features.get("default") {
        Some(Value::Array { values, .. }) => {
            let r = collect_strings(values);
            if r.len() > 0 {
                Some(r)
            } else {
                None
            }
        },
        _ => None,
    }
}

/// The label of a default-features hint: ` + ["a", "b"]`.
pub open spec fn default_features_label_text(features: Seq<Seq<char>>) -> Seq<char> {
    " + ["@ + joined(features.map_values(|t: Seq<char>| ""@ + debug_quoted(t)), ", "@) + "]"@
}

/// The tooltip of a default-features hint: a line per feature.
pub open spec fn default_features_tooltip_text(features: Seq<Seq<char>>) -> Seq<char> {
    "Default Features:\n"@ + joined(features.map_values(|t: Seq<char>| "- "@ + debug_quoted(t)), "\n"@)
}

/// The label of a default-features hint.
pub fn format_default_features_label(default_features: &[String]) -> (r: String)
    ensures
        r@ == default_features_label_text(texts(default_features@)),
{
    let mut r = String::from_str(" + [");
    let inner = join_quoted(default_features, "", ", ");
    assert(default_features@.map_values(|s: String| ""@ + debug_quoted(s@)) =~= texts(default_features@).map_values(
        |t: Seq<char>| ""@ + debug_quoted(t),
    ));
    r.append(inner.as_str());
    r.append("]");
    r
}

/// The tooltip of a default-features hint.
pub fn format_default_features_tooltip(default_features: &[String]) -> (r: String)
    ensures
        r@ == default_features_tooltip_text(texts(default_features@)),
{
    let mut r = String::from_str("Default Features:\n");
    let inner = join_quoted(default_features, "- ", "\n");
    assert(default_features@.map_values(|s: String| "- "@ + debug_quoted(s@)) =~= texts(default_features@).map_values(
        |t: Seq<char>| "- "@ + debug_quoted(t),
    ));
    r.append(inner.as_str());
    r
}

/// A default-features hint: where it goes, its label and its tooltip.
#[derive(Debug, Clone)]
pub struct DefaultFeaturesHint {
    pub position: Position,
    pub label: String,
    pub tooltip: String,
}

/// The features of `features` that `existing` does not name, in order.
pub open spec fn missing_features(features: Seq<Seq<char>>, existing: Seq<Seq<char>>) -> Seq<Seq<char>>
    decreases features.len(),
{
    if features.len() == 0 {
        Seq::empty()
    } else {
        let rest = missing_features(features.drop_last(), existing);
        if existing.contains(features.last()) {
            rest
        } else {
            rest.push(features.last())
        }
    }
}

/// What `missing_features` keeps: exactly the features of `features` that `existing`
/// does not name.
pub proof fn lemma_missing_features(features: Seq<Seq<char>>, existing: Seq<Seq<char>>)
    ensures
        forall|x: Seq<char>|
            #![trigger missing_features(features, existing).contains(x)]
            missing_features(features, existing).contains(x) <==> (features.contains(x) && !existing.contains(x)),
    decreases features.len(),
{
    if features.len() > 0 {
        let init = features.drop_last();
        lemma_missing_features(init, existing);
        assert(features =~= init.push(features.last()));
        assert forall|x: Seq<char>| #![trigger missing_features(features, existing).contains(x)]
            missing_features(features, existing).contains(x) <==> (features.contains(x) && !existing.contains(x)) by {
            let rest = missing_features(init, existing);
            if features.contains(x) {
                let i = choose|i: int| 0 <= i < features.len() && features[i] == x;
                if i < features.len() - 1 {
                    assert(init[i] == x);
                    assert(init.contains(x));
                }
            }
            if init.contains(x) {
                let i = choose|i: int| 0 <= i < init.len() && init[i] == x;
                assert(features[i] == x);
            }
            if !existing.contains(features.last()) {
                assert(rest.push(features.last()).last() == features.last());
                if rest.contains(x) {
                    let i = choose|i: int| 0 <= i < rest.len() && rest[i] == x;
                    assert(rest.push(features.last())[i] == x);
                }
                if rest.push(features.last()).contains(x) && x != features.last() {
                    let i = choose|i: int| 0 <= i < rest.len() + 1 && rest.push(features.last())[i] == x;
                    assert(rest[i] == x);
                }
            }
        }
    }
}

/// Whether `hint` is the default-features hint at `position` for these default features:
/// with the defaults in order, the label lists those that the written features lack, and
/// the tooltip all of them; no hint where none is lacking.
pub open spec fn is_default_features_hint(
    hint: Option<DefaultFeaturesHint>,
    position: Position,
    default_features: Seq<Seq<char>>,
    existing_features: Seq<Seq<char>>,
) -> bool {
    exists|ordered: Seq<Seq<char>>|
        #![trigger sorted(ordered)]
        sorted(ordered) && ordered.to_multiset() == default_features.to_multiset() && {
            let missing = missing_features(ordered, existing_features);
            if missing.len() == 0 {
                hint is None
            } else {
                hint matches Some(h) && h.position == position && h.label@ == default_features_label_text(missing)
                    && h.tooltip@ == default_features_tooltip_text(ordered)
            }
        }
}

/// The default-features hint at `position`: the default features, in order, that the
/// written features lack.
pub fn build_default_features_hint(position: Position, default_features: Vec<String>, existing_features: &Vec<String>) -> (r: Option<DefaultFeaturesHint>)
    ensures
        is_default_features_hint(r, position, texts(default_features@), texts(existing_features@)),
{
    let ghost input = texts(default_features@);
    let ordered = sort_strings(default_features);
    let ghost o = texts(ordered@);
    let mut missing: Vec<String> = Vec::new();
    let n = ordered.len();
    let mut i: usize = 0;
    assert(texts(missing@) =~= missing_features(o.take(0), texts(existing_features@)));
    while i < n
        invariant
            n == ordered@.len(),
            o == texts(ordered@),
            0 <= i <= n,
            texts(missing@) == missing_features(o.take(i as int), texts(existing_features@)),
        decreases n - i,
    {
        assert(o.take(i + 1).drop_last() =~= o.take(i as int));
        assert(o.take(i + 1).last() == o[i as int]);
        if !contains_text(existing_features, ordered[i].as_str()) {
            missing.push(ordered[i].clone());
            assert(texts(missing@) =~= missing_features(o.take(i + 1), texts(existing_features@)));
        }
        i = i + 1;
    }
    assert(o.take(n as int) =~= o);
    let r = if missing.len() == 0 {
        None
    } else {
        Some(
            DefaultFeaturesHint {
                position,
                label: format_default_features_label(missing.as_slice()),
                tooltip: format_default_features_tooltip(ordered.as_slice()),
            },
        )
    };
    assert(sorted(o));
    r
}

/// The default-features hint of a dependency entry, given the default features of the
/// package it names (read from its local manifest): after its `features` array, unless
/// default features are off.
pub open spec fn default_features_hint_of(
    hint: Option<DefaultFeaturesHint>,
    dependency_value: Value,
    default_features: Option<Seq<Seq<char>>>,
) -> bool {
    match (dependency_value, table_get(dependency_value, "features"@), default_features) {
        (Value::Table { .. }, Some(Value::Array { values, range }), Some(d)) => if default_features_disabled(
            dependency_value,
        ) {
            hint is None
        } else {
            is_default_features_hint(hint, range.end, d, string_items(values@))
        },
        _ => hint is None,
    }
}

/// The default-features hint of a dependency entry.
pub fn dependency_default_features_hint(dependency_value: &Value, default_features: Option<Vec<String>>) -> (r: Option<DefaultFeaturesHint>)
    ensures
        default_features_hint_of(
            r,
            *dependency_value,
            match default_features {
                Some(v) => Some(texts(v@)),
                None => None,
            },
        ),
{
    match dependency_value {
        Value::Table { .. } => {},
        _ => return None,
    }
    let features = match dependency_value.get("features") {
        Some(f) => f,
        None => return None,
    };
    let end = match features {
        Value::Array { range, .. } => range.end,
        _ => return None,
    };
    let defaults = match default_features {
        Some(d) => d,
        None => return None,
    };
    if dependency_table_default_features_disabled(dependency_value) {
        return None;
    }
    let existing = collect_feature_names(features);
    build_default_features_hint(end, defaults, &existing)
}

} // verus!

verus! {

/// The three dependency tables of a package.
pub open spec fn dependency_kinds() -> Seq<Seq<char>> {
    seq!["dependencies"@, "dev-dependencies"@, "build-dependencies"@]
}

/// The paths of the dependency tables under the `target` entries, in order: for each
/// entry that is a table, its three dependency tables.
pub open spec fn target_table_paths(entries: Seq<(crate::document::Key, Value)>) -> Seq<Seq<Seq<char>>>
    decreases entries.len(),
{
    if entries.len() == 0 {
        Seq::empty()
    } else {
        let rest = target_table_paths(entries.drop_last());
        let (key, value) = entries.last();
        if value is Table {
            rest + seq![
                seq!["target"@, key.value@, "dependencies"@],
                seq!["target"@, key.value@, "dev-dependencies"@],
                seq!["target"@, key.value@, "build-dependencies"@],
            ]
        } else {
            rest
        }
    }
}

/// The paths of all dependency tables that a manifest's hints read, in the order they are
/// read: the package's three, the workspace's, then those of each target.
pub open spec fn dependency_table_paths_of(document: Value) -> Seq<Seq<Seq<char>>> {
    seq![seq!["dependencies"@], seq!["dev-dependencies"@], seq!["build-dependencies"@], seq!["workspace"@, "dependencies"@]]
        + match table_get(document, "target"@) {
        Some(Value::Table { entries, .. }) => target_table_paths(entries@),
        _ => Seq::empty(),
    }
}

/// A list of paths as plain text.
pub open spec fn path_texts(paths: Seq<Vec<String>>) -> Seq<Seq<Seq<char>>> {
    paths.map_values(|p: Vec<String>| texts(p@))
}

/// A path of owned strings.
fn path_of(parts: &[&str]) -> (r: Vec<String>)
    ensures
        texts(r@) == parts@.map_values(|s: &str| s@),
{
    let mut r: Vec<String> = Vec::new();
    let n = parts.len();
    let mut i: usize = 0;
    while i < n
        invariant
            n == parts@.len(),
            0 <= i <= n,
            texts(r@) == parts@.take(i as int).map_values(|s: &str| s@),
        decreases n - i,
    {
        let ghost before = r@;
        r.push(String::from_str(parts[i]));
        assert(parts@.take(i + 1) =~= parts@.take(i as int).push(parts@[i as int]));
        assert(r@ =~= before.push(r@.last()));
        assert(texts(r@) =~= texts(before).push(parts@[i as int]@));
        assert(texts(r@) =~= parts@.take(i + 1).map_values(|s: &str| s@));
        i = i + 1;
    }
    assert(parts@.take(n as int) =~= parts@);
    r
}

/// The paths of all dependency tables that a manifest's hints read, in order.
pub fn dependency_table_paths(document_tree: &Value) -> (r: Vec<Vec<String>>)
    ensures
        path_texts(r@) == dependency_table_paths_of(*document_tree),
{
    let mut r: Vec<Vec<String>> = Vec::new();
    let a = ["dependencies"];
    let b = ["dev-dependencies"];
    let c = ["build-dependencies"];
    let d = ["workspace", "dependencies"];
    r.push(path_of(&a));
    r.push(path_of(&b));
    r.push(path_of(&c));
    r.push(path_of(&d));
    let ghost head = seq![seq!["dependencies"@], seq!["dev-dependencies"@], seq!["build-dependencies"@], seq!["workspace"@, "dependencies"@]];
    assert(a@.map_values(|s: &str| s@) =~= seq!["dependencies"@]);
    assert(b@.map_values(|s: &str| s@) =~= seq!["dev-dependencies"@]);
    assert(c@.map_values(|s: &str| s@) =~= seq!["build-dependencies"@]);
    assert(d@.map_values(|s: &str| s@) =~= seq!["workspace"@, "dependencies"@]);
    assert(path_texts(r@) =~= head);
    match document_tree.get("target") {
        Some(Value::Table { entries, .. }) => {
            let n = entries.len();
            let mut i: usize = 0;
            assert(path_texts(r@) =~= head + target_table_paths(entries@.take(0)));
            while i < n
                invariant
                    n == entries@.len(),
                    0 <= i <= n,
                    path_texts(r@) == head + target_table_paths(entries@.take(i as int)),
                decreases n - i,
            {
                assert(entries@.take(i + 1).drop_last() =~= entries@.take(i as int));
                assert(entries@.take(i + 1).last() == entries@[i as int]);
                let (key, value) = &entries[i];
                match value {
                    Value::Table { .. } => {
                        let k = key.value.as_str();
                        let p1 = ["target", k, "dependencies"];
                        let p2 = ["target", k, "dev-dependencies"];
                        let p3 = ["target", k, "build-dependencies"];
                        let ghost rv = r@;
                        let x1 = path_of(&p1);
                        let x2 = path_of(&p2);
                        let x3 = path_of(&p3);
                        assert(p1@.map_values(|s: &str| s@) =~= seq!["target"@, key.value@, "dependencies"@]);
                        assert(p2@.map_values(|s: &str| s@) =~= seq!["target"@, key.value@, "dev-dependencies"@]);
                        assert(p3@.map_values(|s: &str| s@) =~= seq!["target"@, key.value@, "build-dependencies"@]);
                        let ghost t1 = texts(x1@);
                        let ghost t2 = texts(x2@);
                        let ghost t3 = texts(x3@);
                        r.push(x1);
                        r.push(x2);
                        r.push(x3);
                        assert(r@ =~= rv + seq![r@[rv.len() as int], r@[rv.len() as int + 1], r@[rv.len() as int + 2]]);
                        assert(path_texts(r@) =~= path_texts(rv) + seq![t1, t2, t3]);
                        assert(target_table_paths(entries@.take(i + 1)) == target_table_paths(entries@.take(i as int))
                            + seq![t1, t2, t3]);
                        assert(path_texts(r@) =~= head + target_table_paths(entries@.take(i + 1)));
                    },
                    _ => {},
                }
                i = i + 1;
            }
            assert(entries@.take(n as int) =~= entries@);
        },
        _ => {
            assert(head + Seq::<Seq<Seq<char>>>::empty() =~= head);
        },
    }
    r
}

} // verus!

verus! {

/// The local manifests that the visible hints need: dependency paths and workspace
/// dependency keys, each as a set kept in order.
#[derive(Debug, Clone)]
pub struct LocalManifestRequests {
    pub path_dependencies: Vec<String>,
    pub workspace_dependencies: Vec<String>,
}

/// The requests that the entries of one dependency table make: the `path` of each table
/// entry that needs its manifest, or (`workspace`) its key where it inherits from the
/// workspace.
pub open spec fn entry_requests(
    entries: Seq<(crate::document::Key, Value)>,
    visible_range: Range,
    version_enabled: bool,
    default_enabled: bool,
    workspace: bool,
) -> Set<Seq<char>>
    decreases entries.len(),
{
    if entries.len() == 0 {
        Set::empty()
    } else {
        let rest = entry_requests(entries.drop_last(), visible_range, version_enabled, default_enabled, workspace);
        let (key, value) = entries.last();
        if value is Table && needs_local_manifest(key.value@, value, visible_range, version_enabled, default_enabled) {
            if workspace {
                if table_get(value, "workspace"@) matches Some(Value::Boolean { value: true, .. }) {
                    rest.insert(key.value@)
                } else {
                    rest
                }
            } else {
                match string_text(table_get(value, "path"@)) {
                    Some(p) => rest.insert(p),
                    None => rest,
                }
            }
        } else {
            rest
        }
    }
}

/// The requests that the dependency tables at `paths` make.
pub open spec fn table_requests(
    document: Value,
    paths: Seq<Seq<Seq<char>>>,
    visible_range: Range,
    version_enabled: bool,
    default_enabled: bool,
    workspace: bool,
) -> Set<Seq<char>>
    decreases paths.len(),
{
    if paths.len() == 0 {
        Set::empty()
    } else {
        let rest = table_requests(document, paths.drop_last(), visible_range, version_enabled, default_enabled, workspace);
        match crate::document::dig_value(document, paths.last()) {
            Some(Value::Table { entries, .. }) => rest + entry_requests(
                entries@,
                visible_range,
                version_enabled,
                default_enabled,
                workspace,
            ),
            _ => rest,
        }
    }
}

/// Adds the requests of one dependency table.
fn collect_requests_from_table(
    table: &Value,
    visible_range: Range,
    version_enabled: bool,
    default_enabled: bool,
    requests: &mut LocalManifestRequests,
)
    requires
        table is Table,
        strictly_sorted(texts(old(requests).path_dependencies@)),
        strictly_sorted(texts(old(requests).workspace_dependencies@)),
    ensures
        strictly_sorted(texts(final(requests).path_dependencies@)),
        strictly_sorted(texts(final(requests).workspace_dependencies@)),
        texts(final(requests).path_dependencies@).to_set() == texts(old(requests).path_dependencies@).to_set()
            + entry_requests(table->entries@, visible_range, version_enabled, default_enabled, false),
        texts(final(requests).workspace_dependencies@).to_set() == texts(old(requests).workspace_dependencies@).to_set()
            + entry_requests(table->entries@, visible_range, version_enabled, default_enabled, true),
{
    let entries = match table {
        Value::Table { entries, .. } => entries,
        _ => return,
    };
    let ghost p0 = texts(requests.path_dependencies@).to_set();
    let ghost w0 = texts(requests.workspace_dependencies@).to_set();
    let n = entries.len();
    let mut i: usize = 0;
    assert(p0 + entry_requests(entries@.take(0), visible_range, version_enabled, default_enabled, false) =~= p0);
    assert(w0 + entry_requests(entries@.take(0), visible_range, version_enabled, default_enabled, true) =~= w0);
    while i < n
        invariant
            n == entries@.len(),
            0 <= i <= n,
            strictly_sorted(texts(requests.path_dependencies@)),
            strictly_sorted(texts(requests.workspace_dependencies@)),
            texts(requests.path_dependencies@).to_set() == p0 + entry_requests(
                entries@.take(i as int),
                visible_range,
                version_enabled,
                default_enabled,
                false,
            ),
            texts(requests.workspace_dependencies@).to_set() == w0 + entry_requests(
                entries@.take(i as int),
                visible_range,
                version_enabled,
                default_enabled,
                true,
            ),
        decreases n - i,
    {
        assert(entries@.take(i + 1).drop_last() =~= entries@.take(i as int));
        assert(entries@.take(i + 1).last() == entries@[i as int]);
        let ghost pb = texts(requests.path_dependencies@).to_set();
        let ghost wb = texts(requests.workspace_dependencies@).to_set();
        let (key, value) = &entries[i];
        let is_table = match value {
            Value::Table { .. } => true,
            _ => false,
        };
        if is_table && needs_visible_local_manifest_prefetch(
            key.value.as_str(),
            value,
            visible_range,
            version_enabled,
            default_enabled,
        ) {
            match value.get_string("path") {
                Some(path) => {
                    insert_sorted(&mut requests.path_dependencies, path.clone());
                    assert(texts(requests.path_dependencies@).to_set() =~= p0 + entry_requests(
                        entries@.take(i + 1),
                        visible_range,
                        version_enabled,
                        default_enabled,
                        false,
                    ));
                },
                None => {},
            }
            match value.get("workspace") {
                Some(Value::Boolean { value: true, .. }) => {
                    insert_sorted(&mut requests.workspace_dependencies, key.value.clone());
                    assert(texts(requests.workspace_dependencies@).to_set() =~= w0 + entry_requests(
                        entries@.take(i + 1),
                        visible_range,
                        version_enabled,
                        default_enabled,
                        true,
                    ));
                },
                _ => {},
            }
        }
        i = i + 1;
    }
    assert(entries@.take(n as int) =~= entries@);
}

/// The local manifests that the visible hints of a manifest need, from all its dependency
/// tables.
pub fn collect_local_manifest_requests(
    document_tree: &Value,
    visible_range: Range,
    dependency_version_enabled: bool,
    default_features_enabled: bool,
) -> (r: LocalManifestRequests)
    ensures
        strictly_sorted(texts(r.path_dependencies@)),
        strictly_sorted(texts(r.workspace_dependencies@)),
        texts(r.path_dependencies@).to_set() == table_requests(
            *document_tree,
            dependency_table_paths_of(*document_tree),
            visible_range,
            dependency_version_enabled,
            default_features_enabled,
            false,
        ),
        texts(r.workspace_dependencies@).to_set() == table_requests(
            *document_tree,
            dependency_table_paths_of(*document_tree),
            visible_range,
            dependency_version_enabled,
            default_features_enabled,
            true,
        ),
{
    let paths = dependency_table_paths(document_tree);
    let ghost ps = path_texts(paths@);
    let mut requests = LocalManifestRequests { path_dependencies: Vec::new(), workspace_dependencies: Vec::new() };
    assert(texts(requests.path_dependencies@).to_set() =~= Set::<Seq<char>>::empty());
    assert(texts(requests.workspace_dependencies@).to_set() =~= Set::<Seq<char>>::empty());
    let n = paths.len();
    let mut i: usize = 0;
    while i < n
        invariant
            n == paths@.len(),
            ps == path_texts(paths@),
            0 <= i <= n,
            strictly_sorted(texts(requests.path_dependencies@)),
            strictly_sorted(texts(requests.workspace_dependencies@)),
            texts(requests.path_dependencies@).to_set() == table_requests(
                *document_tree,
                ps.take(i as int),
                visible_range,
                dependency_version_enabled,
                default_features_enabled,
                false,
            ),
            texts(requests.workspace_dependencies@).to_set() == table_requests(
                *document_tree,
                ps.take(i as int),
                visible_range,
                dependency_version_enabled,
                default_features_enabled,
                true,
            ),
        decreases n - i,
    {
        assert(ps.take(i + 1).drop_last() =~= ps.take(i as int));
        assert(ps.take(i + 1).last() == ps[i as int]);
        assert(ps[i as int] == texts(paths@[i as int]@));
        match dig_strings(document_tree, &paths[i]) {
            Some((_, table)) => {
                match table {
                    Value::Table { .. } => {
                        collect_requests_from_table(
                            table,
                            visible_range,
                            dependency_version_enabled,
                            default_features_enabled,
                            &mut requests,
                        );
                    },
                    _ => {},
                }
            },
            None => {},
        }
        i = i + 1;
    }
    assert(ps.take(n as int) =~= ps);
    requests
}

} // verus!

verus! {

/// `s` with each carriage return and line feed written as `\r` and `\n`.
pub open spec fn escape_line_breaks(s: Seq<char>) -> Seq<char>
    decreases s.len(),
{
    if s.len() == 0 {
        Seq::empty()
    } else {
        let rest = escape_line_breaks(s.drop_last());
        if s.last() == '\r' {
            rest + seq!['\\', 'r']
        } else if s.last() == '\n' {
            rest + seq!['\\', 'n']
        } else {
            rest.push(s.last())
        }
    }
}

/// The text of a value as a hint shows it: on one line, and cut to 77 characters and
/// `...` where it is longer than 80.
pub open spec fn hint_text(rendered: Seq<char>) -> Seq<char> {
    let e = escape_line_breaks(rendered);
    if e.len() <= 80 {
        e
    } else {
        e.take(77) + "..."@
    }
}

/// The text of a rendered value as a hint shows it.
pub fn sanitize_value_for_hint(rendered: &str) -> (r: String)
    ensures
        r@ == hint_text(rendered@),
{
    let n = rendered.unicode_len();
    let mut out = String::new();
    let mut i: usize = 0;
    assert(out@ =~= escape_line_breaks(rendered@.take(0)));
    while i < n
        invariant
            n == rendered@.len(),
            0 <= i <= n,
            out@ == escape_line_breaks(rendered@.take(i as int)),
        decreases n - i,
    {
        assert(rendered@.take(i + 1).drop_last() =~= rendered@.take(i as int));
        assert(rendered@.take(i + 1).last() == rendered@[i as int]);
        let c = rendered.get_char(i);
        if c == '\r' {
            out.append("\\r");
            assert("\\r"@ =~= seq!['\\', 'r']) by {
                reveal_strlit("\\r");
            }
        } else if c == '\n' {
            out.append("\\n");
            assert("\\n"@ =~= seq!['\\', 'n']) by {
                reveal_strlit("\\n");
            }
        } else {
            crate::text::push_char(&mut out, c);
        }
        i = i + 1;
    }
    assert(rendered@.take(n as int) =~= rendered@);
    let m = out.unicode_len();
    if m <= 80 {
        out
    } else {
        let mut cut = String::from_str(out.as_str().substring_char(0, 77));
        cut.append("...");
        cut
    }
}

/// The label of a hint that shows the value a field inherits from the workspace, given
/// the value's rendered text; none for an incomplete value.
pub fn workspace_value_hint_label(value: &Value, rendered: &str) -> (r: Option<String>)
    ensures
        match *value {
            Value::Incomplete { .. } => r is None,
            _ => r matches Some(s) && s@ == " → "@ + hint_text(rendered@),
        },
{
    match value {
        Value::Incomplete { .. } => None,
        _ => {
            let mut label = String::from_str(" → ");
            let text = sanitize_value_for_hint(rendered);
            label.append(text.as_str());
            Some(label)
        },
    }
}

} // verus!

verus! {

/// The tooltip of a version resolved from `Cargo.lock`.
pub const RESOLVED_VERSION_TOOLTIP: &'static str = "Resolved version in Cargo.lock";

/// The tooltip of a version read from a local dependency's manifest.
pub const LOCAL_PATH_VERSION_TOOLTIP: &'static str = "Version from local dependency Cargo.toml";

/// The tooltip of a value inherited from the workspace.
pub const WORKSPACE_INHERITED_VALUE_TOOLTIP: &'static str = "Inherited value from workspace";

/// An inlay hint: where it goes, its label and its tooltip. (The editor shows every hint
/// of this library as a type hint, padded on its left.)
#[derive(Debug, Clone, PartialEq, Eq)]
pub struct InlayHint {
    pub position: Position,
    pub label: String,
    pub tooltip: String,
}

/// The version hints of the entries of a dependency table that fall in the visible range,
/// in order.
pub open spec fn visible_version_hints_of(
    entries: Seq<(crate::document::Key, Value)>,
    visible_range: Range,
) -> Seq<VersionHintView>
    decreases entries.len(),
{
    if entries.len() == 0 {
        Seq::empty()
    } else {
        let rest = visible_version_hints_of(entries.drop_last(), visible_range);
        match version_hint_of(entries.last().0.value@, entries.last().1) {
            Some(h) => if visible_at(h.position, visible_range) {
                rest.push(h)
            } else {
                rest
            },
            None => rest,
        }
    }
}

/// The version hints of a dependency table that fall in the visible range, in order.
pub fn visible_version_hints(dependencies: &Value, visible_range: Range) -> (r: Vec<DependencyVersionHint>)
    ensures
        r@.map_values(|h: DependencyVersionHint| h.view_hint()) == match *dependencies {
            Value::Table { entries, .. } => visible_version_hints_of(entries@, visible_range),
            _ => Seq::empty(),
        },
{
    let mut out: Vec<DependencyVersionHint> = Vec::new();
    match dependencies {
        Value::Table { entries, .. } => {
            let n = entries.len();
            let mut i: usize = 0;
            assert(out@.map_values(|h: DependencyVersionHint| h.view_hint()) =~= visible_version_hints_of(
                entries@.take(0),
                visible_range,
            ));
            while i < n
                invariant
                    n == entries@.len(),
                    0 <= i <= n,
                    out@.map_values(|h: DependencyVersionHint| h.view_hint()) == visible_version_hints_of(
                        entries@.take(i as int),
                        visible_range,
                    ),
                decreases n - i,
            {
                assert(entries@.take(i + 1).drop_last() =~= entries@.take(i as int));
                assert(entries@.take(i + 1).last() == entries@[i as int]);
                let (key, value) = &entries[i];
                match dependency_version_hint(key.value.as_str(), value) {
                    Some(h) => {
                        if Range::at(h.position).intersects(&visible_range) {
                            let ghost before = out@;
                            out.push(h);
                            assert(out@.map_values(|h: DependencyVersionHint| h.view_hint()) =~= before.map_values(
                                |h: DependencyVersionHint| h.view_hint(),
                            ).push(h.view_hint()));
                        }
                    },
                    None => {},
                }
                i = i + 1;
            }
            assert(entries@.take(n as int) =~= entries@);
        },
        _ => {
            assert(out@.map_values(|h: DependencyVersionHint| h.view_hint()) =~= Seq::<VersionHintView>::empty());
        },
    }
    out
}

/// The version that `Cargo.lock` gives a dependency of the tables under `dependency_keys`,
/// where the lockfile data is at hand.
pub fn lock_resolved_version(
    dependency_name: &str,
    dependency_keys: &[&str],
    cargo_lock_cache: Option<&CargoLockInlayCacheData>,
    current_package: Option<&CurrentPackage>,
    workspace_member_packages: Option<&Vec<WorkspaceMemberPackage>>,
) -> (r: Option<String>)
    ensures
        match cargo_lock_cache {
            None => r is None,
            Some(cache) => opt_text(r) == if is_workspace_dependencies(dependency_keys@) {
                workspace_lock_version(cache.entries(), members_view(workspace_member_packages), dependency_name@)
            } else {
                match current_package {
                    Some(p) => cache_resolution(cache.entries(), p.name@, p.version@, dependency_name@),
                    None => None,
                }
            },
        },
{
    match cargo_lock_cache {
        Some(cache) => cargo_lock_dependency_version(
            cache,
            dependency_keys,
            dependency_name,
            current_package,
            workspace_member_packages,
        ),
        None => None,
    }
}

/// The inlay hint of a version hint, given the version the lockfile resolves and the one
/// read from a local manifest: the lockfile's first; none where neither is known or the
/// written version already is the resolved one (unless the hint is always shown).
pub fn version_inlay_hint(hint: &DependencyVersionHint, lock_version: Option<String>, local_version: Option<String>) -> (r: Option<InlayHint>)
    ensures
        ({
            let resolved = match lock_version {
                Some(v) => Some((v@, RESOLVED_VERSION_TOOLTIP@)),
                None => match local_version {
                    Some(v) => Some((v@, LOCAL_PATH_VERSION_TOOLTIP@)),
                    None => None,
                },
            };
            match resolved {
                None => r is None,
                Some((v, tooltip)) => if !hint.always_show && opt_text(hint.current_version) == Some(v) {
                    r is None
                } else {
                    r matches Some(h) && h.position == hint.position && h.label@ == " → \""@ + v + "\""@
                        && h.tooltip@ == tooltip
                },
            }
        }),
{
    let (version, tooltip) = match lock_version {
        Some(v) => (v, RESOLVED_VERSION_TOOLTIP),
        None => match local_version {
            Some(v) => (v, LOCAL_PATH_VERSION_TOOLTIP),
            None => return None,
        },
    };
    let current = match &hint.current_version {
        Some(c) => Some(c.as_str()),
        None => None,
    };
    match version_hint_label(current, version.as_str(), hint.always_show) {
        Some(label) => Some(InlayHint { position: hint.position, label, tooltip: String::from_str(tooltip) }),
        None => None,
    }
}

} // verus!

verus! {

/// The `[package]` fields that a member can inherit from `[workspace.package]`.
pub open spec fn workspace_package_items() -> Seq<Seq<char>> {
    seq![
        "authors"@,
        "categories"@,
        "description"@,
        "documentation"@,
        "edition"@,
        "exclude"@,
        "homepage"@,
        "include"@,
        "keywords"@,
        "license-file"@,
        "license"@,
        "publish"@,
        "readme"@,
        "repository"@,
        "rust-version"@,
        "version"@,
    ]
}

/// The `[package]` fields that a member can inherit from `[workspace.package]`.
pub fn workspace_package_item_list() -> (r: Vec<&'static str>)
    ensures
        r@.map_values(|s: &str| s@) == workspace_package_items(),
{
    let r = vec![
        "authors",
        "categories",
        "description",
        "documentation",
        "edition",
        "exclude",
        "homepage",
        "include",
        "keywords",
        "license-file",
        "license",
        "publish",
        "readme",
        "repository",
        "rust-version",
        "version",
    ];
    assert(r@.map_values(|s: &str| s@) =~= workspace_package_items());
    r
}

/// Where the `workspace = true` flag at `keys` ends, where it is the boolean `true`.
pub open spec fn workspace_flag_end(document: Value, keys: Seq<Seq<char>>) -> Option<Position> {
    match crate::document::dig_value(document, keys) {
        Some(Value::Boolean { value: true, range }) => Some(range.end),
        _ => None,
    }
}

/// Whether a flag exists and ends in the visible range.
pub open spec fn visible_flag(flag: Option<Position>, visible_range: Range) -> bool {
    match flag {
        Some(p) => visible_at(p, visible_range),
        None => false,
    }
}

/// Whether some inherited package field, or inherited lints, has its flag in the visible
/// range.
pub open spec fn has_visible_workspace_targets(document: Value, visible_range: Range) -> bool {
    ||| exists|i: int|
        0 <= i < workspace_package_items().len() && visible_flag(
            workspace_flag_end(document, seq!["package"@, #[trigger] workspace_package_items()[i], "workspace"@]),
            visible_range,
        )
    ||| visible_flag(workspace_flag_end(document, seq!["lints"@, "workspace"@]), visible_range)
}

/// Where the `workspace = true` flag at `keys` ends.
fn workspace_flag_position(document: &Value, keys: &[&str]) -> (r: Option<Position>)
    ensures
        r == workspace_flag_end(*document, keys@.map_values(|s: &str| s@)),
{
    assert(crate::document::key_views(keys@) =~= keys@.map_values(|s: &str| s@));
    match crate::document::dig_keys(document, keys) {
        Some((_, Value::Boolean { value, range })) => if *value {
            Some(range.end)
        } else {
            None
        },
        _ => None,
    }
}

/// Whether some inherited package field, or inherited lints, is visible.
pub fn has_visible_workspace_value_targets(document_tree: &Value, visible_range: Range) -> (r: bool)
    ensures
        r == has_visible_workspace_targets(*document_tree, visible_range),
{
    let items = workspace_package_item_list();
    let n = items.len();
    let mut i: usize = 0;
    while i < n
        invariant
            n == items@.len(),
            items@.map_values(|s: &str| s@) == workspace_package_items(),
            0 <= i <= n,
            forall|j: int|
                0 <= j < i ==> !visible_flag(
                    workspace_flag_end(*document_tree, seq!["package"@, #[trigger] workspace_package_items()[j], "workspace"@]),
                    visible_range,
                ),
        decreases n - i,
    {
        let keys = ["package", items[i], "workspace"];
        assert(keys@.map_values(|s: &str| s@) =~= seq!["package"@, workspace_package_items()[i as int], "workspace"@]);
        match workspace_flag_position(document_tree, &keys) {
            Some(p) => {
                if Range::at(p).intersects(&visible_range) {
                    return true;
                }
            },
            None => {},
        }
        i = i + 1;
    }
    let keys = ["lints", "workspace"];
    assert(keys@.map_values(|s: &str| s@) =~= seq!["lints"@, "workspace"@]);
    match workspace_flag_position(document_tree, &keys) {
        Some(p) => Range::at(p).intersects(&visible_range),
        None => false,
    }
}

/// The value that an inherited field takes from the workspace manifest, with where its
/// hint goes: each inherited package field in turn, then inherited lints; only those whose
/// flag is visible and whose workspace value exists.
pub open spec fn workspace_value_targets_of(document: Value, workspace_document: Value, visible_range: Range) -> Seq<(Position, Value)> {
    package_value_targets(document, workspace_document, visible_range, workspace_package_items()) + lint_value_targets(
        document,
        workspace_document,
        visible_range,
    )
}

/// The inherited package fields among `items`, in order.
pub open spec fn package_value_targets(
    document: Value,
    workspace_document: Value,
    visible_range: Range,
    items: Seq<Seq<char>>,
) -> Seq<(Position, Value)>
    decreases items.len(),
{
    if items.len() == 0 {
        Seq::empty()
    } else {
        let rest = package_value_targets(document, workspace_document, visible_range, items.drop_last());
        let item = items.last();
        match (
            workspace_flag_end(document, seq!["package"@, item, "workspace"@]),
            crate::document::dig_value(workspace_document, seq!["workspace"@, "package"@, item]),
        ) {
            (Some(p), Some(v)) => if visible_at(p, visible_range) {
                rest.push((p, v))
            } else {
                rest
            },
            _ => rest,
        }
    }
}

/// The inherited lints, where their flag is visible.
pub open spec fn lint_value_targets(document: Value, workspace_document: Value, visible_range: Range) -> Seq<(Position, Value)> {
    match (
        workspace_flag_end(document, seq!["lints"@, "workspace"@]),
        crate::document::dig_value(workspace_document, seq!["workspace"@, "lints"@]),
    ) {
        (Some(p), Some(v)) => if visible_at(p, visible_range) {
            seq![(p, v)]
        } else {
            Seq::empty()
        },
        _ => Seq::empty(),
    }
}

/// The workspace value at `keys`.
fn workspace_value_at<'a>(workspace_document: &'a Value, keys: &[&str]) -> (r: Option<&'a Value>)
    ensures
        match crate::document::dig_value(*workspace_document, keys@.map_values(|s: &str| s@)) {
            Some(v) => r matches Some(x) && *x == v,
            None => r is None,
        },
{
    assert(crate::document::key_views(keys@) =~= keys@.map_values(|s: &str| s@));
    match crate::document::dig_keys(workspace_document, keys) {
        Some((_, v)) => Some(v),
        None => None,
    }
}

/// The values that visible inherited fields take from the workspace, with where their
/// hints go, in order; the caller renders each value and labels it with
/// `workspace_value_hint_label`.
pub fn workspace_value_targets<'a>(document_tree: &Value, workspace_document_tree: &'a Value, visible_range: Range) -> (r: Vec<(Position, &'a Value)>)
    ensures
        r@.map_values(|t: (Position, &'a Value)| (t.0, *t.1)) == workspace_value_targets_of(
            *document_tree,
            *workspace_document_tree,
            visible_range,
        ),
{
    let items = workspace_package_item_list();
    let ghost its = workspace_package_items();
    let mut out: Vec<(Position, &'a Value)> = Vec::new();
    let n = items.len();
    let mut i: usize = 0;
    assert(out@.map_values(|t: (Position, &'a Value)| (t.0, *t.1)) =~= package_value_targets(
        *document_tree,
        *workspace_document_tree,
        visible_range,
        its.take(0),
    ));
    while i < n
        invariant
            n == items@.len(),
            items@.map_values(|s: &str| s@) == its,
            its == workspace_package_items(),
            0 <= i <= n,
            out@.map_values(|t: (Position, &'a Value)| (t.0, *t.1)) == package_value_targets(
                *document_tree,
                *workspace_document_tree,
                visible_range,
                its.take(i as int),
            ),
        decreases n - i,
    {
        assert(its.take(i + 1).drop_last() =~= its.take(i as int));
        assert(its.take(i + 1).last() == its[i as int]);
        assert(its[i as int] == items@[i as int]@);
        let flag_keys = ["package", items[i], "workspace"];
        let value_keys = ["workspace", "package", items[i]];
        assert(flag_keys@.map_values(|s: &str| s@) =~= seq!["package"@, its[i as int], "workspace"@]);
        assert(value_keys@.map_values(|s: &str| s@) =~= seq!["workspace"@, "package"@, its[i as int]]);
        let flag = workspace_flag_position(document_tree, &flag_keys);
        let value = workspace_value_at(workspace_document_tree, &value_keys);
        match (flag, value) {
            (Some(p), Some(v)) => {
                if Range::at(p).intersects(&visible_range) {
                    let ghost before = out@;
                    out.push((p, v));
                    assert(out@.map_values(|t: (Position, &'a Value)| (t.0, *t.1)) =~= before.map_values(
                        |t: (Position, &'a Value)| (t.0, *t.1),
                    ).push((p, *v)));
                }
            },
            _ => {},
        }
        i = i + 1;
    }
    assert(its.take(n as int) =~= its);
    let ghost package_part = out@.map_values(|t: (Position, &'a Value)| (t.0, *t.1));
    let flag_keys = ["lints", "workspace"];
    let value_keys = ["workspace", "lints"];
    assert(flag_keys@.map_values(|s: &str| s@) =~= seq!["lints"@, "workspace"@]);
    assert(value_keys@.map_values(|s: &str| s@) =~= seq!["workspace"@, "lints"@]);
    let flag = workspace_flag_position(document_tree, &flag_keys);
    let value = workspace_value_at(workspace_document_tree, &value_keys);
    match (flag, value) {
        (Some(p), Some(v)) => {
            if Range::at(p).intersects(&visible_range) {
                out.push((p, v));
                assert(out@.map_values(|t: (Position, &'a Value)| (t.0, *t.1)) =~= package_part + seq![(p, *v)]);
            } else {
                assert(package_part + Seq::<(Position, Value)>::empty() =~= package_part);
            }
        },
        _ => {
            assert(package_part + Seq::<(Position, Value)>::empty() =~= package_part);
        },
    }
    out
}

} // verus!

verus! {

/// The name that a manifest gives its package.
pub fn current_package_name(document_tree: &Value) -> (r: Option<&str>)
    ensures
        match string_text(crate::document::dig_value(*document_tree, seq!["package"@, "name"@])) {
            Some(t) => r matches Some(s) && s@ == t,
            None => r is None,
        },
{
    let keys = ["package", "name"];
    assert(crate::document::key_views(keys@) =~= seq!["package"@, "name"@]);
    match crate::document::dig_keys(document_tree, &keys) {
        Some((_, Value::String { value, .. })) => Some(value.as_str()),
        _ => None,
    }
}

/// The version that a manifest gives its package: written out, or inherited with
/// `version.workspace = true` from `[workspace.package]` of the manifest itself where it
/// is the workspace root, else of the workspace manifest.
pub open spec fn package_version_of(document: Value, workspace_document: Option<Value>) -> Option<Seq<char>> {
    let ws_version = seq!["workspace"@, "package"@, "version"@];
    match crate::document::dig_value(document, seq!["package"@, "version"@]) {
        Some(Value::String { value, .. }) => Some(value@),
        Some(Value::Table { .. }) => {
            let t = crate::document::dig_value(document, seq!["package"@, "version"@]).unwrap();
            if table_get(t, "workspace"@) matches Some(Value::Boolean { value: true, .. }) {
                if crate::document::table_entry(document, "workspace"@) is Some {
                    string_text(crate::document::dig_value(document, ws_version))
                } else {
                    match workspace_document {
                        Some(w) => string_text(crate::document::dig_value(w, ws_version)),
                        None => None,
                    }
                }
            } else {
                None
            }
        },
        _ => None,
    }
}

/// The string at `keys`, where there is one.
fn string_at<'a>(document: &'a Value, keys: &[&str]) -> (r: Option<&'a String>)
    ensures
        match string_text(crate::document::dig_value(*document, keys@.map_values(|s: &str| s@))) {
            Some(t) => r matches Some(s) && s@ == t,
            None => r is None,
        },
{
    assert(crate::document::key_views(keys@) =~= keys@.map_values(|s: &str| s@));
    match crate::document::dig_keys(document, keys) {
        Some((_, Value::String { value, .. })) => Some(value),
        _ => None,
    }
}

/// The version that a manifest gives its package; `workspace_document_tree` is the
/// workspace manifest, needed where the package inherits its version and is not itself
/// the workspace root.
pub fn package_version(document_tree: &Value, workspace_document_tree: Option<&Value>) -> (r: Option<String>)
    ensures
        opt_text(r) == package_version_of(
            *document_tree,
            match workspace_document_tree {
                Some(w) => Some(*w),
                None => None,
            },
        ),
{
    let keys = ["package", "version"];
    let ws_keys = ["workspace", "package", "version"];
    assert(crate::document::key_views(keys@) =~= seq!["package"@, "version"@]);
    assert(ws_keys@.map_values(|s: &str| s@) =~= seq!["workspace"@, "package"@, "version"@]);
    let version = match crate::document::dig_keys(document_tree, &keys) {
        Some((_, v)) => v,
        None => return None,
    };
    match version {
        Value::String { value, .. } => Some(value.clone()),
        Value::Table { .. } => {
            match version.get("workspace") {
                Some(Value::Boolean { value: true, .. }) => {},
                _ => return None,
            }
            if document_tree.contains_key("workspace") {
                match string_at(document_tree, &ws_keys) {
                    Some(s) => Some(s.clone()),
                    None => None,
                }
            } else {
                match workspace_document_tree {
                    Some(w) => match string_at(w, &ws_keys) {
                        Some(s) => Some(s.clone()),
                        None => None,
                    },
                    None => None,
                }
            }
        },
        _ => None,
    }
}

/// The member patterns that a workspace manifest lists in `workspace.members`.
pub fn workspace_member_patterns(workspace_document_tree: &Value) -> (r: Vec<String>)
    ensures
        texts(r@) == match crate::document::dig_value(*workspace_document_tree, seq!["workspace"@, "members"@]) {
            Some(Value::Array { values, .. }) => string_items(values@),
            _ => Seq::empty(),
        },
{
    let keys = ["workspace", "members"];
    assert(crate::document::key_views(keys@) =~= seq!["workspace"@, "members"@]);
    match crate::document::dig_keys(workspace_document_tree, &keys) {
        Some((_, Value::Array { values, .. })) => collect_strings(values),
        _ => {
            let r: Vec<String> = Vec::new();
            assert(texts(r@) =~= Seq::<Seq<char>>::empty());
            r
        },
    }
}

/// A copy of a hint.
fn copy_hint(hint: &InlayHint) -> (r: InlayHint)
    ensures
        r == *hint,
{
    InlayHint { position: hint.position, label: hint.label.clone(), tooltip: hint.tooltip.clone() }
}

/// Whether `a` comes before `b` in a document.
pub open spec fn position_lt(a: Position, b: Position) -> bool {
    a.line < b.line || (a.line == b.line && a.column < b.column)
}

/// Where a hint at `position` goes among hints ordered by position: before the first one
/// that comes after it, so after those at the same position.
pub open spec fn insertion_index(hints: Seq<InlayHint>, position: Position) -> int
    decreases hints.len(),
{
    if hints.len() == 0 {
        0
    } else if position_lt(position, hints[0].position) {
        0
    } else {
        1 + insertion_index(hints.drop_first(), position)
    }
}

/// The hints ordered by position, those at one position in the order given: each hint in
/// turn goes after the hints before it that do not come after it.
pub open spec fn stable_position_sort(hints: Seq<InlayHint>) -> Seq<InlayHint>
    decreases hints.len(),
{
    if hints.len() == 0 {
        Seq::empty()
    } else {
        let sorted = stable_position_sort(hints.drop_last());
        sorted.insert(insertion_index(sorted, hints.last().position), hints.last())
    }
}

/// The first `k` hints do not come after `position` and the `k`-th (if any) does: a hint
/// at `position` goes at `k`.
proof fn lemma_insertion_index(hints: Seq<InlayHint>, position: Position, k: int)
    requires
        0 <= k <= hints.len(),
        forall|j: int| 0 <= j < k ==> !position_lt(position, #[trigger] hints[j].position),
        k == hints.len() || position_lt(position, hints[k].position),
    ensures
        insertion_index(hints, position) == k,
    decreases k,
{
    if k > 0 {
        let rest = hints.drop_first();
        assert(!position_lt(position, hints[0].position));
        assert forall|j: int| 0 <= j < k - 1 implies !position_lt(position, #[trigger] rest[j].position) by {
            assert(rest[j] == hints[j + 1]);
        }
        if k < hints.len() {
            assert(rest[k - 1] == hints[k]);
        }
        lemma_insertion_index(rest, position, k - 1);
    }
}

/// The hints ordered by position; hints at one position keep their order.
pub fn sort_hints_by_position(hints: Vec<InlayHint>) -> (r: Vec<InlayHint>)
    ensures
        r@ == stable_position_sort(hints@),
        forall|i: int, j: int| 0 <= i < j < r@.len() ==> !position_lt(#[trigger] r@[j].position, #[trigger] r@[i].position),
        r@.to_multiset() == hints@.to_multiset(),
{
    let mut out: Vec<InlayHint> = Vec::new();
    let n = hints.len();
    let mut i: usize = 0;
    let mut rest = hints;
    let ghost all = rest@;
    assert(all.take(0) =~= Seq::<InlayHint>::empty());
    assert(out@ =~= Seq::<InlayHint>::empty());
    while i < n
        invariant
            n == all.len(),
            0 <= i <= n,
            rest@ == all,
            forall|a: int, b: int| 0 <= a < b < out@.len() ==> !position_lt(#[trigger] out@[b].position, #[trigger] out@[a].position),
            out@.to_multiset() == all.take(i as int).to_multiset(),
            out@ == stable_position_sort(all.take(i as int)),
        decreases n - i,
    {
        let x = copy_hint(&rest[i]);
        let ghost before = out@;
        let m = out.len();
        let mut k: usize = 0;
        while k < m && !(x.position.line < out[k].position.line || (x.position.line == out[k].position.line
            && x.position.column < out[k].position.column))
            invariant
                m == out@.len(),
                before == out@,
                0 <= k <= m,
                forall|j: int| 0 <= j < k ==> !position_lt(x.position, #[trigger] before[j].position),
            decreases m - k,
        {
            k = k + 1;
        }
        proof {
            lemma_insertion_index(before, x.position, k as int);
            assert(all.take(i + 1).drop_last() =~= all.take(i as int));
            assert(all.take(i + 1).last() == x);
        }
        out.insert(k, x);
        proof {
            let after = out@;
            assert(after =~= before.insert(k as int, x));
            assert forall|a: int, b: int| 0 <= a < b < after.len() implies !position_lt(
                #[trigger] after[b].position,
                #[trigger] after[a].position,
            ) by {
                if a < k && b > k {
                    assert(after[b] == before[b - 1]);
                    if k < m && b - 1 != k as int {
                        assert(!position_lt(before[b - 1].position, before[k as int].position));
                    }
                } else if a == k && b > k {
                    assert(after[b] == before[b - 1]);
                    assert(position_lt(x.position, before[k as int].position));
                    if b - 1 != k as int {
                        assert(!position_lt(before[b - 1].position, before[k as int].position));
                    }
                } else if a > k {
                    assert(after[a] == before[a - 1] && after[b] == before[b - 1]);
                }
            }
            crate::order::lemma_insert_multiset(before, k as int, x);
            assert(all.take(i + 1) =~= all.take(i as int).push(all[i as int]));
            broadcast use vstd::seq_lib::group_to_multiset_ensures;
        }
        i = i + 1;
    }
    assert(all.take(n as int) =~= all);
    out
}

} // verus!
