//! What opening a `Cargo.toml` warms up: the registry dependencies it names, and the
//! crates.io URLs that hover, completion and inlay hints will ask for.

use vstd::prelude::*;
use vstd::string::StringExecFns;

use crate::cargo_lock::{opt_text, requirement_text, resolutions, semver_normalized, sole_value, CargoLock, exact_crates_io_version};
use crate::document::{dig_value, string_text, table_entry, table_get, Key, Value};
use crate::inlay::{default_features_disabled, dependency_package_name, dependency_table_default_features_disabled, package_name_of};
use crate::order::{contains_text, insert_sorted, strictly_sorted, texts};
use crate::text::str_eq;

verus! {

/// The table a dependency kind inherits from under `[workspace]`: dev and build
/// dependencies come from `workspace.dependencies`.
pub open spec fn sanitized_dependency_key(key: Seq<char>) -> Seq<char> {
    if key == "dev-dependencies"@ || key == "build-dependencies"@ {
        "dependencies"@
    } else {
        key
    }
}

/// The table a dependency kind inherits from under `[workspace]`.
pub fn sanitize_dependency_key(key: &str) -> (r: &str)
    ensures
        r@ == sanitized_dependency_key(key@),
{
    if str_eq(key, "dev-dependencies") || str_eq(key, "build-dependencies") {
        "dependencies"
    } else {
        key
    }
}

/// A dependency fetched from the crates.io registry.
#[derive(Debug, Clone)]
pub struct RegistryDependency {
    pub crate_name: String,
    pub version_requirement: Option<String>,
    /// Whether its default-features hint will be asked for: it names a version and
    /// features, and keeps its default features.
    pub default_features_hint: bool,
}

/// A registry dependency as plain values.
pub struct RegistryDependencyView {
    pub crate_name: Seq<char>,
    pub version_requirement: Option<Seq<char>>,
    pub default_features_hint: bool,
}

impl RegistryDependency {
    pub open spec fn view_dependency(self) -> RegistryDependencyView {
        RegistryDependencyView {
            crate_name: self.crate_name@,
            version_requirement: opt_text(self.version_requirement),
            default_features_hint: self.default_features_hint,
        }
    }
}

/// Whether a dependency table points somewhere else than the registry.
pub open spec fn not_from_registry(table: Value) -> bool {
    table_entry(table, "path"@) is Some || table_entry(table, "git"@) is Some || table_entry(table, "registry"@) is Some
}

/// The registry dependency that a table entry under `key` describes.
pub open spec fn registry_table_view(key: Seq<char>, table: Value) -> RegistryDependencyView {
    RegistryDependencyView {
        crate_name: package_name_of(key, table),
        version_requirement: string_text(table_get(table, "version"@)),
        default_features_hint: table_entry(table, "version"@) is Some && table_entry(table, "features"@) is Some
            && !default_features_disabled(table),
    }
}

/// The registry dependency that the workspace defines for `key` of a dependency kind.
pub open spec fn workspace_registry_of(key: Seq<char>, kind: Seq<char>, workspace: Option<Value>) -> Option<RegistryDependencyView> {
    match workspace {
        None => None,
        Some(w) => match dig_value(w, seq!["workspace"@, sanitized_dependency_key(kind), key]) {
            Some(Value::String { value, .. }) => Some(
                RegistryDependencyView { crate_name: key, version_requirement: Some(value@), default_features_hint: false },
            ),
            Some(t) => if t is Table {
                if not_from_registry(t) || table_entry(t, "workspace"@) is Some {
                    None
                } else {
                    Some(registry_table_view(key, t))
                }
            } else {
                None
            },
            None => None,
        },
    }
}

/// The registry dependency that an entry of a dependency table describes: a version
/// string, or a table that names no other source (one inheriting from the workspace takes
/// the workspace's definition).
pub open spec fn registry_dependency_of(key: Seq<char>, value: Value, kind: Seq<char>, workspace: Option<Value>) -> Option<RegistryDependencyView> {
    match value {
        Value::String { value: v, .. } => Some(
            RegistryDependencyView { crate_name: key, version_requirement: Some(v@), default_features_hint: false },
        ),
        Value::Table { .. } => if not_from_registry(value) {
            None
        } else if table_get(value, "workspace"@) matches Some(Value::Boolean { value: true, .. }) {
            workspace_registry_of(key, kind, workspace)
        } else {
            Some(registry_table_view(key, value))
        },
        _ => None,
    }
}

/// The registry dependency of a dependency table.
fn registry_from_table(key: &str, table: &Value) -> (r: RegistryDependency)
    requires
        table is Table,
    ensures
        r.view_dependency() == registry_table_view(key@, *table),
{
    RegistryDependency {
        crate_name: String::from_str(dependency_package_name(key, table)),
        version_requirement: match table.get_string("version") {
            Some(v) => Some(v.clone()),
            None => None,
        },
        default_features_hint: table.contains_key("version") && table.contains_key("features")
            && !dependency_table_default_features_disabled(table),
    }
}

/// The registry dependency that the workspace defines for `key` of a dependency kind.
pub fn workspace_registry_dependency(dependency_key: &str, dependency_kind: &str, workspace_document_tree: Option<&Value>) -> (r: Option<RegistryDependency>)
    ensures
        match workspace_registry_of(
            dependency_key@,
            dependency_kind@,
            match workspace_document_tree {
                Some(w) => Some(*w),
                None => None,
            },
        ) {
            Some(v) => r matches Some(d) && d.view_dependency() == v,
            None => r is None,
        },
{
    let w = match workspace_document_tree {
        Some(w) => w,
        None => return None,
    };
    let keys = ["workspace", sanitize_dependency_key(dependency_kind), dependency_key];
    assert(crate::document::key_views(keys@) =~= seq![
        "workspace"@,
        sanitized_dependency_key(dependency_kind@),
        dependency_key@,
    ]);
    let value = match crate::document::dig_keys(w, &keys) {
        Some((_, v)) => v,
        None => return None,
    };
    match value {
        Value::String { value, .. } => Some(
            RegistryDependency {
                crate_name: String::from_str(dependency_key),
                version_requirement: Some(value.clone()),
                default_features_hint: false,
            },
        ),
        Value::Table { .. } => {
            if value.contains_key("path") || value.contains_key("git") || value.contains_key("registry")
                || value.contains_key("workspace") {
                None
            } else {
                Some(registry_from_table(dependency_key, value))
            }
        },
        _ => None,
    }
}

/// The registry dependency that an entry of a dependency table describes.
pub fn registry_dependency(
    dependency_key: &str,
    dependency_value: &Value,
    dependency_kind: &str,
    workspace_document_tree: Option<&Value>,
) -> (r: Option<RegistryDependency>)
    ensures
        match registry_dependency_of(
            dependency_key@,
            *dependency_value,
            dependency_kind@,
            match workspace_document_tree {
                Some(w) => Some(*w),
                None => None,
            },
        ) {
            Some(v) => r matches Some(d) && d.view_dependency() == v,
            None => r is None,
        },
{
    match dependency_value {
        Value::String { value, .. } => Some(
            RegistryDependency {
                crate_name: String::from_str(dependency_key),
                version_requirement: Some(value.clone()),
                default_features_hint: false,
            },
        ),
        Value::Table { .. } => {
            if dependency_value.contains_key("path") || dependency_value.contains_key("git")
                || dependency_value.contains_key("registry") {
                return None;
            }
            match dependency_value.get("workspace") {
                Some(Value::Boolean { value: true, .. }) => {
                    return workspace_registry_dependency(dependency_key, dependency_kind, workspace_document_tree);
                },
                _ => {},
            }
            Some(registry_from_table(dependency_key, dependency_value))
        },
        _ => None,
    }
}

/// The registry dependencies that the entries of a dependency table describe, in order.
pub open spec fn table_registry_dependencies(
    entries: Seq<(Key, Value)>,
    kind: Seq<char>,
    workspace: Option<Value>,
) -> Seq<RegistryDependencyView>
    decreases entries.len(),
{
    if entries.len() == 0 {
        Seq::empty()
    } else {
        let rest = table_registry_dependencies(entries.drop_last(), kind, workspace);
        match registry_dependency_of(entries.last().0.value@, entries.last().1, kind, workspace) {
            Some(d) => rest.push(d),
            None => rest,
        }
    }
}

/// The registry dependencies of the dependency table `table` (none where it is no table).
pub open spec fn registry_dependencies_in(table: Option<Value>, kind: Seq<char>, workspace: Option<Value>) -> Seq<RegistryDependencyView> {
    match table {
        Some(Value::Table { entries, .. }) => table_registry_dependencies(entries@, kind, workspace),
        _ => Seq::empty(),
    }
}

/// The registry dependencies of the three dependency tables of `owner`.
pub open spec fn kinds_registry_dependencies(owner: Value, workspace: Option<Value>) -> Seq<RegistryDependencyView> {
    registry_dependencies_in(table_get(owner, "dependencies"@), "dependencies"@, workspace)
        + registry_dependencies_in(table_get(owner, "dev-dependencies"@), "dev-dependencies"@, workspace)
        + registry_dependencies_in(table_get(owner, "build-dependencies"@), "build-dependencies"@, workspace)
}

/// The registry dependencies of the targets, target after target.
pub open spec fn targets_registry_dependencies(entries: Seq<(Key, Value)>, workspace: Option<Value>) -> Seq<RegistryDependencyView>
    decreases entries.len(),
{
    if entries.len() == 0 {
        Seq::empty()
    } else {
        let rest = targets_registry_dependencies(entries.drop_last(), workspace);
        if entries.last().1 is Table {
            rest + kinds_registry_dependencies(entries.last().1, workspace)
        } else {
            rest
        }
    }
}

/// The registry dependencies of a manifest: those of `workspace.dependencies`, of the
/// package's dependency tables, then of each target's.
pub open spec fn registry_dependencies_of(document: Value, workspace: Option<Value>) -> Seq<RegistryDependencyView> {
    registry_dependencies_in(dig_value(document, seq!["workspace"@, "dependencies"@]), "dependencies"@, workspace)
        + kinds_registry_dependencies(document, workspace) + match table_get(document, "target"@) {
        Some(Value::Table { entries, .. }) => targets_registry_dependencies(entries@, workspace),
        _ => Seq::empty(),
    }
}

/// The views of a list of registry dependencies.
pub open spec fn dependency_views(deps: Seq<RegistryDependency>) -> Seq<RegistryDependencyView> {
    deps.map_values(|d: RegistryDependency| d.view_dependency())
}

/// Appends the registry dependencies of a dependency table.
pub fn collect_registry_dependencies_from_table(
    dependencies: &Value,
    dependency_kind: &str,
    workspace_document_tree: Option<&Value>,
    registry_dependencies: &mut Vec<RegistryDependency>,
)
    ensures
        dependency_views(final(registry_dependencies)@) == dependency_views(old(registry_dependencies)@)
            + registry_dependencies_in(
            Some(*dependencies),
            dependency_kind@,
            match workspace_document_tree {
                Some(w) => Some(*w),
                None => None,
            },
        ),
{
    let ghost ws = match workspace_document_tree {
        Some(w) => Some(*w),
        None => None,
    };
    let ghost start = dependency_views(registry_dependencies@);
    match dependencies {
        Value::Table { entries, .. } => {
            let n = entries.len();
            let mut i: usize = 0;
            assert(start + table_registry_dependencies(entries@.take(0), dependency_kind@, ws) =~= start);
            while i < n
                invariant
                    n == entries@.len(),
                    0 <= i <= n,
                    ws == match workspace_document_tree {
                        Some(w) => Some(*w),
                        None => None,
                    },
                    dependency_views(registry_dependencies@) == start + table_registry_dependencies(
                        entries@.take(i as int),
                        dependency_kind@,
                        ws,
                    ),
                decreases n - i,
            {
                assert(entries@.take(i + 1).drop_last() =~= entries@.take(i as int));
                assert(entries@.take(i + 1).last() == entries@[i as int]);
                let (key, value) = &entries[i];
                match registry_dependency(key.value.as_str(), value, dependency_kind, workspace_document_tree) {
                    Some(d) => {
                        let ghost before = registry_dependencies@;
                        registry_dependencies.push(d);
                        assert(dependency_views(registry_dependencies@) =~= dependency_views(before).push(d.view_dependency()));
                        assert(dependency_views(registry_dependencies@) =~= start + table_registry_dependencies(
                            entries@.take(i + 1),
                            dependency_kind@,
                            ws,
                        ));
                    },
                    None => {},
                }
                i = i + 1;
            }
            assert(entries@.take(n as int) =~= entries@);
        },
        _ => {
            assert(start + Seq::<RegistryDependencyView>::empty() =~= start);
        },
    }
}

/// Appends the registry dependencies of the three dependency tables of `owner`.
fn collect_kinds(owner: &Value, workspace_document_tree: Option<&Value>, out: &mut Vec<RegistryDependency>)
    ensures
        dependency_views(final(out)@) == dependency_views(old(out)@) + kinds_registry_dependencies(
            *owner,
            match workspace_document_tree {
                Some(w) => Some(*w),
                None => None,
            },
        ),
{
    let ghost ws = match workspace_document_tree {
        Some(w) => Some(*w),
        None => None,
    };
    let ghost start = dependency_views(out@);
    match owner.get("dependencies") {
        Some(t) => collect_registry_dependencies_from_table(t, "dependencies", workspace_document_tree, out),
        None => {},
    }
    let ghost a = dependency_views(out@);
    assert(a == start + registry_dependencies_in(table_get(*owner, "dependencies"@), "dependencies"@, ws));
    match owner.get("dev-dependencies") {
        Some(t) => collect_registry_dependencies_from_table(t, "dev-dependencies", workspace_document_tree, out),
        None => {},
    }
    let ghost b = dependency_views(out@);
    assert(b == a + registry_dependencies_in(table_get(*owner, "dev-dependencies"@), "dev-dependencies"@, ws));
    match owner.get("build-dependencies") {
        Some(t) => collect_registry_dependencies_from_table(t, "build-dependencies", workspace_document_tree, out),
        None => {},
    }
    assert(dependency_views(out@) =~= start + kinds_registry_dependencies(*owner, ws));
}

/// The registry dependencies of a manifest, in order.
pub fn collect_registry_dependencies(document_tree: &Value, workspace_document_tree: Option<&Value>) -> (r: Vec<RegistryDependency>)
    ensures
        dependency_views(r@) == registry_dependencies_of(
            *document_tree,
            match workspace_document_tree {
                Some(w) => Some(*w),
                None => None,
            },
        ),
{
    let ghost ws = match workspace_document_tree {
        Some(w) => Some(*w),
        None => None,
    };
    let mut out: Vec<RegistryDependency> = Vec::new();
    let keys = ["workspace", "dependencies"];
    assert(crate::document::key_views(keys@) =~= seq!["workspace"@, "dependencies"@]);
    match crate::document::dig_keys(document_tree, &keys) {
        Some((_, t)) => collect_registry_dependencies_from_table(t, "dependencies", workspace_document_tree, &mut out),
        None => {},
    }
    assert(dependency_views(out@) =~= registry_dependencies_in(
        dig_value(*document_tree, seq!["workspace"@, "dependencies"@]),
        "dependencies"@,
        ws,
    ));
    collect_kinds(document_tree, workspace_document_tree, &mut out);
    let ghost head = dependency_views(out@);
    match document_tree.get("target") {
        Some(Value::Table { entries, .. }) => {
            let n = entries.len();
            let mut i: usize = 0;
            assert(head + targets_registry_dependencies(entries@.take(0), ws) =~= head);
            while i < n
                invariant
                    n == entries@.len(),
                    0 <= i <= n,
                    ws == match workspace_document_tree {
                        Some(w) => Some(*w),
                        None => None,
                    },
                    dependency_views(out@) == head + targets_registry_dependencies(entries@.take(i as int), ws),
                decreases n - i,
            {
                assert(entries@.take(i + 1).drop_last() =~= entries@.take(i as int));
                assert(entries@.take(i + 1).last() == entries@[i as int]);
                let target = &entries[i].1;
                match target {
                    Value::Table { .. } => {
                        collect_kinds(target, workspace_document_tree, &mut out);
                        assert(dependency_views(out@) =~= head + targets_registry_dependencies(entries@.take(i + 1), ws));
                    },
                    _ => {},
                }
                i = i + 1;
            }
            assert(entries@.take(n as int) =~= entries@);
        },
        _ => {
            assert(head + Seq::<RegistryDependencyView>::empty() =~= head);
        },
    }
    out
}

} // verus!

verus! {

/// The crates.io URLs to warm: those that a visible hint waits for, and the rest, each a
/// set kept in order.
#[derive(Debug, Clone)]
pub struct PrefetchUrls {
    pub awaited: Vec<String>,
    pub background: Vec<String>,
}

impl PrefetchUrls {
    /// Whether there is nothing to warm.
    pub fn is_empty(&self) -> (r: bool)
        ensures
            r == (self.awaited@.len() == 0 && self.background@.len() == 0),
    {
        self.awaited.len() == 0 && self.background.len() == 0
    }
}

/// Which features will ask crates.io for what.
#[derive(Debug, Clone, Copy)]
pub struct PrefetchSettings {
    /// Dependency hovers ask for the crate.
    pub warm_hover: bool,
    /// Version completion asks for the crate's versions.
    pub warm_versions: bool,
    /// Feature completion and default-features hints ask for a version's details.
    pub warm_feature_details: bool,
    /// Default-features hints are waited for.
    pub prioritize_inlay_hint: bool,
}

/// The crates.io API URL of a crate.
pub open spec fn crate_url(name: Seq<char>) -> Seq<char> {
    "https://crates.io/api/v1/crates/"@ + name
}

/// The crates.io API URL of a crate's versions.
pub open spec fn versions_url(name: Seq<char>) -> Seq<char> {
    crate_url(name) + "/versions"@
}

/// The crates.io API URL of one version of a crate.
pub open spec fn version_url(name: Seq<char>, version: Seq<char>) -> Seq<char> {
    crate_url(name) + "/"@ + version
}

/// The version a registry dependency resolves to: the exact version its requirement pins,
/// else the one the lockfile resolves; none without a requirement.
pub open spec fn prefetch_version(d: RegistryDependencyView, lock: Option<Seq<crate::cargo_lock::CargoLockPackage>>) -> Option<Seq<char>> {
    match d.version_requirement {
        None => None,
        Some(req) => match semver_normalized(requirement_text(req)) {
            Some(v) => Some(v),
            None => match lock {
                Some(packages) => sole_value(resolutions(packages, d.crate_name)),
                None => None,
            },
        },
    }
}

/// The URLs that hints wait for: the resolved version of each dependency whose
/// default-features hint is prioritised.
pub open spec fn awaited_urls(
    deps: Seq<RegistryDependencyView>,
    lock: Option<Seq<crate::cargo_lock::CargoLockPackage>>,
    settings: PrefetchSettings,
) -> Set<Seq<char>>
    decreases deps.len(),
{
    if deps.len() == 0 {
        Set::empty()
    } else {
        let rest = awaited_urls(deps.drop_last(), lock, settings);
        let d = deps.last();
        match prefetch_version(d, lock) {
            Some(v) => if settings.prioritize_inlay_hint && d.default_features_hint {
                rest.insert(version_url(d.crate_name, v))
            } else {
                rest
            },
            None => rest,
        }
    }
}

/// The URLs that the features ask for, the awaited ones not yet taken out: the crate for
/// hovers, its versions for completion, its resolved version (or, unresolved, the crate)
/// for feature details.
pub open spec fn requested_urls(
    deps: Seq<RegistryDependencyView>,
    lock: Option<Seq<crate::cargo_lock::CargoLockPackage>>,
    settings: PrefetchSettings,
) -> Set<Seq<char>>
    decreases deps.len(),
{
    if deps.len() == 0 {
        Set::empty()
    } else {
        let rest = requested_urls(deps.drop_last(), lock, settings);
        let d = deps.last();
        let a = if settings.warm_hover {
            rest.insert(crate_url(d.crate_name))
        } else {
            rest
        };
        let b = if settings.warm_versions {
            a.insert(versions_url(d.crate_name))
        } else {
            a
        };
        if settings.warm_feature_details {
            match prefetch_version(d, lock) {
                Some(v) => b.insert(version_url(d.crate_name, v)),
                None => b.insert(crate_url(d.crate_name)),
            }
        } else {
            b
        }
    }
}

/// The text of `base` followed by `tail`.
fn concat2(base: &str, tail: &str) -> (r: String)
    ensures
        r@ == base@ + tail@,
{
    let mut r = String::from_str(base);
    r.append(tail);
    r
}

/// The crates.io API URL of a crate.
fn crate_url_of(name: &str) -> (r: String)
    ensures
        r@ == crate_url(name@),
{
    concat2("https://crates.io/api/v1/crates/", name)
}

/// The URLs of `urls` that `awaited` does not hold, in order.
fn without(urls: &Vec<String>, awaited: &Vec<String>) -> (r: Vec<String>)
    requires
        strictly_sorted(texts(urls@)),
    ensures
        strictly_sorted(texts(r@)),
        texts(r@).to_set() == texts(urls@).to_set().difference(texts(awaited@).to_set()),
{
    let mut out: Vec<String> = Vec::new();
    let n = urls.len();
    let mut i: usize = 0;
    assert(texts(out@).to_set() =~= texts(urls@).take(0).to_set().difference(texts(awaited@).to_set()));
    while i < n
        invariant
            n == urls@.len(),
            0 <= i <= n,
            strictly_sorted(texts(out@)),
            texts(out@).to_set() == texts(urls@).take(i as int).to_set().difference(texts(awaited@).to_set()),
        decreases n - i,
    {
        let ghost before = texts(out@).to_set();
        assert(texts(urls@).take(i + 1) =~= texts(urls@).take(i as int).push(urls@[i as int]@));
        assert(texts(urls@).take(i + 1).to_set() =~= texts(urls@).take(i as int).to_set().insert(urls@[i as int]@)) by {
            broadcast use vstd::seq_lib::group_seq_properties;
        }
        if !contains_text(awaited, urls[i].as_str()) {
            insert_sorted(&mut out, urls[i].clone());
            assert(texts(out@).to_set() =~= texts(urls@).take(i + 1).to_set().difference(texts(awaited@).to_set()));
        } else {
            assert(texts(out@).to_set() =~= texts(urls@).take(i + 1).to_set().difference(texts(awaited@).to_set()));
        }
        i = i + 1;
    }
    assert(texts(urls@).take(n as int) =~= texts(urls@));
    out
}

/// The crates.io URLs to warm for the registry dependencies of a manifest, given its
/// lockfile where one was read: the awaited ones, and the requested ones that are not
/// awaited; nothing where no feature asks.
pub fn prefetch_urls(dependencies: &Vec<RegistryDependency>, cargo_lock: Option<&CargoLock>, settings: PrefetchSettings) -> (r: PrefetchUrls)
    ensures
        strictly_sorted(texts(r.awaited@)),
        strictly_sorted(texts(r.background@)),
        ({
            let lock = match cargo_lock {
                Some(l) => Some(l.locked()),
                None => None,
            };
            let deps = dependency_views(dependencies@);
            if !settings.warm_hover && !settings.warm_versions && !settings.warm_feature_details
                && !settings.prioritize_inlay_hint {
                r.awaited@.len() == 0 && r.background@.len() == 0
            } else {
                &&& texts(r.awaited@).to_set() == awaited_urls(deps, lock, settings)
                &&& texts(r.background@).to_set() == requested_urls(deps, lock, settings).difference(
                    awaited_urls(deps, lock, settings),
                )
            }
        }),
{
    let ghost lock = match cargo_lock {
        Some(l) => Some(l.locked()),
        None => None,
    };
    let ghost deps = dependency_views(dependencies@);
    let mut awaited: Vec<String> = Vec::new();
    let mut requested: Vec<String> = Vec::new();
    if !settings.warm_hover && !settings.warm_versions && !settings.warm_feature_details && !settings.prioritize_inlay_hint {
        return PrefetchUrls { awaited, background: requested };
    }
    let n = dependencies.len();
    let mut i: usize = 0;
    assert(texts(awaited@).to_set() =~= Set::<Seq<char>>::empty());
    assert(texts(requested@).to_set() =~= Set::<Seq<char>>::empty());
    while i < n
        invariant
            n == dependencies@.len(),
            deps == dependency_views(dependencies@),
            lock == match cargo_lock {
                Some(l) => Some(l.locked()),
                None => None,
            },
            0 <= i <= n,
            strictly_sorted(texts(awaited@)),
            strictly_sorted(texts(requested@)),
            texts(awaited@).to_set() == awaited_urls(deps.take(i as int), lock, settings),
            texts(requested@).to_set() == requested_urls(deps.take(i as int), lock, settings),
        decreases n - i,
    {
        assert(deps.take(i + 1).drop_last() =~= deps.take(i as int));
        assert(deps.take(i + 1).last() == dependencies@[i as int].view_dependency());
        let d = &dependencies[i];
        let name = d.crate_name.as_str();
        if settings.warm_hover {
            insert_sorted(&mut requested, crate_url_of(name));
        }
        if settings.warm_versions {
            let base = crate_url_of(name);
            insert_sorted(&mut requested, concat2(base.as_str(), "/versions"));
        }
        let resolved = match &d.version_requirement {
            None => None,
            Some(req) => {
                let exact = exact_crates_io_version(req.as_str());
                match exact {
                    Some(v) => Some(v),
                    None => match cargo_lock {
                        Some(l) => l.resolve_dependency_version(name, req.as_str()),
                        None => None,
                    },
                }
            },
        };
        assert(opt_text(resolved) == prefetch_version(d.view_dependency(), lock));
        if settings.prioritize_inlay_hint && d.default_features_hint {
            match &resolved {
                Some(v) => {
                    let base = concat2(crate_url_of(name).as_str(), "/");
                    insert_sorted(&mut awaited, concat2(base.as_str(), v.as_str()));
                },
                None => {},
            }
        }
        if settings.warm_feature_details {
            match &resolved {
                Some(v) => {
                    let base = concat2(crate_url_of(name).as_str(), "/");
                    insert_sorted(&mut requested, concat2(base.as_str(), v.as_str()));
                },
                None => {
                    insert_sorted(&mut requested, crate_url_of(name));
                },
            }
        }
        assert(texts(awaited@).to_set() =~= awaited_urls(deps.take(i + 1), lock, settings));
        assert(texts(requested@).to_set() =~= requested_urls(deps.take(i + 1), lock, settings));
        i = i + 1;
    }
    assert(deps.take(n as int) =~= deps);
    let background = without(&requested, &awaited);
    PrefetchUrls { awaited, background }
}


/// What the features of the Cargo extension say of the work that opening a manifest
/// warms: each switch as the configuration reads it.
#[derive(Debug, Clone, Copy)]
pub struct CargoPrefetchFeatures {
    /// The extension is on.
    pub enabled: bool,
    pub dependency_detail_hover: bool,
    pub dependency_version_completion: bool,
    pub dependency_feature_completion: bool,
    pub default_features_inlay_hint: bool,
}

/// What to warm, by the features: everything where no features are configured; else
/// hovers ask for crates, version completion for versions, feature completion or
/// default-features hints for version details, and default-features hints are waited for.
pub open spec fn prefetch_settings_of(features: Option<CargoPrefetchFeatures>) -> PrefetchSettings {
    match features {
        None => PrefetchSettings {
            warm_hover: true,
            warm_versions: true,
            warm_feature_details: true,
            prioritize_inlay_hint: true,
        },
        Some(f) => PrefetchSettings {
            warm_hover: f.dependency_detail_hover,
            warm_versions: f.dependency_version_completion,
            warm_feature_details: f.dependency_feature_completion || f.default_features_inlay_hint,
            prioritize_inlay_hint: f.default_features_inlay_hint,
        },
    }
}

/// What to warm, by the features; see `prefetch_settings_of`.
pub fn prefetch_settings(features: Option<&CargoPrefetchFeatures>) -> (r: PrefetchSettings)
    ensures
        r == prefetch_settings_of(
            match features {
                Some(f) => Some(*f),
                None => None,
            },
        ),
{
    match features {
        None => PrefetchSettings {
            warm_hover: true,
            warm_versions: true,
            warm_feature_details: true,
            prioritize_inlay_hint: true,
        },
        Some(f) => PrefetchSettings {
            warm_hover: f.dependency_detail_hover,
            warm_versions: f.dependency_version_completion,
            warm_feature_details: f.dependency_feature_completion || f.default_features_inlay_hint,
            prioritize_inlay_hint: f.default_features_inlay_hint,
        },
    }
}

/// Whether opening the document at `path` warms the crates.io cache: only for a
/// `Cargo.toml`, with the extension on (or not configured), neither offline nor with the
/// cache switched off.
pub open spec fn did_open_warms_of(path: Seq<char>, features: Option<CargoPrefetchFeatures>, offline: bool, no_cache: Option<bool>) -> bool {
    &&& crate::text::ends_with_text(path, "Cargo.toml"@)
    &&& match features {
        Some(f) => f.enabled,
        None => true,
    }
    &&& !offline
    &&& no_cache != Some(true)
}

/// Whether opening the document at `path` warms the crates.io cache; see
/// `did_open_warms_of`.
pub fn did_open_warms(path: &str, features: Option<&CargoPrefetchFeatures>, offline: bool, no_cache: Option<bool>) -> (r: bool)
    ensures
        r == did_open_warms_of(
            path@,
            match features {
                Some(f) => Some(*f),
                None => None,
            },
            offline,
            no_cache,
        ),
{
    if !crate::text::ends_with(path, "Cargo.toml") {
        return false;
    }
    let enabled = match features {
        Some(f) => f.enabled,
        None => true,
    };
    enabled && !offline && no_cache != Some(true)
}

} // verus!
