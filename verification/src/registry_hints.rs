//! Default-features hints of registry dependencies: the features that a crates.io crate
//! turns on by default and that the dependency entry does not list. The crate's feature
//! table comes from crates.io; this module says which crates to ask for, and what the
//! answers show.
use vstd::prelude::*;

use crate::cargo_lock::{exact_crates_io_version, requirement_text, resolutions, semver_normalized, sole_value, CargoLock, CargoLockPackage};
use crate::dependency_hints::{hint_features_view, hint_kind_on, hints_root_on, hints_view, HintView};
use crate::dependency_hints::{CargoInlayHintFeature, CargoInlayHintFeatures};
use crate::document::{dig_value, key_views, string_text, table_get, Key, Position, Range, Value};
use crate::inlay::{
    build_default_features_hint, collect_feature_names, default_features_disabled, default_features_label_text,
    default_features_tooltip_text, dependency_package_name, dependency_table_default_features_disabled,
    dependency_table_paths, dependency_table_paths_of, is_default_features_hint, missing_features, package_name_of,
    path_texts, sort_hints_by_position, stable_position_sort, string_items, visible_at, InlayHint,
};
use crate::order::{sorted, texts};
use crate::text::{ends_with, ends_with_text, to_owned};

verus! {

/// The crate and version requirement of a dependency entry whose default features come
/// from crates.io: a table with a `features` array that keeps default features on and has
/// no `path`; its own `version`, or, where it says `workspace = true`, the `version` of the
/// workspace entry of the same key, which must keep default features on and have no `path`
/// either. The crate is the entry's `package`, else its key.
pub open spec fn registry_requirement_of(key: Seq<char>, value: Value, workspace_document: Option<Value>) -> Option<
    (Seq<char>, Seq<char>),
> {
    if !(value is Table) || !(table_get(value, "features"@) matches Some(Value::Array { .. })) {
        None
    } else if default_features_disabled(value) || table_get(value, "path"@) is Some {
        None
    } else {
        match string_text(table_get(value, "version"@)) {
            Some(v) => Some((package_name_of(key, value), v)),
            None => if table_get(value, "workspace"@) matches Some(Value::Boolean { value: true, .. }) {
                match workspace_document {
                    Some(w) => match dig_value(w, seq!["workspace"@, "dependencies"@, key]) {
                        Some(e) => if e is Table && !default_features_disabled(e) && table_get(e, "path"@) is None {
                            match string_text(table_get(e, "version"@)) {
                                Some(v) => Some((package_name_of(key, e), v)),
                                None => None,
                            }
                        } else {
                            None
                        },
                        None => None,
                    },
                    None => None,
                }
            } else {
                None
            },
        }
    }
}

/// The crate and version requirement behind a registry dependency entry; see
/// `registry_requirement_of`. `workspace_document` is the workspace manifest, where the
/// caller found one.
pub fn registry_requirement(key: &str, value: &Value, workspace_document: Option<&Value>) -> (r: Option<
    (String, String),
>)
    ensures
        match r {
            Some((name, version)) => registry_requirement_of(key@, *value, opt_value(workspace_document)) == Some(
                (name@, version@),
            ),
            None => registry_requirement_of(key@, *value, opt_value(workspace_document)) is None,
        },
{
    match value {
        Value::Table { .. } => {},
        _ => return None,
    }
    match value.get("features") {
        Some(Value::Array { .. }) => {},
        _ => return None,
    }
    if dependency_table_default_features_disabled(value) || value.contains_key("path") {
        return None;
    }
    match value.get("version") {
        Some(Value::String { value: v, .. }) => {
            return Some((to_owned(dependency_package_name(key, value)), v.clone()));
        },
        _ => {},
    }
    match value.get("workspace") {
        Some(Value::Boolean { value: true, .. }) => {},
        _ => return None,
    }
    let w = match workspace_document {
        Some(w) => w,
        None => return None,
    };
    let keys = ["workspace", "dependencies", key];
    assert(key_views(keys@) =~= seq!["workspace"@, "dependencies"@, key@]);
    let entry = match crate::document::dig_keys(w, &keys) {
        Some((_, e)) => e,
        None => return None,
    };
    match entry {
        Value::Table { .. } => {},
        _ => return None,
    }
    if dependency_table_default_features_disabled(entry) || entry.contains_key("path") {
        return None;
    }
    match entry.get("version") {
        Some(Value::String { value: v, .. }) => Some((to_owned(dependency_package_name(key, entry)), v.clone())),
        _ => None,
    }
}

/// An optional reference taken by value.
pub open spec fn opt_value(v: Option<&Value>) -> Option<Value> {
    match v {
        Some(w) => Some(*w),
        None => None,
    }
}

/// What a default-features hint of a registry dependency asks crates.io for, and where
/// the hint goes.
#[derive(Debug, Clone)]
pub struct RegistryFeaturesRequest {
    /// The crate whose feature table is asked for.
    pub crate_name: String,
    /// The exact version whose feature table is asked for.
    pub version: String,
    /// The end of the entry's `features` array, where the hint goes.
    pub position: Position,
    /// The features that the entry lists.
    pub existing_features: Vec<String>,
}

/// A request as plain values: crate, version, position and listed features.
pub type RequestView = (Seq<char>, Seq<char>, Position, Seq<Seq<char>>);

pub open spec fn request_view(r: RegistryFeaturesRequest) -> RequestView {
    (r.crate_name@, r.version@, r.position, texts(r.existing_features@))
}

pub open spec fn requests_view(rs: Seq<RegistryFeaturesRequest>) -> Seq<RequestView> {
    rs.map_values(|r: RegistryFeaturesRequest| request_view(r))
}

/// The packages of a lockfile, where the caller has one.
pub open spec fn lock_view(lock: Option<&CargoLock>) -> Option<Seq<CargoLockPackage>> {
    match lock {
        Some(l) => Some(l.locked()),
        None => None,
    }
}

/// The exact version whose features a requirement stands for: the one it pins, else the
/// one version of the crate that the lockfile resolves its dependents to.
pub open spec fn registry_version_of(
    name: Seq<char>,
    requirement: Seq<char>,
    lock: Option<Seq<CargoLockPackage>>,
) -> Option<Seq<char>> {
    match semver_normalized(requirement_text(requirement)) {
        Some(v) => Some(v),
        None => match lock {
            Some(l) => sole_value(resolutions(l, name)),
            None => None,
        },
    }
}

/// The request that a dependency entry makes: its crate and requirement
/// (`registry_requirement_of`) with the version resolved (`registry_version_of`), the end
/// of its `features` array and the features it lists.
pub open spec fn registry_request_of(
    key: Seq<char>,
    value: Value,
    workspace_document: Option<Value>,
    lock: Option<Seq<CargoLockPackage>>,
) -> Option<RequestView> {
    match registry_requirement_of(key, value, workspace_document) {
        Some((name, requirement)) => match registry_version_of(name, requirement, lock) {
            Some(version) => match table_get(value, "features"@) {
                Some(Value::Array { values, range }) => Some((name, version, range.end, string_items(values@))),
                _ => None,
            },
            None => None,
        },
        None => None,
    }
}

/// The request that a dependency entry makes; see `registry_request_of`.
pub fn registry_request(
    key: &str,
    value: &Value,
    workspace_document: Option<&Value>,
    cargo_lock: Option<&CargoLock>,
) -> (r: Option<RegistryFeaturesRequest>)
    ensures
        match r {
            Some(q) => registry_request_of(key@, *value, opt_value(workspace_document), lock_view(cargo_lock)) == Some(
                request_view(q),
            ),
            None => registry_request_of(key@, *value, opt_value(workspace_document), lock_view(cargo_lock)) is None,
        },
{
    let (name, requirement) = match registry_requirement(key, value, workspace_document) {
        Some(p) => p,
        None => return None,
    };
    let resolved = match cargo_lock {
        Some(l) => l.resolve_dependency_version(name.as_str(), requirement.as_str()),
        None => exact_crates_io_version(requirement.as_str()),
    };
    let version = match resolved {
        Some(v) => v,
        None => return None,
    };
    let features = match value.get("features") {
        Some(f) => f,
        None => return None,
    };
    let position = match features {
        Value::Array { range, .. } => range.end,
        _ => return None,
    };
    let existing_features = collect_feature_names(features);
    Some(RegistryFeaturesRequest { crate_name: name, version, position, existing_features })
}

/// The requests that the entries of a dependency table make, in order, where the hint
/// would fall in the visible range.
pub open spec fn entries_requests(
    entries: Seq<(Key, Value)>,
    workspace_document: Option<Value>,
    lock: Option<Seq<CargoLockPackage>>,
    visible_range: Range,
) -> Seq<RequestView>
    decreases entries.len(),
{
    if entries.len() == 0 {
        Seq::empty()
    } else {
        let rest = entries_requests(entries.drop_last(), workspace_document, lock, visible_range);
        match registry_request_of(entries.last().0.value@, entries.last().1, workspace_document, lock) {
            Some(q) => if visible_at(q.2, visible_range) {
                rest.push(q)
            } else {
                rest
            },
            None => rest,
        }
    }
}

/// The requests of the dependency table at `path`, where there is such a table.
pub open spec fn table_requests(
    document: Value,
    path: Seq<Seq<char>>,
    workspace_document: Option<Value>,
    lock: Option<Seq<CargoLockPackage>>,
    visible_range: Range,
) -> Seq<RequestView> {
    match dig_value(document, path) {
        Some(Value::Table { entries, .. }) => entries_requests(entries@, workspace_document, lock, visible_range),
        _ => Seq::empty(),
    }
}

/// The requests of the dependency tables at `paths`, table after table.
pub open spec fn paths_requests(
    document: Value,
    paths: Seq<Seq<Seq<char>>>,
    workspace_document: Option<Value>,
    lock: Option<Seq<CargoLockPackage>>,
    visible_range: Range,
) -> Seq<RequestView>
    decreases paths.len(),
{
    if paths.len() == 0 {
        Seq::empty()
    } else {
        paths_requests(document, paths.drop_last(), workspace_document, lock, visible_range) + table_requests(
            document,
            paths.last(),
            workspace_document,
            lock,
            visible_range,
        )
    }
}

/// The crates.io requests of the visible default-features hints of registry
/// dependencies of a manifest: those of `[dependencies]`, `[dev-dependencies]`,
/// `[build-dependencies]`, `[workspace.dependencies]` and the dependency tables of each
/// `[target.*]`, in that order (see `dependency_table_paths_of`).
pub open spec fn registry_requests_of(
    document: Value,
    workspace_document: Option<Value>,
    lock: Option<Seq<CargoLockPackage>>,
    visible_range: Range,
) -> Seq<RequestView> {
    paths_requests(document, dependency_table_paths_of(document), workspace_document, lock, visible_range)
}

/// The requests of the entries of one dependency table; see `entries_requests`.
fn entries_registry_requests(
    entries: &Vec<(Key, Value)>,
    workspace_document: Option<&Value>,
    cargo_lock: Option<&CargoLock>,
    visible_range: Range,
    out: &mut Vec<RegistryFeaturesRequest>,
)
    ensures
        requests_view(final(out)@) == requests_view(old(out)@) + entries_requests(
            entries@,
            opt_value(workspace_document),
            lock_view(cargo_lock),
            visible_range,
        ),
{
    let ghost start = requests_view(out@);
    let n = entries.len();
    let mut i: usize = 0;
    assert(entries@.take(0) =~= Seq::<(Key, Value)>::empty());
    assert(requests_view(out@) =~= start + entries_requests(entries@.take(0), opt_value(workspace_document), lock_view(cargo_lock), visible_range));
    while i < n
        invariant
            n == entries@.len(),
            0 <= i <= n,
            requests_view(out@) == start + entries_requests(
                entries@.take(i as int),
                opt_value(workspace_document),
                lock_view(cargo_lock),
                visible_range,
            ),
        decreases n - i,
    {
        assert(entries@.take(i + 1).drop_last() =~= entries@.take(i as int));
        assert(entries@.take(i + 1).last() == entries@[i as int]);
        let (key, value) = &entries[i];
        match registry_request(key.value.as_str(), value, workspace_document, cargo_lock) {
            Some(q) => {
                let p = q.position;
                if Range::at(p).intersects(&visible_range) {
                    let ghost before = out@;
                    out.push(q);
                    assert(requests_view(out@) =~= requests_view(before).push(request_view(q)));
                }
            },
            None => {},
        }
        i = i + 1;
    }
    assert(entries@.take(n as int) =~= entries@);
}

/// The crates.io requests of the visible default-features hints of registry
/// dependencies; see `registry_requests_of`. `workspace_document` is the workspace
/// manifest and `cargo_lock` the lockfile, where the caller found them.
pub fn registry_default_features_requests(
    document: &Value,
    workspace_document: Option<&Value>,
    cargo_lock: Option<&CargoLock>,
    visible_range: Range,
) -> (r: Vec<RegistryFeaturesRequest>)
    ensures
        requests_view(r@) == registry_requests_of(*document, opt_value(workspace_document), lock_view(cargo_lock), visible_range),
{
    let paths = dependency_table_paths(document);
    let ghost ps = dependency_table_paths_of(*document);
    let mut out: Vec<RegistryFeaturesRequest> = Vec::new();
    let n = paths.len();
    let mut i: usize = 0;
    assert(ps.take(0) =~= Seq::<Seq<Seq<char>>>::empty());
    assert(requests_view(out@) =~= Seq::<RequestView>::empty());
    while i < n
        invariant
            n == paths@.len(),
            path_texts(paths@) == ps,
            ps == dependency_table_paths_of(*document),
            0 <= i <= n,
            requests_view(out@) == paths_requests(
                *document,
                ps.take(i as int),
                opt_value(workspace_document),
                lock_view(cargo_lock),
                visible_range,
            ),
        decreases n - i,
    {
        assert(ps.take(i + 1).drop_last() =~= ps.take(i as int));
        assert(ps.take(i + 1).last() == ps[i as int]);
        assert(ps[i as int] == texts(paths@[i as int]@));
        assert(paths@[i as int]@.map_values(|k: String| k@) =~= texts(paths@[i as int]@));
        match crate::document::dig_strings(document, &paths[i]) {
            Some((_, t)) => match t {
                Value::Table { entries, .. } => {
                    entries_registry_requests(entries, workspace_document, cargo_lock, visible_range, &mut out);
                },
                _ => {},
            },
            None => {},
        }
        i = i + 1;
    }
    assert(ps.take(n as int) =~= ps);
    out
}

/// Default features in order: the one arrangement of them that is sorted.
pub open spec fn ordered_features(defaults: Seq<Seq<char>>) -> Seq<Seq<char>> {
    choose|o: Seq<Seq<char>>| #![trigger sorted(o)] sorted(o) && o.to_multiset() == defaults.to_multiset()
}

/// The default-features hint at `position` for a crate with default features `defaults`
/// whose entry lists `existing`: the label names, in order, the defaults that the entry
/// does not list, the tooltip all of them; no hint where the entry lists them all.
pub open spec fn default_features_hint_view(
    position: Position,
    defaults: Seq<Seq<char>>,
    existing: Seq<Seq<char>>,
) -> Option<HintView> {
    let ordered = ordered_features(defaults);
    let missing = missing_features(ordered, existing);
    if missing.len() == 0 {
        None
    } else {
        Some((position, default_features_label_text(missing), default_features_tooltip_text(ordered)))
    }
}

/// A default-features hint is the one that `default_features_hint_view` names: defaults
/// in order are unique.
proof fn lemma_default_features_hint_view(
    h: Option<crate::inlay::DefaultFeaturesHint>,
    position: Position,
    defaults: Seq<Seq<char>>,
    existing: Seq<Seq<char>>,
)
    requires
        is_default_features_hint(h, position, defaults, existing),
    ensures
        match h {
            Some(x) => default_features_hint_view(position, defaults, existing) == Some(
                (x.position, x.label@, x.tooltip@),
            ),
            None => default_features_hint_view(position, defaults, existing) is None,
        },
{
    let o = choose|o: Seq<Seq<char>>|
        #![trigger sorted(o)]
        sorted(o) && o.to_multiset() == defaults.to_multiset() && {
            let missing = missing_features(o, existing);
            if missing.len() == 0 {
                h is None
            } else {
                h matches Some(x) && x.position == position && x.label@ == default_features_label_text(missing)
                    && x.tooltip@ == default_features_tooltip_text(o)
            }
        };
    let c = ordered_features(defaults);
    assert(sorted(c) && c.to_multiset() == defaults.to_multiset());
    crate::order::lemma_sorted_unique(o, c);
}

/// The hint that a request shows, given the default features that crates.io gave for it
/// (none where crates.io gave no `default` feature, or the request failed).
pub open spec fn fetched_hint_view(q: RequestView, defaults: Option<Seq<Seq<char>>>) -> Option<HintView> {
    match defaults {
        Some(d) => default_features_hint_view(q.2, d, q.3),
        None => None,
    }
}

pub open spec fn opt_texts(v: Option<Vec<String>>) -> Option<Seq<Seq<char>>> {
    match v {
        Some(d) => Some(texts(d@)),
        None => None,
    }
}

pub open spec fn opt_hint_view(h: Option<InlayHint>) -> Option<HintView> {
    match h {
        Some(x) => Some(crate::dependency_hints::hint_view(x)),
        None => None,
    }
}

/// The default-features hint of one request, given the `default` features that crates.io
/// lists for the crate at that version; see `fetched_hint_view`.
pub fn registry_default_features_hint(request: &RegistryFeaturesRequest, default_features: Option<Vec<String>>) -> (r:
    Option<InlayHint>)
    ensures
        opt_hint_view(r) == fetched_hint_view(request_view(*request), opt_texts(default_features)),
{
    let defaults = match default_features {
        Some(d) => d,
        None => return None,
    };
    let ghost d = texts(defaults@);
    let h = build_default_features_hint(request.position, defaults, &request.existing_features);
    proof {
        lemma_default_features_hint_view(h, request.position, d, texts(request.existing_features@));
    }
    match h {
        Some(x) => Some(InlayHint { position: x.position, label: x.label, tooltip: x.tooltip }),
        None => None,
    }
}

/// The hints of a list of requests, given what crates.io gave for each, in order.
pub open spec fn fetched_hints(requests: Seq<RequestView>, fetched: Seq<Option<Seq<Seq<char>>>>) -> Seq<HintView>
    decreases requests.len(),
{
    if requests.len() == 0 || fetched.len() == 0 {
        Seq::empty()
    } else {
        let rest = fetched_hints(requests.drop_last(), fetched.drop_last());
        match fetched_hint_view(requests.last(), fetched.last()) {
            Some(h) => rest.push(h),
            None => rest,
        }
    }
}

pub open spec fn fetched_view(fetched: Seq<Option<Vec<String>>>) -> Seq<Option<Seq<Seq<char>>>> {
    fetched.map_values(|d: Option<Vec<String>>| opt_texts(d))
}

/// The default-features hints of registry dependencies: `default_features[i]` is what
/// crates.io lists as the `default` features of the crate of `requests[i]`, where it
/// answered; see `fetched_hints`.
pub fn registry_default_features_inlay_hints(
    requests: &[RegistryFeaturesRequest],
    default_features: &[Option<Vec<String>>],
) -> (r: Vec<InlayHint>)
    requires
        requests@.len() == default_features@.len(),
    ensures
        hints_view(r@) == fetched_hints(requests_view(requests@), fetched_view(default_features@)),
{
    let ghost qs = requests_view(requests@);
    let ghost fs = fetched_view(default_features@);
    let mut out: Vec<InlayHint> = Vec::new();
    let n = requests.len();
    let mut k: usize = 0;
    assert(hints_view(out@) =~= fetched_hints(qs.take(0), fs.take(0)));
    while k < n
        invariant
            n == requests@.len(),
            qs == requests_view(requests@),
            fs == fetched_view(default_features@),
            0 <= k <= n,
            n == default_features@.len(),
            hints_view(out@) == fetched_hints(qs.take(k as int), fs.take(k as int)),
        decreases n - k,
    {
        assert(qs.take(k + 1).drop_last() =~= qs.take(k as int));
        assert(fs.take(k + 1).drop_last() =~= fs.take(k as int));
        assert(qs.take(k + 1).last() == request_view(requests@[k as int]));
        assert(fs.take(k + 1).last() == opt_texts(default_features@[k as int]));
        let d = match &default_features[k] {
            Some(v) => Some(crate::dependency_hints::copy_strings(v)),
            None => None,
        };
        match registry_default_features_hint(&requests[k], d) {
            Some(h) => {
                let ghost before = out@;
                out.push(h);
                assert(hints_view(out@) =~= hints_view(before).push(crate::dependency_hints::hint_view(h)));
            },
            None => {},
        }
        k = k + 1;
    }
    assert(qs.take(n as int) =~= qs);
    assert(fs.take(n as int) =~= fs);
    out
}

/// The hints of a list, or none.
pub open spec fn opt_hints(h: Option<Vec<InlayHint>>) -> Seq<InlayHint> {
    match h {
        Some(v) => v@,
        None => Seq::empty(),
    }
}

/// Whether a document is a Cargo manifest: its path ends with `Cargo.toml`.
pub open spec fn is_cargo_toml_path_of(path: Seq<char>) -> bool {
    ends_with_text(path, "Cargo.toml"@)
}

/// Whether a document is a Cargo manifest; see `is_cargo_toml_path_of`.
pub fn is_cargo_toml_path(path: &str) -> (r: bool)
    ensures
        r == is_cargo_toml_path_of(path@),
{
    ends_with(path, "Cargo.toml")
}

/// The inlay hints of the document at `path`: none where it is no `Cargo.toml` or where its
/// inlay hints are off; else those of the manifest and, where default-features hints are
/// on, those of its registry dependencies, all ordered by position (hints at one position
/// keep their order); none where there are none.
pub open spec fn cargo_inlay_hints_of(
    path: Seq<char>,
    manifest_hints: Seq<InlayHint>,
    registry_hints: Seq<InlayHint>,
    features: Option<CargoInlayHintFeatures>,
) -> Option<Seq<InlayHint>> {
    if !is_cargo_toml_path_of(path) || !hints_root_on(features) {
        None
    } else {
        let all = manifest_hints + if hint_kind_on(features, CargoInlayHintFeature::DefaultFeatures) {
            registry_hints
        } else {
            Seq::empty()
        };
        if all.len() == 0 {
            None
        } else {
            Some(stable_position_sort(all))
        }
    }
}

/// The inlay hints of the document at `path` (see `cargo_inlay_hints_of`): `manifest_hints`
/// is what `inlay_hint_impl` gave, `registry_hints` what
/// `registry_default_features_inlay_hints` gave.
pub fn inlay_hint(
    path: &str,
    manifest_hints: Option<Vec<InlayHint>>,
    registry_hints: Vec<InlayHint>,
    features: Option<&CargoInlayHintFeatures>,
) -> (r: Option<Vec<InlayHint>>)
    ensures
        match r {
            Some(h) => cargo_inlay_hints_of(path@, opt_hints(manifest_hints), registry_hints@, hint_features_view(features))
                == Some(h@),
            None => cargo_inlay_hints_of(path@, opt_hints(manifest_hints), registry_hints@, hint_features_view(features))
                is None,
        },
        r matches Some(h) ==> forall|i: int, j: int|
            0 <= i < j < h@.len() ==> !crate::inlay::position_lt(#[trigger] h@[j].position, #[trigger] h@[i].position),
        r matches Some(h) ==> h@.to_multiset() == opt_hints(manifest_hints).to_multiset().add(
            if hint_kind_on(hint_features_view(features), CargoInlayHintFeature::DefaultFeatures) {
                registry_hints@.to_multiset()
            } else {
                vstd::multiset::Multiset::empty()
            },
        ),
{
    if !is_cargo_toml_path(path) || !crate::dependency_hints::cargo_inlay_hint_root_enabled(features) {
        return None;
    }
    let ghost m = opt_hints(manifest_hints);
    let mut hints = match manifest_hints {
        Some(h) => h,
        None => Vec::new(),
    };
    assert(hints@ == m);
    if crate::dependency_hints::cargo_inlay_hint_enabled(features, CargoInlayHintFeature::DefaultFeatures) {
        let mut extra = registry_hints;
        hints.append(&mut extra);
        proof {
            vstd::seq_lib::lemma_multiset_commutative(m, registry_hints@);
        }
    } else {
        assert(hints@ =~= m + Seq::<InlayHint>::empty());
    }
    if hints.len() == 0 {
        None
    } else {
        Some(sort_hints_by_position(hints))
    }
}

} // verus!
