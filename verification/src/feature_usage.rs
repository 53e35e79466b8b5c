//! Where a feature, or an optional dependency, of a package is used: the feature strings of
//! the manifests of its workspace that resolve to it.
//!
//! The caller reads the manifests: for each one, its path, its document and the manifests
//! of its dependencies (see `DependencyManifest`).

use vstd::prelude::*;
use vstd::string::StringExecFns;

use crate::cargo_goto::{location_view, locations_view, DefinitionLocation, LocationView};
use crate::dependency_link::{inside_quotes, unquoted_range};
use crate::document::{dig, dig_keys, key_views, table_get, Key, Value};
use crate::feature_link::{find_manifest, key_strings, manifest_for, manifest_view, DependencyManifest};
use crate::feature_navigation::{
    dependency_entries, dependency_entries_of, entries_are, is_key_path, local_feature_key, resolution_of,
    resolve_feature_table_string, CargoFeatureUsageTarget, FeatureResolution, ResolutionView,
};
use crate::text::str_eq;

verus! {

/// What a feature string resolves to, as plain values: the manifest that declares it,
/// whether it is a feature (else an optional dependency), and its name.
pub type ResolvedView = (Seq<char>, bool, Seq<char>);

pub open spec fn usage_target_view(t: CargoFeatureUsageTarget) -> ResolvedView {
    match t {
        CargoFeatureUsageTarget::LocalFeature { cargo_toml_path, feature_name } => (
            cargo_toml_path@,
            true,
            feature_name@,
        ),
        CargoFeatureUsageTarget::OptionalDependency { cargo_toml_path, dep_key } => (cargo_toml_path@, false, dep_key@),
    }
}

/// What a string of an array of `[features]` of the manifest at `path` resolves to (see
/// `resolution_of`); a feature of a dependency resolves where the dependency's manifest
/// (among `manifests`) declares it.
pub open spec fn table_string_resolution(
    document: Value,
    path: Seq<char>,
    manifests: Seq<DependencyManifest>,
    s: Seq<char>,
) -> Option<ResolvedView> {
    match resolution_of(document, s) {
        Some(ResolutionView::LocalFeature(_, name)) => Some((path, true, name)),
        Some(ResolutionView::OptionalDependency(_, dep_key)) => Some((path, false, dep_key)),
        Some(ResolutionView::DependencyFeature(entry, feature)) => match manifest_for(manifests, entry) {
            Some((p, d)) => if local_feature_key(d, feature) is Some {
                Some((p, true, feature))
            } else {
                None
            },
            None => None,
        },
        None => None,
    }
}

/// The strings among the items of an array of `[features]` that resolve to `target`, as
/// places in the manifest at `path`.
pub open spec fn table_item_usages(
    items: Seq<Value>,
    document: Value,
    path: Seq<char>,
    manifests: Seq<DependencyManifest>,
    target: ResolvedView,
) -> Seq<LocationView>
    decreases items.len(),
{
    if items.len() == 0 {
        Seq::empty()
    } else {
        table_item_usages(items.drop_last(), document, path, manifests, target) + match items.last() {
            Value::String { value, range } => if table_string_resolution(document, path, manifests, value@) == Some(
                target,
            ) {
                seq![(path, inside_quotes(range))]
            } else {
                Seq::empty()
            },
            _ => Seq::empty(),
        }
    }
}

/// The strings of the arrays among the entries of `[features]` that resolve to `target`.
pub open spec fn table_usages(
    entries: Seq<(Key, Value)>,
    document: Value,
    path: Seq<char>,
    manifests: Seq<DependencyManifest>,
    target: ResolvedView,
) -> Seq<LocationView>
    decreases entries.len(),
{
    if entries.len() == 0 {
        Seq::empty()
    } else {
        table_usages(entries.drop_last(), document, path, manifests, target) + match entries.last().1 {
            Value::Array { values, .. } => table_item_usages(values@, document, path, manifests, target),
            _ => Seq::empty(),
        }
    }
}

/// The strings among the items of a dependency's `features` that name a feature that the
/// dependency's manifest `dependency` declares and that is `target`.
pub open spec fn entry_item_usages(
    items: Seq<Value>,
    path: Seq<char>,
    dependency: Option<(Seq<char>, Value)>,
    target: ResolvedView,
) -> Seq<LocationView>
    decreases items.len(),
{
    if items.len() == 0 {
        Seq::empty()
    } else {
        entry_item_usages(items.drop_last(), path, dependency, target) + match (items.last(), dependency) {
            (Value::String { value, range }, Some((p, d))) => if local_feature_key(d, value@) is Some && (
            p,
            true,
            value@,
        ) == target {
                seq![(path, inside_quotes(range))]
            } else {
                Seq::empty()
            },
            _ => Seq::empty(),
        }
    }
}

/// The feature strings of the dependency entries `entries` (each with the keys of its
/// entry) that resolve to `target`.
pub open spec fn entry_usages(
    entries: Seq<(Seq<Seq<char>>, Value)>,
    path: Seq<char>,
    manifests: Seq<DependencyManifest>,
    target: ResolvedView,
) -> Seq<LocationView>
    decreases entries.len(),
{
    if entries.len() == 0 {
        Seq::empty()
    } else {
        entry_usages(entries.drop_last(), path, manifests, target) + match entries.last().1 {
            Value::Table { .. } => match table_get(entries.last().1, "features"@) {
                Some(Value::Array { values, .. }) => entry_item_usages(
                    values@,
                    path,
                    manifest_for(manifests, entries.last().0),
                    target,
                ),
                _ => Seq::empty(),
            },
            _ => Seq::empty(),
        }
    }
}

/// The uses of `target` in the manifest at `path`: the strings of `[features]` that resolve
/// to it, then the `features` of its dependency entries that do.
pub open spec fn manifest_usages(
    document: Value,
    path: Seq<char>,
    manifests: Seq<DependencyManifest>,
    target: ResolvedView,
) -> Seq<LocationView> {
    let table = match dig(document, seq!["features"@]) {
        Some((_, Value::Table { entries, .. })) => table_usages(entries@, document, path, manifests, target),
        _ => Seq::empty(),
    };
    table + entry_usages(dependency_entries_of(document), path, manifests, target)
}

/// What a string of `[features]` resolves to; see `table_string_resolution`.
fn resolve_table_string(
    document: &Value,
    path: &str,
    manifests: &[DependencyManifest],
    s: &str,
) -> (r: Option<(String, bool, String)>)
    ensures
        match table_string_resolution(*document, path@, manifests@, s@) {
            Some(v) => r matches Some(x) && x.0@ == v.0 && x.1 == v.1 && x.2@ == v.2,
            None => r is None,
        },
{
    match resolve_feature_table_string(document, s) {
        Some(FeatureResolution::LocalFeature { feature_name, .. }) => Some((String::from_str(path), true, feature_name)),
        Some(FeatureResolution::OptionalDependency { dep_key, .. }) => Some((String::from_str(path), false, dep_key)),
        Some(FeatureResolution::DependencyFeature { entry, feature_name }) => {
            let ghost v = resolution_of(*document, s@);
            let keys = match key_strings(entry.as_slice()) {
                Some(k) => k,
                None => {
                    assert(v matches Some(ResolutionView::DependencyFeature(vp, _)) ==> is_key_path(entry@, vp));
                    return None;
                },
            };
            assert(v matches Some(ResolutionView::DependencyFeature(vp, _)) ==> key_views(keys@) == vp);
            match find_manifest(manifests, keys.as_slice()) {
                Some(m) => match crate::feature_navigation::find_local_feature(&m.document, feature_name.as_str()) {
                    Some(_) => Some((m.path.clone(), true, feature_name)),
                    None => None,
                },
                None => None,
            }
        },
        None => None,
    }
}

/// The target as owned parts.
fn target_parts(target: &CargoFeatureUsageTarget) -> (r: (&str, bool, &str))
    ensures
        (r.0@, r.1, r.2@) == usage_target_view(*target),
{
    match target {
        CargoFeatureUsageTarget::LocalFeature { cargo_toml_path, feature_name } => (
            cargo_toml_path.as_str(),
            true,
            feature_name.as_str(),
        ),
        CargoFeatureUsageTarget::OptionalDependency { cargo_toml_path, dep_key } => (
            cargo_toml_path.as_str(),
            false,
            dep_key.as_str(),
        ),
    }
}

/// Appends the uses of `target` among the items of an array of `[features]`.
fn push_table_item_usages(
    items: &[Value],
    document: &Value,
    path: &str,
    manifests: &[DependencyManifest],
    target: &CargoFeatureUsageTarget,
    out: &mut Vec<DefinitionLocation>,
)
    ensures
        locations_view(final(out)@) == locations_view(old(out)@) + table_item_usages(
            items@,
            *document,
            path@,
            manifests@,
            usage_target_view(*target),
        ),
{
    let ghost start = locations_view(out@);
    let ghost t = usage_target_view(*target);
    let (target_path, target_feature, target_name) = target_parts(target);
    let n = items.len();
    let mut i: usize = 0;
    assert(locations_view(out@) =~= start + table_item_usages(items@.take(0), *document, path@, manifests@, t));
    while i < n
        invariant
            n == items@.len(),
            0 <= i <= n,
            (target_path@, target_feature, target_name@) == t,
            locations_view(out@) == start + table_item_usages(items@.take(i as int), *document, path@, manifests@, t),
        decreases n - i,
    {
        assert(items@.take(i + 1).drop_last() =~= items@.take(i as int));
        assert(items@.take(i + 1).last() == items@[i as int]);
        let ghost before = locations_view(out@);
        match &items[i] {
            Value::String { value, range } => {
                match resolve_table_string(document, path, manifests, value.as_str()) {
                    Some((p, feature, name)) => {
                        if feature == target_feature && str_eq(p.as_str(), target_path) && str_eq(
                            name.as_str(),
                            target_name,
                        ) {
                            let l = DefinitionLocation { path: String::from_str(path), range: unquoted_range(*range) };
                            let ghost v = location_view(l);
                            out.push(l);
                            assert(locations_view(out@) =~= before.push(v));
                        }
                    },
                    None => {},
                }
            },
            _ => {},
        }
        assert(locations_view(out@) =~= start + table_item_usages(
            items@.take(i + 1),
            *document,
            path@,
            manifests@,
            t,
        ));
        i = i + 1;
    }
    assert(items@.take(n as int) =~= items@);
}

/// Appends the uses of `target` among the items of a dependency's `features`, whose
/// manifest is `dependency`.
fn push_entry_item_usages(
    items: &[Value],
    path: &str,
    dependency: Option<&DependencyManifest>,
    target: &CargoFeatureUsageTarget,
    out: &mut Vec<DefinitionLocation>,
)
    ensures
        locations_view(final(out)@) == locations_view(old(out)@) + entry_item_usages(
            items@,
            path@,
            manifest_view(dependency),
            usage_target_view(*target),
        ),
{
    let ghost start = locations_view(out@);
    let ghost t = usage_target_view(*target);
    let ghost d = manifest_view(dependency);
    let (target_path, target_feature, target_name) = target_parts(target);
    let n = items.len();
    let mut i: usize = 0;
    assert(locations_view(out@) =~= start + entry_item_usages(items@.take(0), path@, d, t));
    while i < n
        invariant
            n == items@.len(),
            0 <= i <= n,
            (target_path@, target_feature, target_name@) == t,
            d == manifest_view(dependency),
            locations_view(out@) == start + entry_item_usages(items@.take(i as int), path@, d, t),
        decreases n - i,
    {
        assert(items@.take(i + 1).drop_last() =~= items@.take(i as int));
        assert(items@.take(i + 1).last() == items@[i as int]);
        let ghost before = locations_view(out@);
        match (&items[i], dependency) {
            (Value::String { value, range }, Some(m)) => {
                if crate::feature_navigation::find_local_feature(&m.document, value.as_str()).is_some() && target_feature
                    && str_eq(m.path.as_str(), target_path) && str_eq(value.as_str(), target_name) {
                    let l = DefinitionLocation { path: String::from_str(path), range: unquoted_range(*range) };
                    let ghost v = location_view(l);
                    out.push(l);
                    assert(locations_view(out@) =~= before.push(v));
                }
            },
            _ => {},
        }
        assert(locations_view(out@) =~= start + entry_item_usages(items@.take(i + 1), path@, d, t));
        i = i + 1;
    }
    assert(items@.take(n as int) =~= items@);
}

/// The uses of `target` in the manifest at `path` (see `manifest_usages`); `manifests` are
/// the manifests of its dependencies that the caller found.
pub fn collect_feature_usage_locations_in_manifest(
    document: &Value,
    path: &str,
    manifests: &[DependencyManifest],
    target: &CargoFeatureUsageTarget,
) -> (r: Vec<DefinitionLocation>)
    ensures
        locations_view(r@) == manifest_usages(*document, path@, manifests@, usage_target_view(*target)),
{
    let ghost t = usage_target_view(*target);
    let mut out: Vec<DefinitionLocation> = Vec::new();
    let keys = ["features"];
    assert(key_views(keys@) =~= seq!["features"@]);
    match dig_keys(document, &keys) {
        Some((_, Value::Table { entries, .. })) => {
            let n = entries.len();
            let mut i: usize = 0;
            assert(locations_view(out@) =~= table_usages(entries@.take(0), *document, path@, manifests@, t));
            while i < n
                invariant
                    n == entries@.len(),
                    0 <= i <= n,
                    t == usage_target_view(*target),
                    locations_view(out@) == table_usages(entries@.take(i as int), *document, path@, manifests@, t),
                decreases n - i,
            {
                assert(entries@.take(i + 1).drop_last() =~= entries@.take(i as int));
                assert(entries@.take(i + 1).last() == entries@[i as int]);
                match &entries[i].1 {
                    Value::Array { values, .. } => {
                        push_table_item_usages(values.as_slice(), document, path, manifests, target, &mut out);
                    },
                    _ => {},
                }
                assert(locations_view(out@) =~= table_usages(entries@.take(i + 1), *document, path@, manifests@, t));
                i = i + 1;
            }
            assert(entries@.take(n as int) =~= entries@);
        },
        _ => {
            assert(locations_view(out@) =~= Seq::<LocationView>::empty());
        },
    }
    let ghost head = locations_view(out@);
    let entries = dependency_entries(document);
    let ghost all = dependency_entries_of(*document);
    let n = entries.len();
    let mut i: usize = 0;
    assert(locations_view(out@) =~= head + entry_usages(all.take(0), path@, manifests@, t));
    while i < n
        invariant
            n == entries@.len(),
            entries_are(entries@, all),
            all == dependency_entries_of(*document),
            0 <= i <= n,
            t == usage_target_view(*target),
            locations_view(out@) == head + entry_usages(all.take(i as int), path@, manifests@, t),
        decreases n - i,
    {
        assert(all.take(i + 1).drop_last() =~= all.take(i as int));
        assert(all.take(i + 1).last() == all[i as int]);
        assert(entries@.len() == all.len());
        assert(is_key_path(entries@[i as int].0@, all[i as int].0));
        assert(*entries@[i as int].1 == all[i as int].1);
        let (entry, value) = &entries[i];
        let ghost before = locations_view(out@);
        match value {
            Value::Table { .. } => match value.get("features") {
                Some(Value::Array { values, .. }) => {
                    let dependency = match key_strings(entry.as_slice()) {
                        Some(keys) => {
                            assert(key_views(keys@) == all[i as int].0);
                            find_manifest(manifests, keys.as_slice())
                        },
                        None => {
                            assert(false);
                            None
                        },
                    };
                    assert(manifest_view(dependency) == manifest_for(manifests@, all[i as int].0));
                    push_entry_item_usages(values.as_slice(), path, dependency, target, &mut out);
                },
                _ => {},
            },
            _ => {},
        }
        assert(locations_view(out@) =~= head + entry_usages(all.take(i + 1), path@, manifests@, t));
        i = i + 1;
    }
    assert(all.take(n as int) =~= all);
    out
}

/// A manifest of the workspace as the caller read it: its path, its document and the
/// manifests of its dependencies.
pub struct WorkspaceManifest {
    pub path: String,
    pub document: Value,
    pub dependencies: Vec<DependencyManifest>,
}

/// The uses of `target` in the manifests `manifests`, one manifest after another.
pub open spec fn workspace_usages(manifests: Seq<WorkspaceManifest>, target: ResolvedView) -> Seq<LocationView>
    decreases manifests.len(),
{
    if manifests.len() == 0 {
        Seq::empty()
    } else {
        workspace_usages(manifests.drop_last(), target) + manifest_usages(
            manifests.last().document,
            manifests.last().path@,
            manifests.last().dependencies@,
            target,
        )
    }
}

/// The places of `s` without repeats, each where it first occurs.
pub open spec fn first_occurrences(s: Seq<LocationView>) -> Seq<LocationView>
    decreases s.len(),
{
    if s.len() == 0 {
        Seq::empty()
    } else {
        let rest = first_occurrences(s.drop_last());
        if s.drop_last().contains(s.last()) {
            rest
        } else {
            rest.push(s.last())
        }
    }
}

/// The uses found are each place of `s` once: no place repeats, and a place is among them
/// exactly when `s` holds it.
pub proof fn lemma_usage_places_once(s: Seq<LocationView>)
    ensures
        forall|i: int, j: int|
            0 <= i < j < first_occurrences(s).len() ==> #[trigger] first_occurrences(s)[i]
                != #[trigger] first_occurrences(s)[j],
        forall|x: LocationView| #[trigger] first_occurrences(s).contains(x) <==> s.contains(x),
    decreases s.len(),
{
    lemma_first_occurrences(s);
    if s.len() > 0 {
        let init = s.drop_last();
        lemma_usage_places_once(init);
        let rest = first_occurrences(init);
        if !init.contains(s.last()) {
            assert forall|i: int, j: int|
                0 <= i < j < first_occurrences(s).len() implies #[trigger] first_occurrences(s)[i]
                != #[trigger] first_occurrences(s)[j] by {
                if j == rest.len() {
                    assert(first_occurrences(s)[j] == s.last());
                    assert(first_occurrences(s)[i] == rest[i]);
                    if rest[i] == s.last() {
                        assert(rest.contains(s.last()));
                    }
                } else {
                    assert(first_occurrences(s)[i] == rest[i]);
                    assert(first_occurrences(s)[j] == rest[j]);
                }
            }
        }
    }
}

/// `first_occurrences` keeps exactly the places of `s`.
proof fn lemma_first_occurrences(s: Seq<LocationView>)
    ensures
        forall|x: LocationView| #[trigger] first_occurrences(s).contains(x) <==> s.contains(x),
    decreases s.len(),
{
    if s.len() > 0 {
        let init = s.drop_last();
        lemma_first_occurrences(init);
        assert(s =~= init.push(s.last()));
        assert forall|x: LocationView| #[trigger] first_occurrences(s).contains(x) <==> s.contains(x) by {
            let rest = first_occurrences(init);
            if s.contains(x) {
                let i = choose|i: int| 0 <= i < s.len() && s[i] == x;
                if i < s.len() - 1 {
                    assert(init[i] == x);
                }
            }
            if init.contains(x) {
                let i = choose|i: int| 0 <= i < init.len() && init[i] == x;
                assert(s[i] == x);
            }
            if !init.contains(s.last()) {
                assert(rest.push(s.last()).last() == s.last());
                if rest.contains(x) {
                    let i = choose|i: int| 0 <= i < rest.len() && rest[i] == x;
                    assert(rest.push(s.last())[i] == x);
                }
                if rest.push(s.last()).contains(x) && x != s.last() {
                    let i = choose|i: int| 0 <= i < rest.len() + 1 && rest.push(s.last())[i] == x;
                    assert(rest[i] == x);
                }
            }
        }
    }
}

/// Whether `places` holds `place`.
fn holds_location(places: &Vec<DefinitionLocation>, place: &DefinitionLocation) -> (r: bool)
    ensures
        r == locations_view(places@).contains(location_view(*place)),
{
    let n = places.len();
    let mut i: usize = 0;
    while i < n
        invariant
            n == places@.len(),
            0 <= i <= n,
            forall|j: int| 0 <= j < i ==> locations_view(places@)[j] != location_view(*place),
        decreases n - i,
    {
        if places[i].range == place.range && str_eq(places[i].path.as_str(), place.path.as_str()) {
            assert(locations_view(places@)[i as int] == location_view(*place));
            return true;
        }
        i = i + 1;
    }
    false
}

/// Where `target` is used in the manifests of its workspace (see `manifest_usages`), each
/// place once, where it first occurs; the caller hands over the manifests in the order to
/// search them, the one at hand first.
pub fn collect_feature_usage_locations(manifests: &[WorkspaceManifest], target: &CargoFeatureUsageTarget) -> (r: Vec<
    DefinitionLocation,
>)
    ensures
        locations_view(r@) == first_occurrences(workspace_usages(manifests@, usage_target_view(*target))),
{
    let ghost t = usage_target_view(*target);
    let mut all: Vec<DefinitionLocation> = Vec::new();
    let n = manifests.len();
    let mut i: usize = 0;
    assert(locations_view(all@) =~= workspace_usages(manifests@.take(0), t));
    while i < n
        invariant
            n == manifests@.len(),
            0 <= i <= n,
            t == usage_target_view(*target),
            locations_view(all@) == workspace_usages(manifests@.take(i as int), t),
        decreases n - i,
    {
        assert(manifests@.take(i + 1).drop_last() =~= manifests@.take(i as int));
        assert(manifests@.take(i + 1).last() == manifests@[i as int]);
        let m = &manifests[i];
        let mut found = collect_feature_usage_locations_in_manifest(
            &m.document,
            m.path.as_str(),
            m.dependencies.as_slice(),
            target,
        );
        let ghost before = locations_view(all@);
        let ghost added = locations_view(found@);
        all.append(&mut found);
        assert(locations_view(all@) =~= before + added);
        i = i + 1;
    }
    assert(manifests@.take(n as int) =~= manifests@);
    let ghost every = locations_view(all@);
    let mut out: Vec<DefinitionLocation> = Vec::new();
    let m = all.len();
    let mut j: usize = 0;
    assert(locations_view(out@) =~= first_occurrences(every.take(0)));
    while j < m
        invariant
            m == all@.len(),
            every == locations_view(all@),
            0 <= j <= m,
            locations_view(out@) == first_occurrences(every.take(j as int)),
        decreases m - j,
    {
        assert(every.take(j + 1).drop_last() =~= every.take(j as int));
        assert(every.take(j + 1).last() == every[j as int]);
        proof {
            lemma_first_occurrences(every.take(j as int));
        }
        let ghost before = locations_view(out@);
        if !holds_location(&out, &all[j]) {
            let place = DefinitionLocation { path: all[j].path.clone(), range: all[j].range };
            assert(location_view(place) == every[j as int]);
            out.push(place);
            assert(locations_view(out@) =~= before.push(every[j as int]));
        }
        assert(locations_view(out@) =~= first_occurrences(every.take(j + 1)));
        j = j + 1;
    }
    assert(every.take(m as int) =~= every);
    out
}

} // verus!
