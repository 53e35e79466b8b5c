//! The document links of feature names in a `Cargo.toml`: the strings of the arrays of
//! `[features]`, and the `features` of dependency entries, each linked to where the feature
//! (or optional dependency) is declared.
//!
//! The caller finds and reads the manifests of dependencies: it hands them over, each with
//! the keys of the dependency entry that leads to it.

use vstd::prelude::*;
use vstd::string::StringExecFns;

use crate::accessor::Accessor;
use crate::cargo_document_link::{cargo_toml_document_link_enabled, DocumentLinkFeatures, DocumentLinkToolTip};
use crate::dependency_link::{
    cargo_toml_on, features_view, inside_quotes, line_number, line_of, links_view, unquoted_range, DocumentLink,
    LinkTarget, LinkView, TargetView,
};
use crate::document::{dig, dig_keys, key_views, table_get, Key, Range, Value};
use crate::feature_navigation::{
    dependency_kinds, feature_ref_of, is_key_path, local_feature_key, parse_cargo_feature_ref,
    resolution_of, resolve_feature_table_string, CargoFeatureRef, FeatureResolution,
    ResolutionView,
};
use crate::text::str_eq;

verus! {

/// The manifest of a dependency as the caller found it: the keys of the dependency's entry
/// (such as `dependencies`, `serde`), the manifest's path and its document.
pub struct DependencyManifest {
    pub entry: Vec<String>,
    pub path: String,
    pub document: Value,
}

/// The keys of a string list.
pub open spec fn string_views(s: Seq<String>) -> Seq<Seq<char>> {
    s.map_values(|x: String| x@)
}

/// The manifest of the first of `manifests` whose entry has the keys `entry`: its path and
/// document.
pub open spec fn manifest_for(manifests: Seq<DependencyManifest>, entry: Seq<Seq<char>>) -> Option<(Seq<char>, Value)>
    decreases manifests.len(),
{
    if manifests.len() == 0 {
        None
    } else if string_views(manifests[0].entry@) == entry {
        Some((manifests[0].path@, manifests[0].document))
    } else {
        manifest_for(manifests.drop_first(), entry)
    }
}

/// The link of a feature name to its key in `[features]` of the manifest `target`, where
/// that manifest declares it; the link covers the text of the string at `range`.
pub open spec fn feature_key_link(name: Seq<char>, range: Range, target: Option<(Seq<char>, Value)>) -> Seq<LinkView> {
    match target {
        Some((path, document)) => match local_feature_key(document, name) {
            Some(key) => seq![
                (TargetView::ManifestLine(path, line_number(key.range.start)), inside_quotes(range), DocumentLinkToolTip::CargoToml),
            ],
            None => Seq::empty(),
        },
        None => Seq::empty(),
    }
}

/// Where a string of an array of `[features]` of the manifest at `path` leads (see
/// `resolution_of`): a feature or optional dependency of this package, or a feature that
/// the manifest of the named dependency declares.
pub open spec fn feature_string_target(
    document: Value,
    path: Seq<char>,
    manifests: Seq<DependencyManifest>,
    s: Seq<char>,
) -> Option<TargetView> {
    match resolution_of(document, s) {
        Some(ResolutionView::LocalFeature(range, _)) => Some(TargetView::ManifestLine(path, line_number(range.start))),
        Some(ResolutionView::OptionalDependency(range, _)) => Some(
            TargetView::ManifestLine(path, line_number(range.start)),
        ),
        Some(ResolutionView::DependencyFeature(entry, feature)) => match manifest_for(manifests, entry) {
            Some((dependency_path, dependency_document)) => match local_feature_key(dependency_document, feature) {
                Some(key) => Some(TargetView::ManifestLine(dependency_path, line_number(key.range.start))),
                None => None,
            },
            None => None,
        },
        None => None,
    }
}

/// The links of the strings among the items of an array of `[features]`; a `dep:` string
/// has none.
pub open spec fn feature_item_links(
    items: Seq<Value>,
    document: Value,
    path: Seq<char>,
    manifests: Seq<DependencyManifest>,
) -> Seq<LinkView>
    decreases items.len(),
{
    if items.len() == 0 {
        Seq::empty()
    } else {
        feature_item_links(items.drop_last(), document, path, manifests) + feature_item_link(
            items.last(),
            document,
            path,
            manifests,
        )
    }
}

/// The link of an item of an array of `[features]`: a string that is no `dep:` string has
/// one where it leads somewhere.
pub open spec fn feature_item_link(
    item: Value,
    document: Value,
    path: Seq<char>,
    manifests: Seq<DependencyManifest>,
) -> Seq<LinkView> {
    match item {
        Value::String { value, range } => if feature_ref_of(value@) is OptionalDependency {
            Seq::empty()
        } else {
            match feature_string_target(document, path, manifests, value@) {
                Some(t) => seq![(t, inside_quotes(range), DocumentLinkToolTip::CargoToml)],
                None => Seq::empty(),
            }
        },
        _ => Seq::empty(),
    }
}

/// The links of the strings of the arrays among the entries of `[features]`.
pub open spec fn feature_table_links(
    entries: Seq<(Key, Value)>,
    document: Value,
    path: Seq<char>,
    manifests: Seq<DependencyManifest>,
) -> Seq<LinkView>
    decreases entries.len(),
{
    if entries.len() == 0 {
        Seq::empty()
    } else {
        feature_table_links(entries.drop_last(), document, path, manifests) + match entries.last().1 {
            Value::Array { values, .. } => feature_item_links(values@, document, path, manifests),
            _ => Seq::empty(),
        }
    }
}

/// The links of the strings of `[features]` of the manifest at `path`, where links to
/// manifests are on.
pub open spec fn feature_table_string_links(
    document: Value,
    path: Seq<char>,
    manifests: Seq<DependencyManifest>,
    f: Option<DocumentLinkFeatures>,
) -> Seq<LinkView> {
    if cargo_toml_on(f) {
        match dig(document, seq!["features"@]) {
            Some((_, Value::Table { entries, .. })) => feature_table_links(entries@, document, path, manifests),
            _ => Seq::empty(),
        }
    } else {
        Seq::empty()
    }
}

/// The links of the strings among the items of a dependency's `features`, to the features
/// that the dependency's manifest `target` declares.
pub open spec fn dependency_feature_item_links(items: Seq<Value>, target: Option<(Seq<char>, Value)>) -> Seq<LinkView>
    decreases items.len(),
{
    if items.len() == 0 {
        Seq::empty()
    } else {
        dependency_feature_item_links(items.drop_last(), target) + match items.last() {
            Value::String { value, range } => feature_key_link(value@, range, target),
            _ => Seq::empty(),
        }
    }
}

/// The links of the `features` of a dependency entry whose manifest is `target`.
pub open spec fn entry_feature_links(value: Value, target: Option<(Seq<char>, Value)>) -> Seq<LinkView> {
    match value {
        Value::Table { .. } => match table_get(value, "features"@) {
            Some(Value::Array { values, .. }) => dependency_feature_item_links(values@, target),
            _ => Seq::empty(),
        },
        _ => Seq::empty(),
    }
}

/// The links of the `features` of the entries of a dependency table, whose entries are
/// reached through the keys `prefix` and then their own key.
pub open spec fn table_feature_links(
    entries: Seq<(Key, Value)>,
    prefix: Seq<Seq<char>>,
    manifests: Seq<DependencyManifest>,
) -> Seq<LinkView>
    decreases entries.len(),
{
    if entries.len() == 0 {
        Seq::empty()
    } else {
        table_feature_links(entries.drop_last(), prefix, manifests) + entry_feature_links(
            entries.last().1,
            manifest_for(manifests, prefix.push(entries.last().0.value@)),
        )
    }
}

/// The links of the `features` of the dependency tables `kinds` of `table`, which is
/// reached through the keys `prefix`.
pub open spec fn kinds_feature_links(
    table: Value,
    kinds: Seq<Seq<char>>,
    prefix: Seq<Seq<char>>,
    manifests: Seq<DependencyManifest>,
) -> Seq<LinkView>
    decreases kinds.len(),
{
    if kinds.len() == 0 {
        Seq::empty()
    } else {
        kinds_feature_links(table, kinds.drop_last(), prefix, manifests) + match table_get(table, kinds.last()) {
            Some(Value::Table { entries, .. }) => table_feature_links(entries@, prefix.push(kinds.last()), manifests),
            _ => Seq::empty(),
        }
    }
}

/// The links of the `features` of the dependency tables of the platforms of `[target]`.
pub open spec fn platforms_feature_links(platforms: Seq<(Key, Value)>, manifests: Seq<DependencyManifest>) -> Seq<
    LinkView,
>
    decreases platforms.len(),
{
    if platforms.len() == 0 {
        Seq::empty()
    } else {
        platforms_feature_links(platforms.drop_last(), manifests) + match platforms.last().1 {
            Value::Table { .. } => kinds_feature_links(
                platforms.last().1,
                dependency_kinds(),
                seq!["target"@, platforms.last().0.value@],
                manifests,
            ),
            _ => Seq::empty(),
        }
    }
}

/// The links of the `features` of a package's dependencies, where links to manifests are
/// on: those of its dependency tables, then those of the platforms of `[target]`.
pub open spec fn crate_dependency_feature_links(
    document: Value,
    manifests: Seq<DependencyManifest>,
    f: Option<DocumentLinkFeatures>,
) -> Seq<LinkView> {
    if cargo_toml_on(f) {
        kinds_feature_links(document, dependency_kinds(), Seq::empty(), manifests) + match table_get(
            document,
            "target"@,
        ) {
            Some(Value::Table { entries, .. }) => platforms_feature_links(entries@, manifests),
            _ => Seq::empty(),
        }
    } else {
        Seq::empty()
    }
}

/// The links of the `features` of the entries of `[workspace.dependencies]`, where links to
/// manifests are on.
pub open spec fn workspace_dependency_feature_links(
    document: Value,
    manifests: Seq<DependencyManifest>,
    f: Option<DocumentLinkFeatures>,
) -> Seq<LinkView> {
    if cargo_toml_on(f) {
        match dig(document, seq!["workspace"@, "dependencies"@]) {
            Some((_, Value::Table { entries, .. })) => table_feature_links(
                entries@,
                seq!["workspace"@, "dependencies"@],
                manifests,
            ),
            _ => Seq::empty(),
        }
    } else {
        Seq::empty()
    }
}

/// Whether a list of keys is `keys`.
fn same_keys(entry: &[String], keys: &[&str]) -> (r: bool)
    ensures
        r == (string_views(entry@) == key_views(keys@)),
{
    if entry.len() != keys.len() {
        assert(string_views(entry@).len() != key_views(keys@).len());
        return false;
    }
    let n = entry.len();
    let mut i: usize = 0;
    while i < n
        invariant
            n == entry@.len(),
            n == keys@.len(),
            0 <= i <= n,
            forall|j: int| 0 <= j < i ==> entry@[j]@ == keys@[j]@,
        decreases n - i,
    {
        if !str_eq(entry[i].as_str(), keys[i]) {
            assert(string_views(entry@)[i as int] != key_views(keys@)[i as int]);
            return false;
        }
        i = i + 1;
    }
    assert(string_views(entry@) =~= key_views(keys@));
    true
}

/// The first of `manifests` whose entry has the keys `keys`; see `manifest_for`.
pub(crate) fn find_manifest<'a>(manifests: &'a [DependencyManifest], keys: &[&str]) -> (r: Option<&'a DependencyManifest>)
    ensures
        match manifest_for(manifests@, key_views(keys@)) {
            Some((path, document)) => r matches Some(m) && m.path@ == path && m.document == document,
            None => r is None,
        },
{
    let ghost k = key_views(keys@);
    let n = manifests.len();
    let mut i: usize = 0;
    assert(manifests@.skip(0) =~= manifests@);
    while i < n
        invariant
            n == manifests@.len(),
            k == key_views(keys@),
            0 <= i <= n,
            manifest_for(manifests@, k) == manifest_for(manifests@.skip(i as int), k),
        decreases n - i,
    {
        let ghost rest = manifests@.skip(i as int);
        assert(rest[0] == manifests@[i as int]);
        assert(rest.drop_first() =~= manifests@.skip(i + 1));
        if same_keys(manifests[i].entry.as_slice(), keys) {
            return Some(&manifests[i]);
        }
        i = i + 1;
    }
    assert(manifests@.skip(n as int).len() == 0);
    None
}

/// The manifest as path and document.
pub open spec fn manifest_view(m: Option<&DependencyManifest>) -> Option<(Seq<char>, Value)> {
    match m {
        Some(x) => Some((x.path@, x.document)),
        None => None,
    }
}

/// The link of a feature name to its key in `[features]` of `target`; see
/// `feature_key_link`.
fn push_feature_key_link(name: &str, range: Range, target: Option<&DependencyManifest>, out: &mut Vec<DocumentLink>)
    ensures
        links_view(final(out)@) == links_view(old(out)@) + feature_key_link(name@, range, manifest_view(target)),
{
    let ghost start = links_view(out@);
    match target {
        Some(m) => {
            match crate::feature_navigation::find_local_feature(&m.document, name) {
                Some(key_range) => {
                    out.push(
                        DocumentLink {
                            target: LinkTarget::ManifestLine { path: m.path.clone(), line: line_of(key_range.start) },
                            range: unquoted_range(range),
                            tooltip: DocumentLinkToolTip::CargoToml,
                        },
                    );
                },
                None => {},
            }
        },
        None => {},
    }
    assert(links_view(out@) =~= start + feature_key_link(name@, range, manifest_view(target)));
}

/// The links of the `features` of a dependency entry whose manifest is `target`.
fn push_entry_feature_links(value: &Value, target: Option<&DependencyManifest>, out: &mut Vec<DocumentLink>)
    ensures
        links_view(final(out)@) == links_view(old(out)@) + entry_feature_links(*value, manifest_view(target)),
{
    let ghost start = links_view(out@);
    let ghost t = manifest_view(target);
    match value {
        Value::Table { .. } => {},
        _ => {
            assert(links_view(out@) =~= start + entry_feature_links(*value, t));
            return;
        },
    }
    let items = match value.get("features") {
        Some(Value::Array { values, .. }) => values,
        _ => {
            assert(links_view(out@) =~= start + entry_feature_links(*value, t));
            return;
        },
    };
    let n = items.len();
    let mut i: usize = 0;
    assert(links_view(out@) =~= start + dependency_feature_item_links(items@.take(0), t));
    while i < n
        invariant
            n == items@.len(),
            0 <= i <= n,
            t == manifest_view(target),
            links_view(out@) == start + dependency_feature_item_links(items@.take(i as int), t),
        decreases n - i,
    {
        assert(items@.take(i + 1).drop_last() =~= items@.take(i as int));
        assert(items@.take(i + 1).last() == items@[i as int]);
        let ghost before = links_view(out@);
        match &items[i] {
            Value::String { value, range } => {
                push_feature_key_link(value.as_str(), *range, target, out);
            },
            _ => {},
        }
        assert(links_view(out@) =~= start + dependency_feature_item_links(items@.take(i + 1), t));
        i = i + 1;
    }
    assert(items@.take(n as int) =~= items@);
}

/// The links of the `features` of the entries of a dependency table reached through the
/// keys `prefix`; see `table_feature_links`.
fn push_table_feature_links(
    entries: &[(Key, Value)],
    prefix: &[&str],
    manifests: &[DependencyManifest],
    out: &mut Vec<DocumentLink>,
)
    ensures
        links_view(final(out)@) == links_view(old(out)@) + table_feature_links(entries@, key_views(prefix@), manifests@),
{
    let ghost start = links_view(out@);
    let ghost p = key_views(prefix@);
    let n = entries.len();
    let mut i: usize = 0;
    assert(links_view(out@) =~= start + table_feature_links(entries@.take(0), p, manifests@));
    while i < n
        invariant
            n == entries@.len(),
            p == key_views(prefix@),
            0 <= i <= n,
            links_view(out@) == start + table_feature_links(entries@.take(i as int), p, manifests@),
        decreases n - i,
    {
        assert(entries@.take(i + 1).drop_last() =~= entries@.take(i as int));
        assert(entries@.take(i + 1).last() == entries@[i as int]);
        let (key, value) = &entries[i];
        let mut keys: Vec<&str> = Vec::new();
        let m = prefix.len();
        let mut j: usize = 0;
        while j < m
            invariant
                m == prefix@.len(),
                0 <= j <= m,
                keys@ == prefix@.take(j as int),
            decreases m - j,
        {
            keys.push(prefix[j]);
            assert(prefix@.take(j + 1) =~= prefix@.take(j as int).push(prefix@[j as int]));
            j = j + 1;
        }
        assert(prefix@.take(m as int) =~= prefix@);
        keys.push(key.value.as_str());
        assert(key_views(keys@) =~= p.push(key.value@));
        let target = find_manifest(manifests, keys.as_slice());
        push_entry_feature_links(value, target, out);
        assert(links_view(out@) =~= start + table_feature_links(entries@.take(i + 1), p, manifests@));
        i = i + 1;
    }
    assert(entries@.take(n as int) =~= entries@);
}

/// The dependency tables of a package, in the order they are visited.
fn dependency_kind_names() -> (r: Vec<&'static str>)
    ensures
        key_views(r@) == dependency_kinds(),
{
    let r = vec!["dependencies", "dev-dependencies", "build-dependencies"];
    assert(key_views(r@) =~= dependency_kinds());
    r
}

/// The links of the `features` of the dependency tables of `table`, reached through the
/// keys `prefix`; see `kinds_feature_links`.
fn push_kinds_feature_links(
    table: &Value,
    prefix: &[&str],
    manifests: &[DependencyManifest],
    out: &mut Vec<DocumentLink>,
)
    ensures
        links_view(final(out)@) == links_view(old(out)@) + kinds_feature_links(
            *table,
            dependency_kinds(),
            key_views(prefix@),
            manifests@,
        ),
{
    let ghost start = links_view(out@);
    let ghost p = key_views(prefix@);
    let kinds = dependency_kind_names();
    let ghost ks = dependency_kinds();
    let n = kinds.len();
    let mut i: usize = 0;
    assert(links_view(out@) =~= start + kinds_feature_links(*table, ks.take(0), p, manifests@));
    while i < n
        invariant
            n == kinds@.len(),
            key_views(kinds@) == ks,
            ks == dependency_kinds(),
            p == key_views(prefix@),
            0 <= i <= n,
            links_view(out@) == start + kinds_feature_links(*table, ks.take(i as int), p, manifests@),
        decreases n - i,
    {
        assert(ks.take(i + 1).drop_last() =~= ks.take(i as int));
        assert(ks.take(i + 1).last() == kinds@[i as int]@);
        let kind = kinds[i];
        match table.get(kind) {
            Some(Value::Table { entries, .. }) => {
                let mut keys: Vec<&str> = Vec::new();
                let m = prefix.len();
                let mut j: usize = 0;
                while j < m
                    invariant
                        m == prefix@.len(),
                        0 <= j <= m,
                        keys@ == prefix@.take(j as int),
                    decreases m - j,
                {
                    keys.push(prefix[j]);
                    assert(prefix@.take(j + 1) =~= prefix@.take(j as int).push(prefix@[j as int]));
                    j = j + 1;
                }
                assert(prefix@.take(m as int) =~= prefix@);
                keys.push(kind);
                assert(key_views(keys@) =~= p.push(kind@));
                push_table_feature_links(entries.as_slice(), keys.as_slice(), manifests, out);
            },
            _ => {},
        }
        assert(links_view(out@) =~= start + kinds_feature_links(*table, ks.take(i + 1), p, manifests@));
        i = i + 1;
    }
    assert(ks.take(n as int) =~= ks);
}

/// The links of the `features` of a package's dependencies (see
/// `crate_dependency_feature_links`); `manifests` are the manifests of the dependencies
/// that the caller found.
pub fn document_link_for_crate_dependency_features(
    document: &Value,
    manifests: &[DependencyManifest],
    features: Option<&DocumentLinkFeatures>,
) -> (r: Vec<DocumentLink>)
    ensures
        links_view(r@) == crate_dependency_feature_links(*document, manifests@, features_view(features)),
{
    let mut out: Vec<DocumentLink> = Vec::new();
    if !cargo_toml_document_link_enabled(features) {
        assert(links_view(out@) =~= Seq::<LinkView>::empty());
        return out;
    }
    let empty: [&str; 0] = [];
    assert(key_views(empty@) =~= Seq::<Seq<char>>::empty());
    push_kinds_feature_links(document, &empty, manifests, &mut out);
    let ghost head = links_view(out@);
    let platforms = match document.get("target") {
        Some(Value::Table { entries, .. }) => entries,
        _ => {
            assert(links_view(out@) =~= head + Seq::<LinkView>::empty());
            return out;
        },
    };
    let n = platforms.len();
    let mut i: usize = 0;
    assert(links_view(out@) =~= head + platforms_feature_links(platforms@.take(0), manifests@));
    while i < n
        invariant
            n == platforms@.len(),
            0 <= i <= n,
            links_view(out@) == head + platforms_feature_links(platforms@.take(i as int), manifests@),
        decreases n - i,
    {
        assert(platforms@.take(i + 1).drop_last() =~= platforms@.take(i as int));
        assert(platforms@.take(i + 1).last() == platforms@[i as int]);
        let (platform_key, platform) = &platforms[i];
        match platform {
            Value::Table { .. } => {
                let prefix = ["target", platform_key.value.as_str()];
                assert(key_views(prefix@) =~= seq!["target"@, platform_key.value@]);
                push_kinds_feature_links(platform, &prefix, manifests, &mut out);
            },
            _ => {},
        }
        assert(links_view(out@) =~= head + platforms_feature_links(platforms@.take(i + 1), manifests@));
        i = i + 1;
    }
    assert(platforms@.take(n as int) =~= platforms@);
    out
}

/// The links of the `features` of the entries of `[workspace.dependencies]` (see
/// `workspace_dependency_feature_links`).
pub fn document_link_for_workspace_dependency_features(
    document: &Value,
    manifests: &[DependencyManifest],
    features: Option<&DocumentLinkFeatures>,
) -> (r: Vec<DocumentLink>)
    ensures
        links_view(r@) == workspace_dependency_feature_links(*document, manifests@, features_view(features)),
{
    let mut out: Vec<DocumentLink> = Vec::new();
    if !cargo_toml_document_link_enabled(features) {
        assert(links_view(out@) =~= Seq::<LinkView>::empty());
        return out;
    }
    let keys = ["workspace", "dependencies"];
    assert(key_views(keys@) =~= seq!["workspace"@, "dependencies"@]);
    match dig_keys(document, &keys) {
        Some((_, Value::Table { entries, .. })) => {
            push_table_feature_links(entries.as_slice(), &keys, manifests, &mut out);
        },
        _ => {
            assert(links_view(out@) =~= Seq::<LinkView>::empty());
        },
    }
    out
}

/// The keys of a path whose steps are all keys.
pub(crate) fn key_strings(entry: &[Accessor]) -> (r: Option<Vec<&str>>)
    ensures
        forall|keys: Seq<Seq<char>>| #[trigger] is_key_path(entry@, keys) ==> (r matches Some(k) && key_views(k@) == keys),
{
    let mut out: Vec<&str> = Vec::new();
    let n = entry.len();
    let mut i: usize = 0;
    while i < n
        invariant
            n == entry@.len(),
            0 <= i <= n,
            out@.len() == i,
            forall|j: int| 0 <= j < i ==> #[trigger] crate::accessor::is_key(entry@[j], out@[j]@),
        decreases n - i,
    {
        match &entry[i] {
            Accessor::Key(k) => out.push(k.as_str()),
            Accessor::Index(_) => {
                assert forall|keys: Seq<Seq<char>>| #[trigger] is_key_path(entry@, keys) implies false by {
                    assert(crate::accessor::is_key(entry@[i as int], keys[i as int]));
                }
                return None;
            },
        }
        i = i + 1;
    }
    assert forall|keys: Seq<Seq<char>>| #[trigger] is_key_path(entry@, keys) implies key_views(out@) == keys by {
        assert forall|j: int| 0 <= j < keys.len() implies key_views(out@)[j] == keys[j] by {
            assert(crate::accessor::is_key(entry@[j], keys[j]));
            assert(crate::accessor::is_key(entry@[j], out@[j]@));
        }
        assert(key_views(out@) =~= keys);
    }
    Some(out)
}

/// Where a string of an array of `[features]` leads; see `feature_string_target`.
fn feature_string_link_target(
    document: &Value,
    path: &str,
    manifests: &[DependencyManifest],
    s: &str,
) -> (r: Option<LinkTarget>)
    ensures
        match feature_string_target(*document, path@, manifests@, s@) {
            Some(t) => r matches Some(x) && crate::dependency_link::target_view(x) == t,
            None => r is None,
        },
{
    match resolve_feature_table_string(document, s) {
        Some(FeatureResolution::LocalFeature { range, .. }) => Some(
            LinkTarget::ManifestLine { path: String::from_str(path), line: line_of(range.start) },
        ),
        Some(FeatureResolution::OptionalDependency { range, .. }) => Some(
            LinkTarget::ManifestLine { path: String::from_str(path), line: line_of(range.start) },
        ),
        Some(FeatureResolution::DependencyFeature { entry, feature_name }) => {
            let ghost v = resolution_of(*document, s@);
            let keys = match key_strings(entry.as_slice()) {
                Some(k) => k,
                None => {
                    assert(v matches Some(ResolutionView::DependencyFeature(vp, _)) ==> is_key_path(entry@, vp));
                    return None;
                },
            };
            assert(v matches Some(ResolutionView::DependencyFeature(vp, _)) ==> key_views(keys@) == vp);
            match find_manifest(manifests, keys.as_slice()) {
                Some(m) => match crate::feature_navigation::find_local_feature(&m.document, feature_name.as_str()) {
                    Some(key_range) => Some(
                        LinkTarget::ManifestLine { path: m.path.clone(), line: line_of(key_range.start) },
                    ),
                    None => None,
                },
                None => None,
            }
        },
        None => None,
    }
}

/// The links of the strings among the items of an array of `[features]`; see
/// `feature_item_links`.
fn push_feature_item_links(
    items: &[Value],
    document: &Value,
    path: &str,
    manifests: &[DependencyManifest],
    out: &mut Vec<DocumentLink>,
)
    ensures
        links_view(final(out)@) == links_view(old(out)@) + feature_item_links(items@, *document, path@, manifests@),
{
    let ghost start = links_view(out@);
    let n = items.len();
    let mut i: usize = 0;
    assert(links_view(out@) =~= start + feature_item_links(items@.take(0), *document, path@, manifests@));
    while i < n
        invariant
            n == items@.len(),
            0 <= i <= n,
            links_view(out@) == start + feature_item_links(items@.take(i as int), *document, path@, manifests@),
        decreases n - i,
    {
        assert(items@.take(i + 1).drop_last() =~= items@.take(i as int));
        assert(items@.take(i + 1).last() == items@[i as int]);
        let ghost before = links_view(out@);
        let ghost added = feature_item_link(items@[i as int], *document, path@, manifests@);
        assert(feature_item_links(items@.take(i + 1), *document, path@, manifests@) == feature_item_links(
            items@.take(i as int),
            *document,
            path@,
            manifests@,
        ) + added);
        match &items[i] {
            Value::String { value, range } => {
                let reference = parse_cargo_feature_ref(value.as_str());
                let is_dep = match reference {
                    CargoFeatureRef::OptionalDependency(_) => true,
                    _ => false,
                };
                assert(is_dep == (feature_ref_of(value@) is OptionalDependency));
                if !is_dep {
                    match feature_string_link_target(document, path, manifests, value.as_str()) {
                        Some(target) => {
                            out.push(DocumentLink { target, range: unquoted_range(*range), tooltip: DocumentLinkToolTip::CargoToml });
                        },
                        None => {},
                    }
                }
                assert(links_view(out@) =~= before + added);
            },
            _ => {
                assert(links_view(out@) =~= before + added);
            },
        }
        assert(links_view(out@) =~= start + feature_item_links(items@.take(i + 1), *document, path@, manifests@));
        i = i + 1;
    }
    assert(items@.take(n as int) =~= items@);
}

/// The links of the strings of `[features]` of the manifest at `path` (see
/// `feature_table_string_links`); `manifests` are the manifests of the dependencies that
/// the caller found.
pub fn document_link_for_feature_table_strings(
    document: &Value,
    path: &str,
    manifests: &[DependencyManifest],
    features: Option<&DocumentLinkFeatures>,
) -> (r: Vec<DocumentLink>)
    ensures
        links_view(r@) == feature_table_string_links(*document, path@, manifests@, features_view(features)),
{
    let mut out: Vec<DocumentLink> = Vec::new();
    if !cargo_toml_document_link_enabled(features) {
        assert(links_view(out@) =~= Seq::<LinkView>::empty());
        return out;
    }
    let keys = ["features"];
    assert(key_views(keys@) =~= seq!["features"@]);
    let entries = match dig_keys(document, &keys) {
        Some((_, Value::Table { entries, .. })) => entries,
        _ => {
            assert(links_view(out@) =~= Seq::<LinkView>::empty());
            return out;
        },
    };
    let n = entries.len();
    let mut i: usize = 0;
    assert(links_view(out@) =~= feature_table_links(entries@.take(0), *document, path@, manifests@));
    while i < n
        invariant
            n == entries@.len(),
            0 <= i <= n,
            links_view(out@) == feature_table_links(entries@.take(i as int), *document, path@, manifests@),
        decreases n - i,
    {
        assert(entries@.take(i + 1).drop_last() =~= entries@.take(i as int));
        assert(entries@.take(i + 1).last() == entries@[i as int]);
        let ghost before = links_view(out@);
        match &entries[i].1 {
            Value::Array { values, .. } => {
                push_feature_item_links(values.as_slice(), document, path, manifests, &mut out);
            },
            _ => {},
        }
        assert(links_view(out@) =~= feature_table_links(entries@.take(i + 1), *document, path@, manifests@));
        i = i + 1;
    }
    assert(entries@.take(n as int) =~= entries@);
    out
}

} // verus!
