//! The inlay hints of one dependency table of a `Cargo.toml`: after each visible version,
//! the version that `Cargo.lock` (or else a local manifest) resolves; after each visible
//! `features` array, the default features that the dependency brings in and the array
//! does not name.
//!
//! The caller reads the files: the lockfile data, the package's own name and version, the
//! members of the workspace, and what the local manifests of the dependencies say.

use vstd::prelude::*;
use vstd::string::StringExecFns;

use crate::cargo_lock::opt_text;
use crate::document::{Key, Position, Range, Value};
use crate::document::{dig, dig_value, key_views, string_text, table_entry, table_get};
use crate::inlay::{
    default_features_disabled, default_features_hint_of, dependency_table_paths, dependency_table_paths_of, hint_text, is_workspace_dependencies,
    lock_resolved_version, members_view, sort_hints_by_position, stable_position_sort, version_inlay_hint, visible_at,
    visible_version_hints, visible_version_hints_of, workspace_lock_version, workspace_value_hint_label,
    workspace_value_targets, workspace_value_targets_of, CurrentPackage, DefaultFeaturesHint, DependencyVersionHint,
    InlayHint, LocalVersionSource, VersionHintView, WorkspaceMemberPackage, LOCAL_PATH_VERSION_TOOLTIP, RESOLVED_VERSION_TOOLTIP,
    WORKSPACE_INHERITED_VALUE_TOOLTIP,
};
use crate::lock_cache::{cache_resolution, CargoLockInlayCacheData};
use crate::order::texts;

verus! {

/// An inlay hint as plain values: its position, label and tooltip.
pub type HintView = (Position, Seq<char>, Seq<char>);

pub open spec fn hint_view(h: InlayHint) -> HintView {
    (h.position, h.label@, h.tooltip@)
}

pub open spec fn hints_view(hints: Seq<InlayHint>) -> Seq<HintView> {
    hints.map_values(|h: InlayHint| hint_view(h))
}

/// The hint of a version hint, given the version that the lockfile resolves and the one
/// read from a local manifest: the lockfile's first; none where neither is known, or where
/// the written version already is the resolved one and the hint is not always shown.
pub open spec fn version_hint_result(h: VersionHintView, lock: Option<Seq<char>>, local: Option<Seq<char>>) -> Option<
    HintView,
> {
    let resolved = match lock {
        Some(v) => Some((v, RESOLVED_VERSION_TOOLTIP@)),
        None => match local {
            Some(v) => Some((v, LOCAL_PATH_VERSION_TOOLTIP@)),
            None => None,
        },
    };
    match resolved {
        None => None,
        Some((v, tooltip)) => if !h.always_show && h.current_version == Some(v) {
            None
        } else {
            Some((h.position, " → \""@ + v + "\""@, tooltip))
        },
    }
}

/// The version that the lockfile data `cache` gives the dependency `name`: through the
/// workspace's members for `[workspace.dependencies]` (`workspace_table`), else through the
/// current package.
pub open spec fn lock_version_of(
    name: Seq<char>,
    workspace_table: bool,
    cache: Option<CargoLockInlayCacheData>,
    current: Option<CurrentPackage>,
    members: Option<Seq<WorkspaceMemberPackage>>,
) -> Option<Seq<char>> {
    match cache {
        None => None,
        Some(c) => if workspace_table {
            workspace_lock_version(c.entries(), members, name)
        } else {
            match current {
                Some(p) => cache_resolution(c.entries(), p.name@, p.version@, name),
                None => None,
            }
        },
    }
}

/// The hints of the version hints `hints`, one after another; `locals[i]` is the version
/// that the local manifest of the `i`-th gives.
pub open spec fn version_hint_results(
    hints: Seq<VersionHintView>,
    locals: Seq<Option<String>>,
    workspace_table: bool,
    cache: Option<CargoLockInlayCacheData>,
    current: Option<CurrentPackage>,
    members: Option<Seq<WorkspaceMemberPackage>>,
) -> Seq<HintView>
    decreases hints.len(),
{
    if hints.len() == 0 {
        Seq::empty()
    } else {
        version_hint_results(hints.drop_last(), locals, workspace_table, cache, current, members) + match version_hint_result(
            hints.last(),
            lock_version_of(hints.last().dependency_name, workspace_table, cache, current, members),
            opt_text(locals[hints.len() - 1]),
        ) {
            Some(v) => seq![v],
            None => Seq::empty(),
        }
    }
}

/// The entries of a dependency table; none for anything else.
pub open spec fn table_entries_of(dependencies: Value) -> Seq<(Key, Value)> {
    match dependencies {
        Value::Table { entries, .. } => entries@,
        _ => Seq::empty(),
    }
}

/// The version hints of a dependency table that fall in the visible range.
pub open spec fn visible_hints_of_table(dependencies: Value, visible_range: Range) -> Seq<VersionHintView> {
    visible_version_hints_of(table_entries_of(dependencies), visible_range)
}

/// Default features as plain text, where known.
pub open spec fn defaults_view(d: Option<Vec<String>>) -> Option<Seq<Seq<char>>> {
    match d {
        Some(v) => Some(texts(v@)),
        None => None,
    }
}

/// Whether `hints` are the default-features hints of the entries, one per entry, given
/// the default features `defaults[i]` of the package of the `i`-th.
pub open spec fn default_hints_fit(
    hints: Seq<Option<DefaultFeaturesHint>>,
    entries: Seq<(Key, Value)>,
    defaults: Seq<Option<Vec<String>>>,
) -> bool {
    hints.len() == entries.len() && forall|i: int|
        0 <= i < hints.len() ==> default_features_hint_of(#[trigger] hints[i], entries[i].1, defaults_view(defaults[i]))
}

/// The default-features hints among `hints` that fall in the visible range, in order.
pub open spec fn visible_default_hints(hints: Seq<Option<DefaultFeaturesHint>>, visible_range: Range) -> Seq<HintView>
    decreases hints.len(),
{
    if hints.len() == 0 {
        Seq::empty()
    } else {
        visible_default_hints(hints.drop_last(), visible_range) + match hints.last() {
            Some(h) => if visible_at(h.position, visible_range) {
                seq![(h.position, h.label@, h.tooltip@)]
            } else {
                Seq::empty()
            },
            None => Seq::empty(),
        }
    }
}

/// Whether `out` are the hints of the dependency table `dependencies`: where version hints
/// are on, those of its visible version hints (see `version_hint_results`); then, where
/// default-features hints are on, the visible ones of the hints that its entries get
/// (see `default_hints_fit`).
pub open spec fn dependency_hints_are(
    out: Seq<HintView>,
    dependencies: Value,
    workspace_table: bool,
    visible_range: Range,
    cache: Option<CargoLockInlayCacheData>,
    current: Option<CurrentPackage>,
    members: Option<Seq<WorkspaceMemberPackage>>,
    locals: Seq<Option<String>>,
    defaults: Seq<Option<Vec<String>>>,
    version_on: bool,
    defaults_on: bool,
) -> bool {
    let versions = if version_on {
        version_hint_results(
            visible_hints_of_table(dependencies, visible_range),
            locals,
            workspace_table,
            cache,
            current,
            members,
        )
    } else {
        Seq::empty()
    };
    if defaults_on {
        exists|hints: Seq<Option<DefaultFeaturesHint>>|
            #![trigger default_hints_fit(hints, table_entries_of(dependencies), defaults)]
            default_hints_fit(hints, table_entries_of(dependencies), defaults) && out == versions
                + visible_default_hints(hints, visible_range)
    } else {
        out == versions
    }
}

/// A copy of a list of strings.
pub(crate) fn copy_strings(v: &Vec<String>) -> (r: Vec<String>)
    ensures
        r@ == v@,
{
    let mut out: Vec<String> = Vec::new();
    let n = v.len();
    let mut i: usize = 0;
    while i < n
        invariant
            n == v@.len(),
            0 <= i <= n,
            out@ == v@.take(i as int),
        decreases n - i,
    {
        out.push(v[i].clone());
        assert(v@.take(i + 1) =~= v@.take(i as int).push(v@[i as int]));
        i = i + 1;
    }
    assert(v@.take(n as int) =~= v@);
    out
}

/// The hints of the version hints of a dependency table; see `version_hint_results`.
fn version_hints_of_table(
    dependencies: &Value,
    dependency_keys: &[&str],
    visible_range: Range,
    cargo_lock_cache: Option<&CargoLockInlayCacheData>,
    current_package: Option<&CurrentPackage>,
    workspace_member_packages: Option<&Vec<WorkspaceMemberPackage>>,
    local_versions: &[Option<String>],
) -> (r: Vec<InlayHint>)
    requires
        local_versions@.len() == visible_hints_of_table(*dependencies, visible_range).len(),
    ensures
        hints_view(r@) == version_hint_results(
            visible_hints_of_table(*dependencies, visible_range),
            local_versions@,
            is_workspace_dependencies(dependency_keys@),
            match cargo_lock_cache {
                Some(c) => Some(*c),
                None => None,
            },
            match current_package {
                Some(p) => Some(*p),
                None => None,
            },
            members_view(workspace_member_packages),
        ),
{
    let ghost cache = match cargo_lock_cache {
        Some(c) => Some(*c),
        None => None,
    };
    let ghost current = match current_package {
        Some(p) => Some(*p),
        None => None,
    };
    let ghost members = members_view(workspace_member_packages);
    let hints = visible_version_hints(dependencies, visible_range);
    let ghost all = hints@.map_values(|h: DependencyVersionHint| h.view_hint());
    assert(all == visible_hints_of_table(*dependencies, visible_range));
    let mut out: Vec<InlayHint> = Vec::new();
    let n = hints.len();
    let mut i: usize = 0;
    assert(all.take(0) =~= Seq::<VersionHintView>::empty());
    assert(hints_view(out@) =~= Seq::<HintView>::empty());
    while i < n
        invariant
            n == hints@.len(),
            all == hints@.map_values(|h: DependencyVersionHint| h.view_hint()),
            local_versions@.len() == n,
            cache == match cargo_lock_cache {
                Some(c) => Some(*c),
                None => None::<CargoLockInlayCacheData>,
            },
            current == match current_package {
                Some(p) => Some(*p),
                None => None::<CurrentPackage>,
            },
            members == members_view(workspace_member_packages),
            0 <= i <= n,
            hints_view(out@) == version_hint_results(
                all.take(i as int),
                local_versions@,
                is_workspace_dependencies(dependency_keys@),
                cache,
                current,
                members,
            ),
        decreases n - i,
    {
        assert(all.take(i + 1).drop_last() =~= all.take(i as int));
        assert(all.take(i + 1).last() == hints@[i as int].view_hint());
        let hint = &hints[i];
        let lock = lock_resolved_version(
            hint.dependency_name.as_str(),
            dependency_keys,
            cargo_lock_cache,
            current_package,
            workspace_member_packages,
        );
        assert(opt_text(lock) == lock_version_of(
            hint.dependency_name@,
            is_workspace_dependencies(dependency_keys@),
            cache,
            current,
            members,
        ));
        let local = match &local_versions[i] {
            Some(v) => Some(v.clone()),
            None => None,
        };
        assert(opt_text(local) == opt_text(local_versions@[i as int]));
        let ghost before = hints_view(out@);
        let ghost expected = version_hint_result(hint.view_hint(), opt_text(lock), opt_text(local));
        let made = version_inlay_hint(hint, lock, local);
        match made {
            Some(h) => {
                assert(expected == Some(hint_view(h)));
                out.push(h);
                assert(hints_view(out@) =~= before.push(hint_view(h)));
            },
            None => {
                assert(expected is None);
            },
        }
        assert(hints_view(out@) =~= version_hint_results(
            all.take(i + 1),
            local_versions@,
            is_workspace_dependencies(dependency_keys@),
            cache,
            current,
            members,
        ));
        i = i + 1;
    }
    assert(all.take(n as int) =~= all);
    out
}

/// The inlay hints of the dependency table `dependencies`, found under the keys
/// `dependency_keys`: where version hints are on, those of its visible version hints (see
/// `version_hint_results`); then, where default-features hints are on, those of its
/// visible `features` arrays.
///
/// The caller reads what the hints show: `cargo_lock_cache` is the lockfile data,
/// `current_package` the package that the manifest declares, `workspace_member_packages`
/// the members of the workspace; `local_versions[i]` is the version that the local
/// manifest of the `i`-th visible version hint gives (see `visible_version_hints`), and
/// `default_features[i]` the default features of the package of the `i`-th entry of the
/// table, where it could read them.
pub fn collect_dependency_inlay_hints(
    dependencies: &Value,
    dependency_keys: &[&str],
    visible_range: Range,
    cargo_lock_cache: Option<&CargoLockInlayCacheData>,
    current_package: Option<&CurrentPackage>,
    workspace_member_packages: Option<&Vec<WorkspaceMemberPackage>>,
    local_versions: &[Option<String>],
    default_features: &[Option<Vec<String>>],
    dependency_version_enabled: bool,
    default_features_enabled: bool,
) -> (r: Vec<InlayHint>)
    requires
        local_versions@.len() == visible_hints_of_table(*dependencies, visible_range).len(),
        default_features@.len() == table_entries_of(*dependencies).len(),
    ensures
        dependency_hints_are(
            hints_view(r@),
            *dependencies,
            is_workspace_dependencies(dependency_keys@),
            visible_range,
            match cargo_lock_cache {
                Some(c) => Some(*c),
                None => None,
            },
            match current_package {
                Some(p) => Some(*p),
                None => None,
            },
            members_view(workspace_member_packages),
            local_versions@,
            default_features@,
            dependency_version_enabled,
            default_features_enabled,
        ),
{
    let mut out: Vec<InlayHint> = if dependency_version_enabled {
        version_hints_of_table(
            dependencies,
            dependency_keys,
            visible_range,
            cargo_lock_cache,
            current_package,
            workspace_member_packages,
            local_versions,
        )
    } else {
        Vec::new()
    };
    let ghost versions = hints_view(out@);
    assert(!dependency_version_enabled ==> versions =~= Seq::<HintView>::empty());
    if !default_features_enabled {
        return out;
    }
    let ghost entries = table_entries_of(*dependencies);
    let ghost mut made: Seq<Option<DefaultFeaturesHint>> = Seq::empty();
    let items = match dependencies {
        Value::Table { entries, .. } => entries,
        _ => {
            assert(default_hints_fit(made, entries, default_features@));
            assert(hints_view(out@) =~= versions + visible_default_hints(made, visible_range));
            return out;
        },
    };
    let n = items.len();
    let mut i: usize = 0;
    assert(hints_view(out@) =~= versions + visible_default_hints(made, visible_range));
    while i < n
        invariant
            n == items@.len(),
            items@ == entries,
            default_features@.len() == n,
            0 <= i <= n,
            made.len() == i,
            forall|j: int|
                0 <= j < i ==> default_features_hint_of(#[trigger] made[j], entries[j].1, defaults_view(default_features@[j])),
            hints_view(out@) == versions + visible_default_hints(made, visible_range),
        decreases n - i,
    {
        let defaults = match &default_features[i] {
            Some(d) => Some(copy_strings(d)),
            None => None,
        };
        assert(defaults_view(defaults) == defaults_view(default_features@[i as int]));
        let hint = crate::inlay::dependency_default_features_hint(&items[i].1, defaults);
        let ghost before = hints_view(out@);
        let ghost previous = made;
        proof {
            made = made.push(hint);
            assert(made.drop_last() =~= previous);
            assert(made.last() == hint);
        }
        match hint {
            Some(h) => {
                if crate::document::Range::at(h.position).intersects(&visible_range) {
                    let ghost view = (h.position, h.label@, h.tooltip@);
                    out.push(InlayHint { position: h.position, label: h.label, tooltip: h.tooltip });
                    assert(hints_view(out@) =~= before.push(view));
                }
            },
            None => {},
        }
        assert(hints_view(out@) =~= versions + visible_default_hints(made, visible_range));
        i = i + 1;
    }
    assert(default_hints_fit(made, entries, default_features@));
    out
}

/// Which inlay hints of a `Cargo.toml` the user switched on or off; `None` where the
/// setting is not given.
#[derive(Debug, Clone, Copy, Default)]
pub struct CargoInlayHintFeatures {
    pub enabled: Option<bool>,
    pub dependency_version: Option<bool>,
    pub default_features: Option<bool>,
    pub workspace_value: Option<bool>,
}

/// The kinds of inlay hint of a `Cargo.toml`.
#[derive(Debug, Clone, Copy, PartialEq, Eq, Structural)]
pub enum CargoInlayHintFeature {
    DependencyVersion,
    DefaultFeatures,
    WorkspaceValue,
}

/// Whether the inlay hints of a `Cargo.toml` are on: unless switched off.
pub open spec fn hints_root_on(features: Option<CargoInlayHintFeatures>) -> bool {
    !(features matches Some(f) && f.enabled == Some(false))
}

/// Whether a kind of inlay hint is on: unless switched off.
pub open spec fn hint_kind_on(features: Option<CargoInlayHintFeatures>, feature: CargoInlayHintFeature) -> bool {
    match features {
        None => true,
        Some(f) => match feature {
            CargoInlayHintFeature::DependencyVersion => f.dependency_version != Some(false),
            CargoInlayHintFeature::DefaultFeatures => f.default_features != Some(false),
            CargoInlayHintFeature::WorkspaceValue => f.workspace_value != Some(false),
        },
    }
}

pub open spec fn hint_features_view(features: Option<&CargoInlayHintFeatures>) -> Option<CargoInlayHintFeatures> {
    match features {
        Some(f) => Some(*f),
        None => None,
    }
}

/// Whether the inlay hints of a `Cargo.toml` are on.
pub fn cargo_inlay_hint_root_enabled(features: Option<&CargoInlayHintFeatures>) -> (r: bool)
    ensures
        r == hints_root_on(hint_features_view(features)),
{
    match features {
        Some(f) => f.enabled != Some(false),
        None => true,
    }
}

/// Whether a kind of inlay hint of a `Cargo.toml` is on.
pub fn cargo_inlay_hint_enabled(features: Option<&CargoInlayHintFeatures>, feature: CargoInlayHintFeature) -> (r: bool)
    ensures
        r == hint_kind_on(hint_features_view(features), feature),
{
    match features {
        None => true,
        Some(f) => match feature {
            CargoInlayHintFeature::DependencyVersion => f.dependency_version != Some(false),
            CargoInlayHintFeature::DefaultFeatures => f.default_features != Some(false),
            CargoInlayHintFeature::WorkspaceValue => f.workspace_value != Some(false),
        },
    }
}

/// What the caller read for the hints of one dependency table: for each visible version
/// hint, the version that the local manifest gives (see `collect_dependency_inlay_hints`),
/// and for each entry the default features of its package.
pub struct DependencyTableInputs {
    pub local_versions: Vec<Option<String>>,
    pub default_features: Vec<Option<Vec<String>>>,
}

/// The dependency table at `path` of a manifest, where there is one.
pub open spec fn dependency_table_at(document: Value, path: Seq<Seq<char>>) -> Option<Value> {
    match dig(document, path) {
        Some((_, v)) => if v is Table {
            Some(v)
        } else {
            None
        },
        None => None,
    }
}

/// Whether the caller's inputs fit the dependency table at `path`: one local version per
/// visible version hint and one set of default features per entry; none where there is no
/// such table.
pub open spec fn inputs_fit(document: Value, path: Seq<Seq<char>>, inputs: DependencyTableInputs, visible_range: Range) -> bool {
    match dependency_table_at(document, path) {
        Some(t) => inputs.local_versions@.len() == visible_hints_of_table(t, visible_range).len()
            && inputs.default_features@.len() == table_entries_of(t).len(),
        None => inputs.local_versions@.len() == 0 && inputs.default_features@.len() == 0,
    }
}

/// Whether `out` are the hints of the dependency table at `path` (see
/// `dependency_hints_are`); none where there is no such table.
pub open spec fn table_hints_are(
    out: Seq<HintView>,
    document: Value,
    path: Seq<Seq<char>>,
    inputs: DependencyTableInputs,
    visible_range: Range,
    cache: Option<CargoLockInlayCacheData>,
    current: Option<CurrentPackage>,
    members: Option<Seq<WorkspaceMemberPackage>>,
    version_on: bool,
    defaults_on: bool,
) -> bool {
    match dependency_table_at(document, path) {
        Some(t) => dependency_hints_are(
            out,
            t,
            path == seq!["workspace"@, "dependencies"@],
            visible_range,
            cache,
            current,
            members,
            inputs.local_versions@,
            inputs.default_features@,
            version_on,
            defaults_on,
        ),
        None => out.len() == 0,
    }
}

/// The hints of a list of parts, one part after another.
pub open spec fn joined_hints(parts: Seq<Seq<HintView>>) -> Seq<HintView>
    decreases parts.len(),
{
    if parts.len() == 0 {
        Seq::empty()
    } else {
        joined_hints(parts.drop_last()) + parts.last()
    }
}

/// The hints of the values that visible inherited fields take from the workspace, given
/// each value's rendered text; an incomplete value has none.
pub open spec fn workspace_value_hints(targets: Seq<(Position, Value)>, rendered: Seq<String>) -> Seq<HintView>
    decreases targets.len(),
{
    if targets.len() == 0 {
        Seq::empty()
    } else {
        workspace_value_hints(targets.drop_last(), rendered) + match targets.last().1 {
            Value::Incomplete { .. } => Seq::empty(),
            _ => seq![
                (
                    targets.last().0,
                    " → "@ + hint_text(rendered[targets.len() - 1]@),
                    WORKSPACE_INHERITED_VALUE_TOOLTIP@,
                ),
            ],
        }
    }
}

/// The keys of a path of owned strings.
fn path_keys(path: &Vec<String>) -> (r: Vec<&str>)
    ensures
        key_views(r@) == texts(path@),
{
    let mut out: Vec<&str> = Vec::new();
    let n = path.len();
    let mut i: usize = 0;
    while i < n
        invariant
            n == path@.len(),
            0 <= i <= n,
            key_views(out@) == texts(path@.take(i as int)),
        decreases n - i,
    {
        let ghost before = out@;
        let k = path[i].as_str();
        assert(k@ == path@[i as int]@);
        out.push(k);
        assert(path@.take(i + 1) =~= path@.take(i as int).push(path@[i as int]));
        assert(texts(path@.take(i + 1)) =~= texts(path@.take(i as int)).push(path@[i as int]@));
        assert(key_views(out@) =~= key_views(before).push(k@));
        assert(key_views(out@) =~= texts(path@.take(i + 1)));
        i = i + 1;
    }
    assert(path@.take(n as int) =~= path@);
    out
}

/// The hints of the values that visible inherited fields take from the workspace
/// manifest; see `workspace_value_hints`.
fn workspace_value_inlay_hints(
    document: &Value,
    workspace_document: &Value,
    rendered: &[String],
    visible_range: Range,
) -> (r: Vec<InlayHint>)
    requires
        rendered@.len() == workspace_value_targets_of(*document, *workspace_document, visible_range).len(),
    ensures
        hints_view(r@) == workspace_value_hints(
            workspace_value_targets_of(*document, *workspace_document, visible_range),
            rendered@,
        ),
{
    let targets = workspace_value_targets(document, workspace_document, visible_range);
    let ghost all = workspace_value_targets_of(*document, *workspace_document, visible_range);
    let mut out: Vec<InlayHint> = Vec::new();
    let n = targets.len();
    let mut i: usize = 0;
    assert(hints_view(out@) =~= workspace_value_hints(all.take(0), rendered@));
    while i < n
        invariant
            n == targets@.len(),
            targets@.map_values(|t: (Position, &Value)| (t.0, *t.1)) == all,
            rendered@.len() == n,
            0 <= i <= n,
            hints_view(out@) == workspace_value_hints(all.take(i as int), rendered@),
        decreases n - i,
    {
        assert(all.take(i + 1).drop_last() =~= all.take(i as int));
        assert(all.take(i + 1).last() == all[i as int]);
        assert(all[i as int] == (targets@[i as int].0, *targets@[i as int].1));
        let (position, value) = targets[i];
        let ghost before = hints_view(out@);
        match workspace_value_hint_label(value, rendered[i].as_str()) {
            Some(label) => {
                let hint = InlayHint { position, label, tooltip: String::from_str(WORKSPACE_INHERITED_VALUE_TOOLTIP) };
                let ghost v = hint_view(hint);
                out.push(hint);
                assert(hints_view(out@) =~= before.push(v));
            },
            None => {},
        }
        assert(hints_view(out@) =~= workspace_value_hints(all.take(i + 1), rendered@));
        i = i + 1;
    }
    assert(all.take(n as int) =~= all);
    out
}

/// Whether `r` are the inlay hints of a `Cargo.toml`: none where no kind of hint is on;
/// else the hints that inherited values get (where those are on), then those of each
/// dependency table in the order of `dependency_table_paths_of`, ordered by position; none
/// where there are none.
pub open spec fn manifest_hints_are(
    r: Option<Vec<InlayHint>>,
    document: Value,
    workspace_hints: Seq<HintView>,
    tables: Seq<DependencyTableInputs>,
    visible_range: Range,
    cache: Option<CargoLockInlayCacheData>,
    current: Option<CurrentPackage>,
    members: Option<Seq<WorkspaceMemberPackage>>,
    version_on: bool,
    defaults_on: bool,
    values_on: bool,
) -> bool {
    if !version_on && !defaults_on && !values_on {
        r is None
    } else {
        let paths = dependency_table_paths_of(document);
        exists|parts: Seq<Seq<HintView>>|
            #![trigger joined_hints(parts)]
            parts.len() == paths.len() && (forall|i: int|
                0 <= i < parts.len() ==> #[trigger] table_hints_are(
                    parts[i],
                    document,
                    paths[i],
                    tables[i],
                    visible_range,
                    cache,
                    current,
                    members,
                    version_on,
                    defaults_on,
                )) && {
                let all = (if values_on {
                    workspace_hints
                } else {
                    Seq::empty()
                }) + joined_hints(parts);
                if all.len() == 0 {
                    r is None
                } else {
                    r matches Some(hints) && exists|unsorted: Seq<InlayHint>|
                        #![trigger stable_position_sort(unsorted)]
                        hints_view(unsorted) == all && hints@ == stable_position_sort(unsorted)
                }
            }
    }
}

/// The inlay hints of a `Cargo.toml`: none where its inlay hints are off, else those of
/// `manifest_hints_are`, by the kinds of hint that `features` switches on. The caller reads what the
/// hints show: `workspace` is the workspace manifest with the rendered text of each value
/// of `workspace_value_targets`, where it found one; `cargo_lock_cache`, `current_package`
/// and `workspace_member_packages` as for `collect_dependency_inlay_hints`; and `tables[i]`
/// what it read for the `i`-th table of `dependency_table_paths`.
pub fn inlay_hint_impl(
    document: &Value,
    visible_range: Range,
    workspace: Option<(&Value, &[String])>,
    cargo_lock_cache: Option<&CargoLockInlayCacheData>,
    current_package: Option<&CurrentPackage>,
    workspace_member_packages: Option<&Vec<WorkspaceMemberPackage>>,
    tables: &[DependencyTableInputs],
    features: Option<&CargoInlayHintFeatures>,
) -> (r: Option<Vec<InlayHint>>)
    requires
        tables@.len() == dependency_table_paths_of(*document).len(),
        forall|i: int|
            0 <= i < tables@.len() ==> inputs_fit(
                *document,
                dependency_table_paths_of(*document)[i],
                #[trigger] tables@[i],
                visible_range,
            ),
        workspace matches Some((w, rendered)) ==> rendered@.len() == workspace_value_targets_of(
            *document,
            *w,
            visible_range,
        ).len(),
    ensures
        !hints_root_on(hint_features_view(features)) ==> r is None,
        r matches Some(hints) ==> hints@.len() > 0 && forall|i: int, j: int|
            0 <= i < j < hints@.len() ==> !crate::inlay::position_lt(
                #[trigger] hints@[j].position,
                #[trigger] hints@[i].position,
            ),
        hints_root_on(hint_features_view(features)) ==> manifest_hints_are(
            r,
            *document,
            match workspace {
                Some((w, rendered)) => workspace_value_hints(
                    workspace_value_targets_of(*document, *w, visible_range),
                    rendered@,
                ),
                None => Seq::empty(),
            },
            tables@,
            visible_range,
            match cargo_lock_cache {
                Some(c) => Some(*c),
                None => None,
            },
            match current_package {
                Some(p) => Some(*p),
                None => None,
            },
            members_view(workspace_member_packages),
            hint_kind_on(hint_features_view(features), CargoInlayHintFeature::DependencyVersion),
            hint_kind_on(hint_features_view(features), CargoInlayHintFeature::DefaultFeatures),
            hint_kind_on(hint_features_view(features), CargoInlayHintFeature::WorkspaceValue),
        ),
{
    if !cargo_inlay_hint_root_enabled(features) {
        return None;
    }
    let dependency_version_enabled = cargo_inlay_hint_enabled(features, CargoInlayHintFeature::DependencyVersion);
    let default_features_enabled = cargo_inlay_hint_enabled(features, CargoInlayHintFeature::DefaultFeatures);
    let workspace_value_enabled = cargo_inlay_hint_enabled(features, CargoInlayHintFeature::WorkspaceValue);
    if !dependency_version_enabled && !default_features_enabled && !workspace_value_enabled {
        return None;
    }
    let ghost cache = match cargo_lock_cache {
        Some(c) => Some(*c),
        None => None,
    };
    let ghost current = match current_package {
        Some(p) => Some(*p),
        None => None,
    };
    let ghost members = members_view(workspace_member_packages);
    let ghost workspace_hints = match workspace {
        Some((w, rendered)) => workspace_value_hints(workspace_value_targets_of(*document, *w, visible_range), rendered@),
        None => Seq::empty(),
    };
    let mut hints: Vec<InlayHint> = Vec::new();
    if workspace_value_enabled {
        match workspace {
            Some((w, rendered)) => {
                hints = workspace_value_inlay_hints(document, w, rendered, visible_range);
            },
            None => {},
        }
    }
    let ghost head = hints_view(hints@);
    assert(head == if workspace_value_enabled {
        workspace_hints
    } else {
        Seq::<HintView>::empty()
    });
    let paths = dependency_table_paths(document);
    let ghost all_paths = dependency_table_paths_of(*document);
    let n = paths.len();
    let ghost mut parts: Seq<Seq<HintView>> = Seq::empty();
    let mut i: usize = 0;
    while i < n
        invariant
            n == paths@.len(),
            crate::inlay::path_texts(paths@) == all_paths,
            all_paths == dependency_table_paths_of(*document),
            tables@.len() == n,
            forall|j: int| 0 <= j < n ==> inputs_fit(*document, all_paths[j], #[trigger] tables@[j], visible_range),
            cache == match cargo_lock_cache {
                Some(c) => Some(*c),
                None => None::<CargoLockInlayCacheData>,
            },
            current == match current_package {
                Some(p) => Some(*p),
                None => None::<CurrentPackage>,
            },
            members == members_view(workspace_member_packages),
            0 <= i <= n,
            parts.len() == i,
            forall|j: int|
                0 <= j < i ==> #[trigger] table_hints_are(
                    parts[j],
                    *document,
                    all_paths[j],
                    tables@[j],
                    visible_range,
                    cache,
                    current,
                    members,
                    dependency_version_enabled,
                    default_features_enabled,
                ),
            hints_view(hints@) == head + joined_hints(parts),
        decreases n - i,
    {
        let keys = path_keys(&paths[i]);
        assert(texts(paths@[i as int]@) == all_paths[i as int]);
        let ghost path = all_paths[i as int];
        let ghost before = hints_view(hints@);
        let ghost previous = parts;
        let inputs = &tables[i];
        match crate::document::dig_keys(document, keys.as_slice()) {
            Some((_, table)) => match table {
                Value::Table { .. } => {
                    assert(dependency_table_at(*document, path) == Some(*table));
                    assert(is_workspace_dependencies(keys@) == (path == seq!["workspace"@, "dependencies"@])) by {
                        if path == seq!["workspace"@, "dependencies"@] {
                            assert(keys@[0]@ == path[0]);
                            assert(keys@[1]@ == path[1]);
                        }
                        if is_workspace_dependencies(keys@) {
                            assert(path =~= seq!["workspace"@, "dependencies"@]);
                        }
                    }
                    let mut part = collect_dependency_inlay_hints(
                        table,
                        keys.as_slice(),
                        visible_range,
                        cargo_lock_cache,
                        current_package,
                        workspace_member_packages,
                        inputs.local_versions.as_slice(),
                        inputs.default_features.as_slice(),
                        dependency_version_enabled,
                        default_features_enabled,
                    );
                    let ghost added = hints_view(part@);
                    hints.append(&mut part);
                    proof {
                        parts = parts.push(added);
                        assert(hints_view(hints@) =~= before + added);
                    }
                },
                _ => {
                    assert(dependency_table_at(*document, path) is None);
                    proof {
                        parts = parts.push(Seq::empty());
                    }
                },
            },
            None => {
                assert(dependency_table_at(*document, path) is None);
                proof {
                    parts = parts.push(Seq::empty());
                }
            },
        }
        proof {
            assert(parts.drop_last() =~= previous);
            assert(forall|j: int| 0 <= j < i ==> parts[j] == previous[j]);
            assert(hints_view(hints@) =~= head + joined_hints(parts));
        }
        i = i + 1;
    }
    assert(joined_hints(parts) == hints_view(hints@).skip(head.len() as int)) by {
        assert(hints_view(hints@).skip(head.len() as int) =~= joined_hints(parts));
    }
    if hints.len() == 0 {
        assert(head + joined_hints(parts) =~= Seq::<HintView>::empty());
        return None;
    }
    let ghost unsorted = hints@;
    let sorted = sort_hints_by_position(hints);
    assert(hints_view(unsorted) == head + joined_hints(parts));
    Some(sorted)
}

/// Where a manifest that a hint reads lies.
#[derive(Debug, Clone, PartialEq, Eq)]
pub enum ManifestSource {
    /// At this path, from the directory of the manifest at hand.
    Local(String),
    /// At this path, from the directory of the workspace manifest.
    Workspace(String),
}

/// A manifest source as plain values: whether it is found from the workspace manifest,
/// and its path.
pub open spec fn manifest_source_view(s: Option<ManifestSource>) -> Option<(bool, Seq<char>)> {
    match s {
        Some(ManifestSource::Local(p)) => Some((false, p@)),
        Some(ManifestSource::Workspace(p)) => Some((true, p@)),
        None => None,
    }
}

/// The `path` of the entry `key` of `[workspace.dependencies]`, where that entry is a table
/// with a path string (and, where `check_defaults`, does not switch default features off).
pub open spec fn workspace_entry_path(workspace_document: Value, key: Seq<char>, check_defaults: bool) -> Option<
    Seq<char>,
> {
    match dig_value(workspace_document, seq!["workspace"@, "dependencies"@, key]) {
        Some(t) => if t is Table {
            if check_defaults && default_features_disabled(t) {
                None
            } else {
                string_text(table_get(t, "path"@))
            }
        } else {
            None
        },
        None => None,
    }
}

/// Where the manifest that gives a dependency entry its default features lies: its own
/// `path`; else, where it inherits from the workspace, the `path` of the workspace entry,
/// unless that entry switches default features off.
pub open spec fn default_features_source_of(value: Value, key: Seq<char>, workspace_document: Option<Value>) -> Option<
    (bool, Seq<char>),
> {
    if !(value is Table) {
        None
    } else {
        match string_text(table_get(value, "path"@)) {
            Some(p) => Some((false, p)),
            None => match table_get(value, "workspace"@) {
                Some(Value::Boolean { value: true, .. }) => match workspace_document {
                    Some(w) => match workspace_entry_path(w, key, true) {
                        Some(p) => Some((true, p)),
                        None => None,
                    },
                    None => None,
                },
                _ => None,
            },
        }
    }
}

/// The `path` of the entry `key` of `[workspace.dependencies]`; see `workspace_entry_path`.
fn workspace_entry_path_exec(workspace_document: &Value, key: &str, check_defaults: bool) -> (r: Option<String>)
    ensures
        opt_text(r) == workspace_entry_path(*workspace_document, key@, check_defaults),
{
    let keys = ["workspace", "dependencies", key];
    assert(key_views(keys@) =~= seq!["workspace"@, "dependencies"@, key@]);
    match crate::document::dig_keys(workspace_document, &keys) {
        Some((_, t)) => match t {
            Value::Table { .. } => {
                if check_defaults && crate::inlay::dependency_table_default_features_disabled(t) {
                    return None;
                }
                match t.get("path") {
                    Some(Value::String { value, .. }) => Some(value.clone()),
                    _ => None,
                }
            },
            _ => None,
        },
        None => None,
    }
}

/// Where the manifest that gives a dependency entry its default features lies (see
/// `default_features_source_of`); `workspace_document` is the workspace manifest, where
/// the caller found one.
pub fn default_features_source(value: &Value, key: &str, workspace_document: Option<&Value>) -> (r: Option<
    ManifestSource,
>)
    ensures
        manifest_source_view(r) == default_features_source_of(
            *value,
            key@,
            match workspace_document {
                Some(w) => Some(*w),
                None => None,
            },
        ),
{
    match value {
        Value::Table { .. } => {},
        _ => return None,
    }
    match value.get("path") {
        Some(Value::String { value: p, .. }) => return Some(ManifestSource::Local(p.clone())),
        _ => {},
    }
    match value.get("workspace") {
        Some(Value::Boolean { value: true, .. }) => {},
        _ => return None,
    }
    let w = match workspace_document {
        Some(w) => w,
        None => return None,
    };
    match workspace_entry_path_exec(w, key, true) {
        Some(p) => Some(ManifestSource::Workspace(p)),
        None => None,
    }
}

/// Where the manifest that gives a version hint its local version lies: a path source is
/// a path from the manifest at hand; a workspace-dependency source is the `path` of that
/// entry of `[workspace.dependencies]`, in the manifest at hand where it is the workspace
/// manifest, else in the workspace manifest.
pub open spec fn local_version_source_of(
    document: Value,
    source: Option<(bool, Seq<char>)>,
    workspace_document: Option<Value>,
) -> Option<(bool, Seq<char>)> {
    match source {
        None => None,
        Some((true, p)) => Some((false, p)),
        Some((false, key)) => if table_entry(document, "workspace"@) is Some {
            match workspace_entry_path(document, key, false) {
                Some(p) => Some((false, p)),
                None => None,
            }
        } else {
            match workspace_document {
                Some(w) => match workspace_entry_path(w, key, false) {
                    Some(p) => Some((true, p)),
                    None => None,
                },
                None => None,
            }
        },
    }
}

/// Where the manifest that gives a version hint its local version lies (see
/// `local_version_source_of`); `workspace_document` is the workspace manifest, where the
/// caller found one.
pub fn local_version_source(
    document: &Value,
    source: Option<&LocalVersionSource>,
    workspace_document: Option<&Value>,
) -> (r: Option<ManifestSource>)
    ensures
        manifest_source_view(r) == local_version_source_of(
            *document,
            crate::inlay::source_view(
                match source {
                    Some(s) => Some(*s),
                    None => None,
                },
            ),
            match workspace_document {
                Some(w) => Some(*w),
                None => None,
            },
        ),
{
    match source {
        None => None,
        Some(LocalVersionSource::Path(p)) => Some(ManifestSource::Local(p.clone())),
        Some(LocalVersionSource::WorkspaceDependency(key)) => {
            if document.contains_key("workspace") {
                match workspace_entry_path_exec(document, key.as_str(), false) {
                    Some(p) => Some(ManifestSource::Local(p)),
                    None => None,
                }
            } else {
                match workspace_document {
                    Some(w) => match workspace_entry_path_exec(w, key.as_str(), false) {
                        Some(p) => Some(ManifestSource::Workspace(p)),
                        None => None,
                    },
                    None => None,
                }
            }
        },
    }
}

} // verus!
