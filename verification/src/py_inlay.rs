//! The inlay hints of a `pyproject.toml`: the version that `uv.lock` resolves for each
//! visible dependency string.

use vstd::prelude::*;
use vstd::string::StringExecFns;

use crate::cargo_lock::sole_value;
use crate::document::{dig_value, string_text, Position, Range, Value};
use crate::inlay::{visible_at, InlayHint};
use crate::pep508::{exact_pinned_of, exact_pinned_version, RequirementView};
use crate::py_dependency::{
    collect_dependency_requirements_from_document_tree, requirement_entries, requirement_entry,
    standard_requirements, DependencyRequirement,
};
use crate::uv_lock::{normalize_version, normalized_version, uv_dependency_resolutions, version_hint_label, UvLock};

verus! {

/// The tooltip of a version resolved from `uv.lock`.
pub const UV_RESOLVED_VERSION_TOOLTIP: &'static str = "Resolved version in uv.lock";

/// The project that a `pyproject.toml` declares: its name and normalized version.
#[derive(Debug, Clone)]
pub struct CurrentPackage {
    pub name: String,
    pub version: String,
}

/// The project's name and normalized version, where both are given as strings.
pub fn current_package(document_tree: &Value) -> (r: Option<CurrentPackage>)
    ensures
        match (
            string_text(dig_value(*document_tree, seq!["project"@, "name"@])),
            string_text(dig_value(*document_tree, seq!["project"@, "version"@])),
        ) {
            (Some(name), Some(version)) => r matches Some(p) && p.name@ == name && p.version@ == normalized_version(version),
            _ => r is None,
        },
{
    let a = ["project", "name"];
    let b = ["project", "version"];
    assert(crate::document::key_views(a@) =~= seq!["project"@, "name"@]);
    assert(crate::document::key_views(b@) =~= seq!["project"@, "version"@]);
    let name = match crate::document::dig_keys(document_tree, &a) {
        Some((_, Value::String { value, .. })) => value.clone(),
        _ => return None,
    };
    let version = match crate::document::dig_keys(document_tree, &b) {
        Some((_, Value::String { value, .. })) => normalize_version(value.as_str()),
        _ => return None,
    };
    Some(CurrentPackage { name, version })
}

/// The standard dependency strings whose end lies in the visible range, in order.
pub open spec fn visible_requirements_of(
    entries: Seq<(Seq<char>, Range, RequirementView)>,
    visible_range: Range,
) -> Seq<(Seq<char>, Range, RequirementView)> {
    entries.filter(|e: (Seq<char>, Range, RequirementView)| visible_at(e.1.end, visible_range))
}

/// The standard dependency strings of a manifest that are visible.
pub fn visible_dependency_requirements<'a>(document_tree: &'a Value, visible_range: Range) -> (r: Vec<DependencyRequirement<'a>>)
    ensures
        requirement_entries(r@) == visible_requirements_of(standard_requirements(*document_tree), visible_range),
{
    let mut rest = collect_dependency_requirements_from_document_tree(document_tree);
    let ghost es = requirement_entries(rest@);
    let mut out: Vec<DependencyRequirement<'a>> = Vec::new();
    let n = rest.len();
    let mut i: usize = 0;
    assert(es.take(0) =~= Seq::<(Seq<char>, Range, RequirementView)>::empty());
    assert(requirement_entries(out@) =~= visible_requirements_of(es.take(0), visible_range));
    assert(requirement_entries(rest@) =~= es.skip(0));
    while i < n
        invariant
            n == es.len(),
            requirement_entries(rest@) == es.skip(i as int),
            0 <= i <= n,
            requirement_entries(out@) == visible_requirements_of(es.take(i as int), visible_range),
        decreases n - i,
    {
        assert(es.take(i + 1) =~= es.take(i as int).push(es[i as int]));
        proof {
            es.take(i as int).lemma_filter_push(
                es[i as int],
                |e: (Seq<char>, Range, RequirementView)| visible_at(e.1.end, visible_range),
            );
        }
        assert(es.skip(i as int)[0] == es[i as int]);
        let ghost before_rest = rest@;
        assert(requirement_entries(before_rest).len() == before_rest.len());
        assert(requirement_entries(before_rest)[0] == requirement_entry(before_rest[0]));
        let d = rest.remove(0);
        assert(requirement_entry(d) == es[i as int]);
        assert(rest@ =~= before_rest.drop_first());
        assert(requirement_entries(rest@) =~= requirement_entries(before_rest).drop_first());
        assert(es.skip(i as int).drop_first() =~= es.skip(i + 1));
        assert(requirement_entries(rest@) =~= es.skip(i + 1));
        if Range::at(d.range.end).intersects(&visible_range) {
            let ghost before = out@;
            out.push(d);
            assert(requirement_entries(out@) =~= requirement_entries(before).push(es[i as int]));
        }
        i = i + 1;
    }
    assert(es.take(n as int) =~= es);
    out
}

/// The version hints of the visible dependency strings: the version that `uv.lock`
/// resolves for the project's dependency of that name, unless the string pins that
/// version already.
pub open spec fn uv_hint_for(
    lock: UvLock,
    name: Seq<char>,
    version: Seq<char>,
    entry: (Seq<char>, Range, RequirementView),
) -> Option<(Range, Seq<char>)> {
    match lock.package_spec(name, version) {
        None => None,
        Some(p) => match sole_value(uv_dependency_resolutions(lock.packages@, p.direct_dependencies@, entry.2.name)) {
            None => None,
            Some(v) => if exact_pinned_of(entry.2) == Some(v) {
                None
            } else {
                Some((entry.1, " → \""@ + v + "\""@))
            },
        },
    }
}

/// The hints of the visible requirements, in order.
pub open spec fn uv_hints_of(
    lock: UvLock,
    name: Seq<char>,
    version: Seq<char>,
    entries: Seq<(Seq<char>, Range, RequirementView)>,
) -> Seq<(Position, Seq<char>)>
    decreases entries.len(),
{
    if entries.len() == 0 {
        Seq::empty()
    } else {
        let rest = uv_hints_of(lock, name, version, entries.drop_last());
        match uv_hint_for(lock, name, version, entries.last()) {
            Some((range, label)) => rest.push((range.end, label)),
            None => rest,
        }
    }
}

/// The inlay hints of the visible dependency strings, given `uv.lock`.
pub fn uv_version_inlay_hints(lock: &UvLock, current: &CurrentPackage, requirements: &Vec<DependencyRequirement>) -> (r: Vec<InlayHint>)
    ensures
        r@.map_values(|h: InlayHint| (h.position, h.label@)) == uv_hints_of(*lock, current.name@, current.version@, requirement_entries(requirements@)),
        forall|i: int| 0 <= i < r@.len() ==> #[trigger] r@[i].tooltip@ == UV_RESOLVED_VERSION_TOOLTIP@,
{
    let ghost es = requirement_entries(requirements@);
    let mut out: Vec<InlayHint> = Vec::new();
    let n = requirements.len();
    let mut i: usize = 0;
    assert(out@.map_values(|h: InlayHint| (h.position, h.label@)) =~= uv_hints_of(*lock, current.name@, current.version@, es.take(0)));
    while i < n
        invariant
            n == es.len(),
            es == requirement_entries(requirements@),
            0 <= i <= n,
            out@.map_values(|h: InlayHint| (h.position, h.label@)) == uv_hints_of(*lock, current.name@, current.version@, es.take(i as int)),
            forall|j: int| 0 <= j < out@.len() ==> #[trigger] out@[j].tooltip@ == UV_RESOLVED_VERSION_TOOLTIP@,
        decreases n - i,
    {
        assert(es.take(i + 1).drop_last() =~= es.take(i as int));
        assert(es.take(i + 1).last() == es[i as int]);
        let d = &requirements[i];
        let resolved = lock.dependency_version_for_package(current.name.as_str(), current.version.as_str(), d.requirement.name.as_str());
        match resolved {
            Some(v) => {
                let pinned = exact_pinned_version(&d.requirement);
                let current_version = match &pinned {
                    Some(p) => Some(p.as_str()),
                    None => None,
                };
                match version_hint_label(current_version, v.as_str()) {
                    Some(label) => {
                        let ghost before = out@;
                        out.push(InlayHint { position: d.range.end, label, tooltip: String::from_str(UV_RESOLVED_VERSION_TOOLTIP) });
                        assert(out@.map_values(|h: InlayHint| (h.position, h.label@)) =~= before.map_values(
                            |h: InlayHint| (h.position, h.label@),
                        ).push((d.range.end, out@.last().label@)));
                    },
                    None => {},
                }
            },
            None => {},
        }
        i = i + 1;
    }
    assert(es.take(n as int) =~= es);
    out
}

/// The hints that a `pyproject.toml` gets, where hints are on: none without the project's
/// name and version, without visible dependency strings, without `uv.lock` (`lock`) or
/// without a single hint; else the hints of the visible dependency strings, as positions
/// and labels.
pub open spec fn pyproject_hints(
    document_tree: Value,
    visible_range: Range,
    lock: Option<UvLock>,
    enabled: bool,
) -> Option<Seq<(Position, Seq<char>)>> {
    if !enabled {
        None
    } else {
        match (
            string_text(dig_value(document_tree, seq!["project"@, "name"@])),
            string_text(dig_value(document_tree, seq!["project"@, "version"@])),
        ) {
            (Some(name), Some(version)) => {
                let visible = visible_requirements_of(standard_requirements(document_tree), visible_range);
                if visible.len() == 0 {
                    None
                } else {
                    match lock {
                        None => None,
                        Some(l) => {
                            let hints = uv_hints_of(l, name, normalized_version(version), visible);
                            if hints.len() == 0 {
                                None
                            } else {
                                Some(hints)
                            }
                        },
                    }
                }
            },
            _ => None,
        }
    }
}

/// The inlay hints of a `pyproject.toml` (see `pyproject_hints`): `enabled` says whether
/// its inlay hints and its dependency-version hints are on, and `lock` is its `uv.lock`,
/// where the caller found one.
pub fn inlay_hint_impl(document_tree: &Value, visible_range: Range, lock: Option<&UvLock>, enabled: bool) -> (r: Option<
    Vec<InlayHint>,
>)
    ensures
        match pyproject_hints(
            *document_tree,
            visible_range,
            match lock {
                Some(l) => Some(*l),
                None => None,
            },
            enabled,
        ) {
            None => r is None,
            Some(hints) => r matches Some(v) && v@.map_values(|h: InlayHint| (h.position, h.label@)) == hints
                && forall|i: int| 0 <= i < v@.len() ==> #[trigger] v@[i].tooltip@ == UV_RESOLVED_VERSION_TOOLTIP@,
        },
{
    if !enabled {
        return None;
    }
    let current = match current_package(document_tree) {
        Some(c) => c,
        None => return None,
    };
    let requirements = visible_dependency_requirements(document_tree, visible_range);
    if requirements.len() == 0 {
        return None;
    }
    let lock = match lock {
        Some(l) => l,
        None => return None,
    };
    let hints = uv_version_inlay_hints(lock, &current, &requirements);
    if hints.len() == 0 {
        None
    } else {
        Some(hints)
    }
}

} // verus!
