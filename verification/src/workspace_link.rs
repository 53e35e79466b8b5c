//! The document links of a workspace `Cargo.toml`: those of the entries of
//! `[workspace.dependencies]`, and those of the member patterns of `workspace.members` and
//! `workspace.default-members` to the package manifests that they match.
//!
//! The caller finds and reads the files: for each member pattern it hands over the package
//! manifests that the pattern matched, in the order found, each with its path.

use vstd::prelude::*;

use crate::cargo_document_link::{DocumentLinkFeatures, DocumentLinkToolTip};
use crate::dependency_link::{
    document_link_for_workspace_dependency, features_view, inside_quotes, line_number, line_of, links_view,
    owned_view, registries_view, unquoted_range, workspace_dependency_links, cargo_toml_on, crates_io_on, git_on,
    path_on, DocumentLink, LinkTarget, LinkView, TargetView,
};
use crate::document::{dig, dig_keys, key_views, Key, Range, Value};
use crate::feature_link::{
    document_link_for_workspace_dependency_features, workspace_dependency_feature_links, DependencyManifest,
};

verus! {

/// Where the link of a member pattern to a package manifest that it matched leads: the
/// line of the manifest's `package.name`, where that is a string.
pub open spec fn member_manifest_target(m: (String, Value)) -> Option<TargetView> {
    match dig(m.1, seq!["package"@, "name"@]) {
        Some((_, Value::String { range, .. })) => Some(TargetView::ManifestLine(m.0@, line_number(range.start))),
        _ => None,
    }
}

/// The targets of the package manifests that a member pattern matched, in the order found;
/// a manifest without a package name has none.
pub open spec fn member_targets(found: Seq<(String, Value)>) -> Seq<TargetView>
    decreases found.len(),
{
    if found.len() == 0 {
        Seq::empty()
    } else {
        member_targets(found.drop_last()) + match member_manifest_target(found.last()) {
            Some(t) => seq![t],
            None => Seq::empty(),
        }
    }
}

/// The link of a member pattern whose string covers `range`: none where it matched no
/// package, the link to that package's manifest where it matched one, and the link to the
/// first one, titled as such, where it matched several.
pub open spec fn member_pattern_links(range: Range, found: Seq<(String, Value)>) -> Seq<LinkView> {
    let targets = member_targets(found);
    if targets.len() == 0 {
        Seq::empty()
    } else if targets.len() == 1 {
        seq![(targets[0], inside_quotes(range), DocumentLinkToolTip::CargoToml)]
    } else {
        seq![(targets[0], inside_quotes(range), DocumentLinkToolTip::CargoTomlFirstMember)]
    }
}

/// The values of the array `workspace.<members_key>`; none where it is not an array.
pub open spec fn member_values(workspace_document: Value, members_key: Seq<char>) -> Seq<Value> {
    match dig(workspace_document, seq!["workspace"@, members_key]) {
        Some((_, Value::Array { values, .. })) => values@,
        _ => Seq::empty(),
    }
}

/// The links of the member patterns among `values`, one value after another; `found[i]`
/// holds the manifests that the `i`-th value matched. A value that is no string has none.
pub open spec fn member_value_links(values: Seq<Value>, found: Seq<Seq<(String, Value)>>) -> Seq<LinkView>
    decreases values.len(),
{
    if values.len() == 0 {
        Seq::empty()
    } else {
        member_value_links(values.drop_last(), found) + match values.last() {
            Value::String { range, .. } => member_pattern_links(range, found[values.len() - 1]),
            _ => Seq::empty(),
        }
    }
}

/// The link of a member pattern whose string covers `range` (see `member_pattern_links`);
/// `found` holds the package manifests that it matched, each with its path.
pub fn member_pattern_link(range: Range, found: &[(String, Value)]) -> (r: Vec<DocumentLink>)
    ensures
        links_view(r@) == member_pattern_links(range, found@),
        r@.len() <= 1,
{
    let mut first: Option<LinkTarget> = None;
    let mut count: usize = 0;
    let n = found.len();
    let mut i: usize = 0;
    while i < n
        invariant
            n == found@.len(),
            0 <= i <= n,
            count == member_targets(found@.take(i as int)).len(),
            count <= i,
            count == 0 <==> first is None,
            first matches Some(t) ==> crate::dependency_link::target_view(t) == member_targets(
                found@.take(i as int),
            )[0],
        decreases n - i,
    {
        assert(found@.take(i + 1).drop_last() =~= found@.take(i as int));
        assert(found@.take(i + 1).last() == found@[i as int]);
        let ghost before = member_targets(found@.take(i as int));
        let (path, document) = &found[i];
        let keys = ["package", "name"];
        assert(key_views(keys@) =~= seq!["package"@, "name"@]);
        match dig_keys(document, &keys) {
            Some((_, Value::String { range: name_range, .. })) => {
                if count == 0 {
                    first = Some(LinkTarget::ManifestLine { path: path.clone(), line: line_of(name_range.start) });
                }
                count = count + 1;
            },
            _ => {},
        }
        assert(member_targets(found@.take(i + 1)) =~= before + match member_manifest_target(found@[i as int]) {
            Some(t) => seq![t],
            None => Seq::<TargetView>::empty(),
        });
        i = i + 1;
    }
    assert(found@.take(n as int) =~= found@);
    let mut out: Vec<DocumentLink> = Vec::new();
    match first {
        Some(target) => {
            let tooltip = if count == 1 {
                DocumentLinkToolTip::CargoToml
            } else {
                DocumentLinkToolTip::CargoTomlFirstMember
            };
            out.push(DocumentLink { target, range: unquoted_range(range), tooltip });
        },
        None => {},
    }
    assert(links_view(out@) =~= member_pattern_links(range, found@));
    out
}

/// The member patterns of the array `workspace.<members_key>`, one per value: the pattern
/// where the value is a string, `None` for any other value.
pub fn member_pattern_values(workspace_document: &Value, members_key: &str) -> (r: Vec<Option<String>>)
    ensures
        r@.len() == member_values(*workspace_document, members_key@).len(),
        forall|i: int|
            0 <= i < r@.len() ==> match #[trigger] member_values(*workspace_document, members_key@)[i] {
                Value::String { value, .. } => r@[i] == Some(value),
                _ => r@[i] is None,
            },
{
    let keys = ["workspace", members_key];
    assert(key_views(keys@) =~= seq!["workspace"@, members_key@]);
    let mut out: Vec<Option<String>> = Vec::new();
    let values = match dig_keys(workspace_document, &keys) {
        Some((_, Value::Array { values, .. })) => values,
        _ => return out,
    };
    let n = values.len();
    let mut i: usize = 0;
    while i < n
        invariant
            n == values@.len(),
            values@ == member_values(*workspace_document, members_key@),
            0 <= i <= n,
            out@.len() == i,
            forall|j: int|
                0 <= j < i ==> match #[trigger] values@[j] {
                    Value::String { value, .. } => out@[j] == Some(value),
                    _ => out@[j] is None,
                },
        decreases n - i,
    {
        match &values[i] {
            Value::String { value, .. } => out.push(Some(value.clone())),
            _ => out.push(None),
        }
        i = i + 1;
    }
    out
}

/// The links of the member patterns of `workspace.<members_key>`; `found[i]` holds the
/// package manifests that its `i`-th value matched (none for a value that is no string).
pub fn create_member_document_links(
    workspace_document: &Value,
    members_key: &str,
    found: &[Vec<(String, Value)>],
) -> (r: Vec<DocumentLink>)
    requires
        found@.len() == member_values(*workspace_document, members_key@).len(),
    ensures
        links_view(r@) == member_value_links(
            member_values(*workspace_document, members_key@),
            found@.map_values(|v: Vec<(String, Value)>| v@),
        ),
{
    let ghost all = member_values(*workspace_document, members_key@);
    let ghost fv = found@.map_values(|v: Vec<(String, Value)>| v@);
    let keys = ["workspace", members_key];
    assert(key_views(keys@) =~= seq!["workspace"@, members_key@]);
    let mut out: Vec<DocumentLink> = Vec::new();
    let values = match dig_keys(workspace_document, &keys) {
        Some((_, Value::Array { values, .. })) => values,
        _ => {
            assert(links_view(out@) =~= member_value_links(all, fv));
            return out;
        },
    };
    let n = values.len();
    let mut i: usize = 0;
    assert(links_view(out@) =~= member_value_links(all.take(0), fv));
    while i < n
        invariant
            n == values@.len(),
            values@ == all,
            found@.len() == n,
            fv == found@.map_values(|v: Vec<(String, Value)>| v@),
            0 <= i <= n,
            links_view(out@) == member_value_links(all.take(i as int), fv),
        decreases n - i,
    {
        assert(all.take(i + 1).drop_last() =~= all.take(i as int));
        assert(all.take(i + 1).last() == all[i as int]);
        let ghost before = links_view(out@);
        match &values[i] {
            Value::String { range, .. } => {
                let mut links = member_pattern_link(*range, found[i].as_slice());
                assert(found[i as int]@ == fv[i as int]);
                out.append(&mut links);
            },
            _ => {},
        }
        assert(links_view(out@) =~= member_value_links(all.take(i + 1), fv));
        i = i + 1;
    }
    assert(all.take(n as int) =~= all);
    out
}

/// The entries of `[workspace.dependencies]`; none where it is not a table.
pub open spec fn workspace_dependency_entries(workspace_document: Value) -> Seq<(Key, Value)> {
    match dig(workspace_document, seq!["workspace"@, "dependencies"@]) {
        Some((_, Value::Table { entries, .. })) => entries@,
        _ => Seq::empty(),
    }
}

/// The links of the entries `entries` of `[workspace.dependencies]`, one entry after
/// another; `targets[i]` is the manifest that the path of the `i`-th entry leads to.
pub open spec fn workspace_entries_links(
    entries: Seq<(Key, Value)>,
    targets: Seq<Option<(String, Value)>>,
    registries: Seq<(Seq<char>, Seq<char>)>,
    f: Option<DocumentLinkFeatures>,
) -> Seq<LinkView>
    decreases entries.len(),
{
    if entries.len() == 0 {
        Seq::empty()
    } else {
        workspace_entries_links(entries.drop_last(), targets, registries, f) + workspace_dependency_links(
            entries.last().0,
            entries.last().1,
            owned_view(targets[entries.len() - 1]),
            registries,
            f,
        )
    }
}

/// The links of a workspace manifest: where any kind of dependency link is on, those of
/// `[workspace.dependencies]`; then, where links to manifests are on, those of the patterns
/// of `workspace.members` and of `workspace.default-members`, and those of the `features`
/// of the entries of `[workspace.dependencies]`.
pub open spec fn workspace_manifest_links(
    workspace_document: Value,
    registries: Seq<(Seq<char>, Seq<char>)>,
    targets: Seq<Option<(String, Value)>>,
    members_found: Seq<Seq<(String, Value)>>,
    default_members_found: Seq<Seq<(String, Value)>>,
    manifests: Seq<DependencyManifest>,
    f: Option<DocumentLinkFeatures>,
) -> Seq<LinkView> {
    let dependency_links = if cargo_toml_on(f) || git_on(f) || path_on(f) || crates_io_on(f) {
        workspace_entries_links(workspace_dependency_entries(workspace_document), targets, registries, f)
    } else {
        Seq::empty()
    };
    if cargo_toml_on(f) {
        dependency_links + member_value_links(member_values(workspace_document, "members"@), members_found)
            + member_value_links(member_values(workspace_document, "default-members"@), default_members_found)
            + workspace_dependency_feature_links(workspace_document, manifests, f)
    } else {
        dependency_links
    }
}

/// The links of the entries of `[workspace.dependencies]`; `targets[i]` is the manifest
/// that the path of the `i`-th entry leads to, from the workspace's directory.
pub fn document_link_for_workspace_dependencies(
    workspace_document: &Value,
    targets: &[Option<(String, Value)>],
    registries: &[(String, String)],
    features: Option<&DocumentLinkFeatures>,
) -> (r: Vec<DocumentLink>)
    requires
        targets@.len() == workspace_dependency_entries(*workspace_document).len(),
    ensures
        links_view(r@) == workspace_entries_links(
            workspace_dependency_entries(*workspace_document),
            targets@,
            registries_view(registries@),
            features_view(features),
        ),
{
    let ghost all = workspace_dependency_entries(*workspace_document);
    let ghost regs = registries_view(registries@);
    let ghost f = features_view(features);
    let keys = ["workspace", "dependencies"];
    assert(key_views(keys@) =~= seq!["workspace"@, "dependencies"@]);
    let mut out: Vec<DocumentLink> = Vec::new();
    let entries = match dig_keys(workspace_document, &keys) {
        Some((_, Value::Table { entries, .. })) => entries,
        _ => {
            assert(links_view(out@) =~= workspace_entries_links(all, targets@, regs, f));
            return out;
        },
    };
    let n = entries.len();
    let mut i: usize = 0;
    assert(links_view(out@) =~= workspace_entries_links(all.take(0), targets@, regs, f));
    while i < n
        invariant
            n == entries@.len(),
            entries@ == all,
            targets@.len() == n,
            regs == registries_view(registries@),
            f == features_view(features),
            0 <= i <= n,
            links_view(out@) == workspace_entries_links(all.take(i as int), targets@, regs, f),
        decreases n - i,
    {
        assert(all.take(i + 1).drop_last() =~= all.take(i as int));
        assert(all.take(i + 1).last() == all[i as int]);
        let (key, value) = &entries[i];
        let target = match &targets[i] {
            Some((path, document)) => Some((path.as_str(), document)),
            None => None,
        };
        assert(crate::dependency_link::loaded_view(target) == owned_view(targets@[i as int]));
        let mut links = document_link_for_workspace_dependency(key, value, target, registries, features);
        let ghost before = links_view(out@);
        let ghost added = links_view(links@);
        out.append(&mut links);
        assert(links_view(out@) =~= before + added);
        assert(links_view(out@) =~= workspace_entries_links(all.take(i + 1), targets@, regs, f));
        i = i + 1;
    }
    assert(all.take(n as int) =~= all);
    out
}

/// The links of a workspace manifest (see `workspace_manifest_links`): `targets[i]` is the
/// manifest that the path of the `i`-th entry of `[workspace.dependencies]` leads to, and
/// `members_found[i]` (`default_members_found[i]`) the package manifests that the `i`-th
/// value of `workspace.members` (`workspace.default-members`) matched; `manifests` are the
/// manifests of the entries of `[workspace.dependencies]` that the caller found, each with
/// the keys of its entry.
pub fn document_link_for_workspace_cargo_toml(
    workspace_document: &Value,
    registries: &[(String, String)],
    targets: &[Option<(String, Value)>],
    members_found: &[Vec<(String, Value)>],
    default_members_found: &[Vec<(String, Value)>],
    manifests: &[DependencyManifest],
    features: Option<&DocumentLinkFeatures>,
) -> (r: Vec<DocumentLink>)
    requires
        targets@.len() == workspace_dependency_entries(*workspace_document).len(),
        members_found@.len() == member_values(*workspace_document, "members"@).len(),
        default_members_found@.len() == member_values(*workspace_document, "default-members"@).len(),
    ensures
        links_view(r@) == workspace_manifest_links(
            *workspace_document,
            registries_view(registries@),
            targets@,
            members_found@.map_values(|v: Vec<(String, Value)>| v@),
            default_members_found@.map_values(|v: Vec<(String, Value)>| v@),
            manifests@,
            features_view(features),
        ),
{
    let mut out: Vec<DocumentLink> = Vec::new();
    if crate::cargo_document_link::cargo_toml_document_link_enabled(features)
        || crate::cargo_document_link::git_document_link_enabled(features)
        || crate::cargo_document_link::path_document_link_enabled(features)
        || crate::cargo_document_link::crates_io_document_link_enabled(features) {
        out = document_link_for_workspace_dependencies(workspace_document, targets, registries, features);
    }
    if crate::cargo_document_link::cargo_toml_document_link_enabled(features) {
        proof {
            reveal_strlit("members");
            reveal_strlit("default-members");
        }
        let mut members = create_member_document_links(workspace_document, "members", members_found);
        let mut default_members = create_member_document_links(
            workspace_document,
            "default-members",
            default_members_found,
        );
        let mut dependency_features = document_link_for_workspace_dependency_features(
            workspace_document,
            manifests,
            features,
        );
        out.append(&mut members);
        out.append(&mut default_members);
        out.append(&mut dependency_features);
    }
    out
}

} // verus!
