//! The document links of the dependencies of a `Cargo.toml`: to the manifest of a path
//! dependency, to its git repository, to its registry or crates.io page, and to the
//! workspace entry that it inherits.
//!
//! Files are read by the caller: where a path dependency's manifest matters, the caller
//! hands over that manifest as loaded (its path and its document). A string value's span
//! covers its quotes; the link on it covers the text inside them. Keys are bare keys, so
//! a link on a key covers the key's span.

use vstd::prelude::*;
use vstd::string::StringExecFns;

use crate::cargo_document_link::{
    cargo_toml_document_link_enabled, crates_io_document_link_enabled, dependency_uses_local_path,
    git_document_link_enabled, path_document_link_enabled, uses_local_path, DocumentLinkFeatures,
    DocumentLinkToolTip,
};
use crate::document::{dig, string_text, table_entry, table_get, Key, Position, Range, Value};
use crate::feature_link::{
    crate_dependency_feature_links, document_link_for_crate_dependency_features,
    document_link_for_feature_table_strings, feature_table_string_links, DependencyManifest,
};
use crate::inlay::{dependency_package_name, package_name_of};
use crate::text::str_eq;

verus! {

/// Where a document link leads.
#[derive(Debug, Clone, PartialEq, Eq)]
pub enum LinkTarget {
    /// The manifest at `path`.
    Manifest(String),
    /// The manifest at `path`, opened at the one-based `line`.
    ManifestLine { path: String, line: u64 },
    /// A git repository as the manifest writes it: a URL or a local path.
    Git(String),
    /// A web page.
    Url(String),
    /// A file named relative to the directory of the current manifest.
    RelativeFile(String),
}

/// A link: where it leads, the span it covers and its tooltip.
#[derive(Debug, Clone, PartialEq, Eq)]
pub struct DocumentLink {
    pub target: LinkTarget,
    pub range: Range,
    pub tooltip: DocumentLinkToolTip,
}

/// Where a document link leads, as plain values.
pub enum TargetView {
    Manifest(Seq<char>),
    ManifestLine(Seq<char>, int),
    Git(Seq<char>),
    Url(Seq<char>),
    RelativeFile(Seq<char>),
}

/// A link as plain values.
pub type LinkView = (TargetView, Range, DocumentLinkToolTip);

pub open spec fn target_view(t: LinkTarget) -> TargetView {
    match t {
        LinkTarget::Manifest(path) => TargetView::Manifest(path@),
        LinkTarget::ManifestLine { path, line } => TargetView::ManifestLine(path@, line as int),
        LinkTarget::Git(s) => TargetView::Git(s@),
        LinkTarget::Url(s) => TargetView::Url(s@),
        LinkTarget::RelativeFile(s) => TargetView::RelativeFile(s@),
    }
}

pub open spec fn link_view(l: DocumentLink) -> LinkView {
    (target_view(l.target), l.range, l.tooltip)
}

pub open spec fn links_view(v: Seq<DocumentLink>) -> Seq<LinkView> {
    v.map_values(|l: DocumentLink| link_view(l))
}

/// The span of the text of a one-line quoted string whose token covers `range`.
pub open spec fn inside_quotes(range: Range) -> Range {
    Range {
        start: Position {
            line: range.start.line,
            column: if range.start.column < u32::MAX {
                (range.start.column + 1) as u32
            } else {
                range.start.column
            },
        },
        end: Position {
            line: range.end.line,
            column: if range.end.column > 0 {
                (range.end.column - 1) as u32
            } else {
                0
            },
        },
    }
}

/// The span of the text of a one-line quoted string.
pub fn unquoted_range(range: Range) -> (r: Range)
    ensures
        r == inside_quotes(range),
{
    let start = if range.start.column < u32::MAX {
        range.start.column + 1
    } else {
        range.start.column
    };
    let end = if range.end.column > 0 {
        range.end.column - 1
    } else {
        0
    };
    Range::new(Position::new(range.start.line, start), Position::new(range.end.line, end))
}

/// The one-based line of a position.
pub open spec fn line_number(p: Position) -> int {
    p.line + 1
}

/// A manifest as loaded by the caller: its path and its document.
pub open spec fn loaded_view(m: Option<(&str, &Value)>) -> Option<(Seq<char>, Value)> {
    match m {
        Some((path, document)) => Some((path@, *document)),
        None => None,
    }
}

/// Where the link of a path dependency leads: the line of `package.name` in the manifest
/// that its path leads to. A dependency that renames its package (`package = ".."`) is
/// linked where that name is its own key; another where the manifest's package name is
/// its key.
pub open spec fn dependency_target_line(crate_key: Seq<char>, table: Value, target: Option<(Seq<char>, Value)>) -> Option<
    (Seq<char>, int),
> {
    match target {
        Some((path, document)) => match dig(document, seq!["package"@, "name"@]) {
            Some((name_key, Value::String { value: name, .. })) => {
                let matches = match string_text(table_get(table, "package"@)) {
                    Some(renamed) => renamed == crate_key,
                    None => name@ == crate_key,
                };
                if matches {
                    Some((path, line_number(name_key.range.start)))
                } else {
                    None
                }
            },
            _ => None,
        },
        None => None,
    }
}

/// The name of the package of a loaded manifest, with the key that holds it.
fn package_name_entry<'a>(document: &'a Value) -> (r: Option<(&'a Key, &'a String)>)
    ensures
        match dig(*document, seq!["package"@, "name"@]) {
            Some((k, Value::String { value, .. })) => r matches Some(p) && *p.0 == k && *p.1 == value,
            _ => r is None,
        },
{
    let keys = ["package", "name"];
    assert(crate::document::key_views(keys@) =~= seq!["package"@, "name"@]);
    match crate::document::dig_keys(document, &keys) {
        Some((k, Value::String { value, .. })) => Some((k, value)),
        _ => None,
    }
}

/// The one-based line of a position, as a number.
pub(crate) fn line_of(p: Position) -> (r: u64)
    ensures
        r == line_number(p),
{
    p.line as u64 + 1
}

/// Where the link of a path dependency leads; see `dependency_target_line`.
fn dependency_target(crate_key: &str, table: &Value, target: Option<(&str, &Value)>) -> (r: Option<LinkTarget>)
    ensures
        match dependency_target_line(crate_key@, *table, loaded_view(target)) {
            Some((path, line)) => r matches Some(t) && target_view(t) == TargetView::ManifestLine(path, line),
            None => r is None,
        },
{
    let (path, document) = match target {
        Some(t) => t,
        None => return None,
    };
    let (name_key, name) = match package_name_entry(document) {
        Some(e) => e,
        None => return None,
    };
    let matches = match table.get_string("package") {
        Some(renamed) => str_eq(renamed.as_str(), crate_key),
        None => str_eq(name.as_str(), crate_key),
    };
    if matches {
        Some(LinkTarget::ManifestLine { path: String::from_str(path), line: line_of(name_key.range.start) })
    } else {
        None
    }
}

/// The index URL of the registry `name` among `registries` (name and index, as listed in
/// the `[registries]` table of `.cargo/config.toml`; the last entry of a name counts).
pub open spec fn registry_index(registries: Seq<(Seq<char>, Seq<char>)>, name: Seq<char>) -> Option<Seq<char>>
    decreases registries.len(),
{
    if registries.len() == 0 {
        None
    } else if registries.last().0 == name {
        Some(registries.last().1)
    } else {
        registry_index(registries.drop_last(), name)
    }
}

pub open spec fn registries_view(registries: Seq<(String, String)>) -> Seq<(Seq<char>, Seq<char>)> {
    registries.map_values(|r: (String, String)| (r.0@, r.1@))
}

/// The index URL of the registry `name`.
fn find_registry<'a>(registries: &'a [(String, String)], name: &str) -> (r: Option<&'a String>)
    ensures
        match registry_index(registries_view(registries@), name@) {
            Some(index) => r matches Some(s) && s@ == index,
            None => r is None,
        },
{
    let ghost rs = registries_view(registries@);
    let mut i: usize = registries.len();
    assert(rs.take(i as int) =~= rs);
    while i > 0
        invariant
            rs == registries_view(registries@),
            0 <= i <= registries@.len(),
            registry_index(rs, name@) == registry_index(rs.take(i as int), name@),
        decreases i,
    {
        let ghost before = rs.take(i as int);
        assert(before.drop_last() =~= rs.take(i - 1));
        assert(before.last() == rs[i - 1]);
        if str_eq(registries[i - 1].0.as_str(), name) {
            return Some(&registries[i - 1].1);
        }
        i = i - 1;
    }
    None
}

/// The registries that the `[registries]` table of a `.cargo/config.toml` lists: each
/// name with the `index` of its table; entries without a string `index` are passed over.
pub open spec fn registries_of(entries: Seq<(Key, Value)>) -> Seq<(Seq<char>, Seq<char>)>
    decreases entries.len(),
{
    if entries.len() == 0 {
        Seq::empty()
    } else {
        let rest = registries_of(entries.drop_last());
        let (name, value) = entries.last();
        match value {
            Value::Table { .. } => match string_text(table_get(value, "index"@)) {
                Some(index) => rest.push((name.value@, index)),
                None => rest,
            },
            _ => rest,
        }
    }
}

/// The registries of a loaded `.cargo/config.toml`.
pub fn get_registries(config_document: &Value) -> (r: Vec<(String, String)>)
    ensures
        registries_view(r@) == match table_get(*config_document, "registries"@) {
            Some(Value::Table { entries, .. }) => registries_of(entries@),
            _ => Seq::empty(),
        },
{
    let mut r: Vec<(String, String)> = Vec::new();
    let entries = match config_document.get("registries") {
        Some(Value::Table { entries, .. }) => entries,
        _ => {
            assert(registries_view(r@) =~= Seq::<(Seq<char>, Seq<char>)>::empty());
            return r;
        },
    };
    let n = entries.len();
    let mut i: usize = 0;
    assert(registries_view(r@) =~= registries_of(entries@.take(0)));
    while i < n
        invariant
            n == entries@.len(),
            0 <= i <= n,
            registries_view(r@) == registries_of(entries@.take(i as int)),
        decreases n - i,
    {
        assert(entries@.take(i + 1).drop_last() =~= entries@.take(i as int));
        assert(entries@.take(i + 1).last() == entries@[i as int]);
        let (name, value) = &entries[i];
        match value {
            Value::Table { .. } => match value.get_string("index") {
                Some(index) => {
                    let ghost before = r@;
                    r.push((name.value.clone(), index.clone()));
                    assert(registries_view(r@) =~= registries_view(before).push((name.value@, index@)));
                },
                None => {},
            },
            _ => {},
        }
        assert(registries_view(r@) =~= registries_of(entries@.take(i + 1)));
        i = i + 1;
    }
    assert(entries@.take(n as int) =~= entries@);
    r
}

pub open spec fn path_on(f: Option<DocumentLinkFeatures>) -> bool {
    f matches Some(x) && x.path == Some(true)
}

pub open spec fn git_on(f: Option<DocumentLinkFeatures>) -> bool {
    f matches Some(x) && x.git == Some(true)
}

pub open spec fn cargo_toml_on(f: Option<DocumentLinkFeatures>) -> bool {
    f matches Some(x) && x.cargo_toml == Some(true)
}

pub open spec fn workspace_on(f: Option<DocumentLinkFeatures>) -> bool {
    f matches Some(x) && x.workspace == Some(true)
}

pub open spec fn crates_io_on(f: Option<DocumentLinkFeatures>) -> bool {
    !(f matches Some(x) && x.crates_io == Some(false))
}

pub open spec fn features_view(f: Option<&DocumentLinkFeatures>) -> Option<DocumentLinkFeatures> {
    match f {
        Some(x) => Some(*x),
        None => None,
    }
}

/// The link of a path dependency's `path` string, where path links are on.
pub open spec fn path_links(crate_key: Seq<char>, value: Value, target: Option<(Seq<char>, Value)>, f: Option<DocumentLinkFeatures>) -> Seq<LinkView> {
    if path_on(f) {
        match table_get(value, "path"@) {
            Some(Value::String { range, .. }) => match dependency_target_line(crate_key, value, target) {
                Some((path, line)) => seq![(TargetView::ManifestLine(path, line), inside_quotes(range), DocumentLinkToolTip::PathFile)],
                None => Seq::empty(),
            },
            _ => Seq::empty(),
        }
    } else {
        Seq::empty()
    }
}

/// The link of a git dependency's `git` string, where git links are on.
pub open spec fn git_links(value: Value, f: Option<DocumentLinkFeatures>) -> Seq<LinkView> {
    if git_on(f) {
        match table_get(value, "git"@) {
            Some(Value::String { value: url, range }) => seq![(TargetView::Git(url@), inside_quotes(range), DocumentLinkToolTip::GitRepository)],
            _ => Seq::empty(),
        }
    } else {
        Seq::empty()
    }
}

/// The link of a dependency's `registry` string to the package in that registry's index,
/// where crates.io links are on and the registry is known.
pub open spec fn registry_links(crate_key: Seq<char>, value: Value, registries: Seq<(Seq<char>, Seq<char>)>, f: Option<DocumentLinkFeatures>) -> Seq<LinkView> {
    if crates_io_on(f) {
        match table_get(value, "registry"@) {
            Some(Value::String { value: name, range }) => match registry_index(registries, name@) {
                Some(index) => seq![
                    (TargetView::Url(index + "/"@ + package_name_of(crate_key, value)), inside_quotes(range), DocumentLinkToolTip::CrateIo),
                ],
                None => Seq::empty(),
            },
            _ => Seq::empty(),
        }
    } else {
        Seq::empty()
    }
}

/// The links of a dependency written as a table: path, then git, then registry. A
/// dependency written as a version string has none.
pub open spec fn dependency_links(
    crate_key: Seq<char>,
    value: Value,
    target: Option<(Seq<char>, Value)>,
    registries: Seq<(Seq<char>, Seq<char>)>,
    f: Option<DocumentLinkFeatures>,
) -> Seq<LinkView> {
    match value {
        Value::Table { .. } => path_links(crate_key, value, target, f) + git_links(value, f) + registry_links(
            crate_key,
            value,
            registries,
            f,
        ),
        _ => Seq::empty(),
    }
}

/// The links of one dependency entry; `path_target` is the manifest that its `path` leads
/// to, where the caller could load one.
pub fn document_link_for_dependency(
    crate_key: &Key,
    crate_value: &Value,
    path_target: Option<(&str, &Value)>,
    registries: &[(String, String)],
    features: Option<&DocumentLinkFeatures>,
) -> (r: Vec<DocumentLink>)
    ensures
        links_view(r@) == dependency_links(
            crate_key.value@,
            *crate_value,
            loaded_view(path_target),
            registries_view(registries@),
            features_view(features),
        ),
{
    let mut links: Vec<DocumentLink> = Vec::new();
    match crate_value {
        Value::Table { .. } => {},
        _ => {
            assert(links_view(links@) =~= Seq::<LinkView>::empty());
            return links;
        },
    }
    if path_document_link_enabled(features) {
        match crate_value.get("path") {
            Some(Value::String { range, .. }) => match dependency_target(crate_key.value.as_str(), crate_value, path_target) {
                Some(target) => {
                    links.push(DocumentLink { target, range: unquoted_range(*range), tooltip: DocumentLinkToolTip::PathFile });
                },
                None => {},
            },
            _ => {},
        }
    }
    let ghost after_path = links_view(links@);
    assert(after_path =~= path_links(crate_key.value@, *crate_value, loaded_view(path_target), features_view(features)));
    if git_document_link_enabled(features) {
        match crate_value.get("git") {
            Some(Value::String { value, range }) => {
                links.push(DocumentLink { target: LinkTarget::Git(value.clone()), range: unquoted_range(*range), tooltip: DocumentLinkToolTip::GitRepository });
            },
            _ => {},
        }
    }
    let ghost after_git = links_view(links@);
    assert(after_git =~= after_path + git_links(*crate_value, features_view(features)));
    if crates_io_document_link_enabled(features) {
        match crate_value.get("registry") {
            Some(Value::String { value, range }) => match find_registry(registries, value.as_str()) {
                Some(index) => {
                    let mut url = index.clone();
                    url.append("/");
                    url.append(dependency_package_name(crate_key.value.as_str(), crate_value));
                    links.push(DocumentLink { target: LinkTarget::Url(url), range: unquoted_range(*range), tooltip: DocumentLinkToolTip::CrateIo });
                },
                None => {},
            },
            _ => {},
        }
    }
    assert(links_view(links@) =~= after_git + registry_links(
        crate_key.value@,
        *crate_value,
        registries_view(registries@),
        features_view(features),
    ));
    links
}

/// A copy of a link target.
fn copy_target(t: &LinkTarget) -> (r: LinkTarget)
    ensures
        target_view(r) == target_view(*t),
{
    match t {
        LinkTarget::Manifest(path) => LinkTarget::Manifest(path.clone()),
        LinkTarget::ManifestLine { path, line } => LinkTarget::ManifestLine { path: path.clone(), line: *line },
        LinkTarget::Git(s) => LinkTarget::Git(s.clone()),
        LinkTarget::Url(s) => LinkTarget::Url(s.clone()),
        LinkTarget::RelativeFile(s) => LinkTarget::RelativeFile(s.clone()),
    }
}

/// The link on a dependency's key that goes with one of its links: the key of a path
/// dependency opens its `Cargo.toml`, and only where such links are on; other links are
/// repeated on the key as they are.
pub open spec fn key_link(l: LinkView, key_range: Range, f: Option<DocumentLinkFeatures>) -> Seq<LinkView> {
    if l.2 == DocumentLinkToolTip::PathFile {
        if cargo_toml_on(f) {
            seq![(l.0, key_range, DocumentLinkToolTip::CargoToml)]
        } else {
            Seq::empty()
        }
    } else {
        seq![(l.0, key_range, l.2)]
    }
}

/// Each link preceded by its link on the key.
pub open spec fn with_key_links(links: Seq<LinkView>, key_range: Range, f: Option<DocumentLinkFeatures>) -> Seq<LinkView>
    decreases links.len(),
{
    if links.len() == 0 {
        Seq::empty()
    } else {
        with_key_links(links.drop_last(), key_range, f) + key_link(links.last(), key_range, f) + seq![links.last()]
    }
}

/// Puts each link after its link on the key.
fn add_key_links(links: Vec<DocumentLink>, key_range: Range, features: Option<&DocumentLinkFeatures>) -> (r: Vec<
    DocumentLink,
>)
    ensures
        links_view(r@) == with_key_links(links_view(links@), key_range, features_view(features)),
{
    let ghost ls = links_view(links@);
    let ghost f = features_view(features);
    let mut r: Vec<DocumentLink> = Vec::new();
    let n = links.len();
    let mut i: usize = 0;
    assert(links_view(r@) =~= with_key_links(ls.take(0), key_range, f));
    while i < n
        invariant
            n == links@.len(),
            ls == links_view(links@),
            f == features_view(features),
            0 <= i <= n,
            links_view(r@) == with_key_links(ls.take(i as int), key_range, f),
        decreases n - i,
    {
        assert(ls.take(i + 1).drop_last() =~= ls.take(i as int));
        assert(ls.take(i + 1).last() == link_view(links@[i as int]));
        let link = &links[i];
        let ghost before = links_view(r@);
        if link.tooltip == DocumentLinkToolTip::PathFile {
            if cargo_toml_document_link_enabled(features) {
                r.push(DocumentLink { target: copy_target(&link.target), range: key_range, tooltip: DocumentLinkToolTip::CargoToml });
            }
        } else {
            r.push(DocumentLink { target: copy_target(&link.target), range: key_range, tooltip: link.tooltip });
        }
        assert(links_view(r@) =~= before + key_link(link_view(links@[i as int]), key_range, f));
        let ghost middle = links_view(r@);
        r.push(DocumentLink { target: copy_target(&link.target), range: link.range, tooltip: link.tooltip });
        assert(links_view(r@) =~= middle + seq![link_view(links@[i as int])]);
        i = i + 1;
    }
    assert(ls.take(n as int) =~= ls);
    r
}

/// The crates.io link on a dependency's key, where crates.io links are on.
pub open spec fn crates_io_links(crate_key: Key, value: Value, f: Option<DocumentLinkFeatures>) -> Seq<LinkView> {
    if crates_io_on(f) {
        seq![
            (
                TargetView::Url("https://crates.io/crates/"@ + package_name_of(crate_key.value@, value)),
                crate_key.range,
                DocumentLinkToolTip::CrateIo,
            ),
        ]
    } else {
        Seq::empty()
    }
}

/// The crates.io link on a dependency's key.
fn crates_io_link(crate_key: &Key, crate_value: &Value, features: Option<&DocumentLinkFeatures>) -> (r: Vec<
    DocumentLink,
>)
    ensures
        links_view(r@) == crates_io_links(*crate_key, *crate_value, features_view(features)),
{
    let mut r: Vec<DocumentLink> = Vec::new();
    if crates_io_document_link_enabled(features) {
        let url = crate::cargo_document_link::crates_io_crate_url(crate_key.value.as_str(), crate_value);
        r.push(DocumentLink { target: LinkTarget::Url(url), range: crate_key.range, tooltip: DocumentLinkToolTip::CrateIo });
    }
    assert(links_view(r@) =~= crates_io_links(*crate_key, *crate_value, features_view(features)));
    r
}

/// The links of an entry of `[workspace.dependencies]`: its own links each preceded by
/// its link on the key; where it has none, a crates.io link unless it is a path
/// dependency.
pub open spec fn workspace_dependency_links(
    crate_key: Key,
    value: Value,
    target: Option<(Seq<char>, Value)>,
    registries: Seq<(Seq<char>, Seq<char>)>,
    f: Option<DocumentLinkFeatures>,
) -> Seq<LinkView> {
    let links = dependency_links(crate_key.value@, value, target, registries, f);
    if links.len() == 0 {
        if uses_local_path(value) {
            Seq::empty()
        } else {
            crates_io_links(crate_key, value, f)
        }
    } else {
        with_key_links(links, crate_key.range, f)
    }
}

/// The links of an entry of `[workspace.dependencies]`; `path_target` is the manifest
/// that its `path` leads to, from the workspace's directory.
pub fn document_link_for_workspace_dependency(
    crate_key: &Key,
    crate_value: &Value,
    path_target: Option<(&str, &Value)>,
    registries: &[(String, String)],
    features: Option<&DocumentLinkFeatures>,
) -> (r: Vec<DocumentLink>)
    ensures
        links_view(r@) == workspace_dependency_links(
            *crate_key,
            *crate_value,
            loaded_view(path_target),
            registries_view(registries@),
            features_view(features),
        ),
{
    let links = document_link_for_dependency(crate_key, crate_value, path_target, registries, features);
    if links.len() == 0 {
        if dependency_uses_local_path(crate_value) {
            let r: Vec<DocumentLink> = Vec::new();
            assert(links_view(r@) =~= Seq::<LinkView>::empty());
            r
        } else {
            crates_io_link(crate_key, crate_value, features)
        }
    } else {
        add_key_links(links, crate_key.range, features)
    }
}

/// Where the key of a member's dependency that inherits a path dependency of the workspace
/// links to: the line of `package.name` in the manifest that the workspace entry's path
/// leads to, where that name is the entry's `package` or else the key.
pub open spec fn workspace_target_line(crate_key: Seq<char>, value: Value, target: Option<(Seq<char>, Value)>) -> Option<
    (Seq<char>, int),
> {
    if !(value is Table) || string_text(table_get(value, "path"@)) is None {
        None
    } else {
        match target {
            Some((path, document)) => match dig(document, seq!["package"@, "name"@]) {
                Some((name_key, Value::String { value: name, .. })) => {
                    let matches = match string_text(table_get(value, "package"@)) {
                        Some(renamed) => name@ == renamed,
                        None => name@ == crate_key,
                    };
                    if matches {
                        Some((path, line_number(name_key.range.start)))
                    } else {
                        None
                    }
                },
                _ => None,
            },
            None => None,
        }
    }
}

/// Where the key of a member's dependency that inherits a path dependency links to.
fn workspace_dependency_target(crate_key: &str, value: &Value, target: Option<(&str, &Value)>) -> (r: Option<
    LinkTarget,
>)
    ensures
        match workspace_target_line(crate_key@, *value, loaded_view(target)) {
            Some((path, line)) => r matches Some(t) && target_view(t) == TargetView::ManifestLine(path, line),
            None => r is None,
        },
{
    match value {
        Value::Table { .. } => {},
        _ => return None,
    }
    if value.get_string("path").is_none() {
        return None;
    }
    let (path, document) = match target {
        Some(t) => t,
        None => return None,
    };
    let (name_key, name) = match package_name_entry(document) {
        Some(e) => e,
        None => return None,
    };
    let matches = match value.get_string("package") {
        Some(renamed) => str_eq(name.as_str(), renamed.as_str()),
        None => str_eq(name.as_str(), crate_key),
    };
    if matches {
        Some(LinkTarget::ManifestLine { path: String::from_str(path), line: line_of(name_key.range.start) })
    } else {
        None
    }
}

/// The span from the earlier start to the later end of two spans.
pub open spec fn covering(a: Range, b: Range) -> Range {
    Range {
        start: if crate::document::position_le(a.start, b.start) {
            a.start
        } else {
            b.start
        },
        end: if crate::document::position_le(a.end, b.end) {
            b.end
        } else {
            a.end
        },
    }
}

/// The span from the earlier start to the later end of two spans.
pub fn cover(a: Range, b: Range) -> (r: Range)
    ensures
        r == covering(a, b),
{
    let start = if a.start.le(&b.start) {
        a.start
    } else {
        b.start
    };
    let end = if a.end.le(&b.end) {
        b.end
    } else {
        a.end
    };
    Range::new(start, end)
}

/// The links with a `Cargo.toml` or path-file tooltip given `tooltip` instead.
pub open spec fn retitled(links: Seq<LinkView>, tooltip: DocumentLinkToolTip) -> Seq<LinkView> {
    links.map_values(
        |l: LinkView|
            if l.2 == DocumentLinkToolTip::CargoToml || l.2 == DocumentLinkToolTip::PathFile {
                (l.0, l.1, tooltip)
            } else {
                l
            },
    )
}

/// The first of a list of links, where there is one.
pub open spec fn first_link(links: Seq<LinkView>) -> Seq<LinkView> {
    if links.len() > 0 {
        seq![links[0]]
    } else {
        Seq::empty()
    }
}

/// The tooltip of a dependency table's links: its path file, or its `Cargo.toml`.
pub open spec fn table_tooltip(value: Value) -> DocumentLinkToolTip {
    if table_entry(value, "path"@) is Some {
        DocumentLinkToolTip::PathFile
    } else {
        DocumentLinkToolTip::CargoToml
    }
}

/// The links of a member's dependency that says `workspace = true` and that the workspace
/// lists: the link of the workspace entry (to the manifest of a path dependency, where
/// such links are on, or else the first link of the workspace entry), titled after the
/// member's table, then the link of `workspace = true` to the workspace entry's line,
/// where workspace links are on.
pub open spec fn inherited_links(
    crate_key: Key,
    value: Value,
    workspace_key: Key,
    flag_range: Range,
    workspace_value: Value,
    workspace_path: Seq<char>,
    workspace_target: Option<(Seq<char>, Value)>,
    registries: Seq<(Seq<char>, Seq<char>)>,
    f: Option<DocumentLinkFeatures>,
) -> Seq<LinkView> {
    let base = if uses_local_path(workspace_value) {
        if cargo_toml_on(f) {
            match workspace_target_line(crate_key.value@, workspace_value, workspace_target) {
                Some((path, line)) => seq![
                    (TargetView::ManifestLine(path, line), crate_key.range, DocumentLinkToolTip::CargoToml),
                ],
                None => Seq::empty(),
            }
        } else {
            Seq::empty()
        }
    } else {
        first_link(workspace_dependency_links(crate_key, workspace_value, workspace_target, registries, f))
    };
    let titled = retitled(base, table_tooltip(value));
    if workspace_on(f) {
        titled.push(
            (
                TargetView::ManifestLine(workspace_path, line_number(workspace_value.span().start)),
                covering(workspace_key.range, flag_range),
                DocumentLinkToolTip::WorkspaceCargoToml,
            ),
        )
    } else {
        titled
    }
}

/// The links of a dependency of a workspace member: its own links, each preceded by its
/// link on the key; where it has none and inherits an entry of `[workspace.dependencies]`
/// (`workspace = true`), the links of `inherited_links`; else its crates.io link.
pub open spec fn member_dependency_links(
    crate_key: Key,
    value: Value,
    path_target: Option<(Seq<char>, Value)>,
    workspace_dependencies: Option<Value>,
    workspace_path: Seq<char>,
    workspace_target: Option<(Seq<char>, Value)>,
    registries: Seq<(Seq<char>, Seq<char>)>,
    f: Option<DocumentLinkFeatures>,
) -> Seq<LinkView> {
    let links = dependency_links(crate_key.value@, value, path_target, registries, f);
    if links.len() > 0 {
        with_key_links(links, crate_key.range, f)
    } else {
        match workspace_dependencies {
            Some(dependencies) => if value is Table {
                match table_entry(value, "workspace"@) {
                    Some((workspace_key, Value::Boolean { value: true, range: flag_range })) => match table_get(
                        dependencies,
                        crate_key.value@,
                    ) {
                        Some(workspace_value) => inherited_links(
                            crate_key,
                            value,
                            workspace_key,
                            flag_range,
                            workspace_value,
                            workspace_path,
                            workspace_target,
                            registries,
                            f,
                        ),
                        None => crates_io_links(crate_key, value, f),
                    },
                    _ => crates_io_links(crate_key, value, f),
                }
            } else {
                crates_io_links(crate_key, value, f)
            },
            None => crates_io_links(crate_key, value, f),
        }
    }
}

/// Gives the links with a `Cargo.toml` or path-file tooltip the tooltip `tooltip`.
fn retitle(links: &mut Vec<DocumentLink>, tooltip: DocumentLinkToolTip)
    ensures
        links_view(final(links)@) == retitled(links_view(old(links)@), tooltip),
{
    let ghost start = links_view(links@);
    let n = links.len();
    let mut i: usize = 0;
    while i < n
        invariant
            n == links@.len(),
            start.len() == n,
            0 <= i <= n,
            forall|j: int| 0 <= j < i ==> #[trigger] links_view(links@)[j] == retitled(start, tooltip)[j],
            forall|j: int| i <= j < n ==> #[trigger] links_view(links@)[j] == start[j],
        decreases n - i,
    {
        assert(links_view(links@)[i as int] == start[i as int]);
        let ghost before = links@;
        if links[i].tooltip == DocumentLinkToolTip::CargoToml || links[i].tooltip == DocumentLinkToolTip::PathFile {
            let target = copy_target(&links[i].target);
            let range = links[i].range;
            let link = DocumentLink { target, range, tooltip };
            links.set(i, link);
            assert(links@[i as int] == link);
            assert(link_view(link) == (start[i as int].0, start[i as int].1, tooltip));
        } else {
            assert(links@[i as int] == before[i as int]);
        }
        assert(links_view(links@)[i as int] == link_view(links@[i as int]));
        assert(retitled(start, tooltip)[i as int] == (if start[i as int].2 == DocumentLinkToolTip::CargoToml
            || start[i as int].2 == DocumentLinkToolTip::PathFile {
            (start[i as int].0, start[i as int].1, tooltip)
        } else {
            start[i as int]
        }));
        assert(links_view(links@)[i as int] == retitled(start, tooltip)[i as int]);
        assert forall|j: int| 0 <= j < i + 1 implies #[trigger] links_view(links@)[j] == retitled(start, tooltip)[j] by {
            if j < i {
                assert(links@[j] == before[j]);
                assert(links_view(before)[j] == retitled(start, tooltip)[j]);
            }
        }
        assert forall|j: int| i + 1 <= j < n implies #[trigger] links_view(links@)[j] == start[j] by {
            assert(links@[j] == before[j]);
            assert(links_view(before)[j] == start[j]);
        }
        i = i + 1;
    }
    assert(links_view(links@) =~= retitled(start, tooltip));
}

/// The links of a dependency of a workspace member. `path_target` is the manifest that its
/// own `path` leads to; `workspace_dependencies` is the `[workspace.dependencies]` table,
/// `workspace_path` the workspace manifest's path, and `workspace_target` the manifest that
/// the workspace entry's `path` leads to, from the workspace's directory.
pub fn document_link_for_crate_dependency_has_workspace(
    crate_key: &Key,
    crate_value: &Value,
    path_target: Option<(&str, &Value)>,
    workspace_dependencies: Option<&Value>,
    workspace_path: &str,
    workspace_target: Option<(&str, &Value)>,
    registries: &[(String, String)],
    features: Option<&DocumentLinkFeatures>,
) -> (r: Vec<DocumentLink>)
    ensures
        links_view(r@) == member_dependency_links(
            *crate_key,
            *crate_value,
            loaded_view(path_target),
            match workspace_dependencies {
                Some(d) => Some(*d),
                None => None,
            },
            workspace_path@,
            loaded_view(workspace_target),
            registries_view(registries@),
            features_view(features),
        ),
{
    let links = document_link_for_dependency(crate_key, crate_value, path_target, registries, features);
    if links.len() > 0 {
        return add_key_links(links, crate_key.range, features);
    }
    let dependencies = match workspace_dependencies {
        Some(d) => d,
        None => return crates_io_link(crate_key, crate_value, features),
    };
    match crate_value {
        Value::Table { .. } => {},
        _ => return crates_io_link(crate_key, crate_value, features),
    }
    let (workspace_key, flag_range) = match crate_value.get_key_value("workspace") {
        Some((k, Value::Boolean { value: true, range })) => (k, *range),
        _ => return crates_io_link(crate_key, crate_value, features),
    };
    let workspace_value = match dependencies.get(crate_key.value.as_str()) {
        Some(v) => v,
        None => return crates_io_link(crate_key, crate_value, features),
    };
    let ghost f = features_view(features);
    let ghost base_view = if uses_local_path(*workspace_value) {
        if cargo_toml_on(f) {
            match workspace_target_line(crate_key.value@, *workspace_value, loaded_view(workspace_target)) {
                Some((path, line)) => seq![
                    (TargetView::ManifestLine(path, line), crate_key.range, DocumentLinkToolTip::CargoToml),
                ],
                None => Seq::empty(),
            }
        } else {
            Seq::empty()
        }
    } else {
        first_link(
            workspace_dependency_links(
                *crate_key,
                *workspace_value,
                loaded_view(workspace_target),
                registries_view(registries@),
                f,
            ),
        )
    };
    let mut result: Vec<DocumentLink> = if dependency_uses_local_path(workspace_value) {
        let mut base: Vec<DocumentLink> = Vec::new();
        if cargo_toml_document_link_enabled(features) {
            match workspace_dependency_target(crate_key.value.as_str(), workspace_value, workspace_target) {
                Some(target) => {
                    base.push(DocumentLink { target, range: crate_key.range, tooltip: DocumentLinkToolTip::CargoToml });
                },
                None => {},
            }
        }
        assert(links_view(base@) =~= base_view);
        base
    } else {
        let all = document_link_for_workspace_dependency(crate_key, workspace_value, workspace_target, registries, features);
        let mut base: Vec<DocumentLink> = Vec::new();
        if all.len() > 0 {
            let first = &all[0];
            base.push(DocumentLink { target: copy_target(&first.target), range: first.range, tooltip: first.tooltip });
            assert(link_view(base@[0]) == link_view(all@[0]));
        }
        assert(links_view(base@) =~= first_link(links_view(all@)));
        base
    };
    assert(links_view(result@) == base_view);
    let tooltip = crate::cargo_document_link::dependency_table_tooltip(crate_value);
    retitle(&mut result, tooltip);
    assert(links_view(result@) == retitled(base_view, table_tooltip(*crate_value)));
    if crate::cargo_document_link::workspace_document_link_enabled(features) {
        let ghost before = links_view(result@);
        result.push(
            DocumentLink {
                target: LinkTarget::ManifestLine {
                    path: String::from_str(workspace_path),
                    line: line_of(workspace_value.range().start),
                },
                range: cover(workspace_key.range, flag_range),
                tooltip: DocumentLinkToolTip::WorkspaceCargoToml,
            },
        );
        assert(links_view(result@) =~= before.push(
            (
                TargetView::ManifestLine(workspace_path@, line_number(workspace_value.span().start)),
                covering(workspace_key.range, flag_range),
                DocumentLinkToolTip::WorkspaceCargoToml,
            ),
        ));
    }
    assert(links_view(result@) =~= inherited_links(
        *crate_key,
        *crate_value,
        *workspace_key,
        flag_range,
        *workspace_value,
        workspace_path@,
        loaded_view(workspace_target),
        registries_view(registries@),
        f,
    ));
    result
}

/// The entries of a table value; none for anything else.
pub open spec fn table_entries(value: Option<Value>) -> Seq<(Key, Value)> {
    match value {
        Some(Value::Table { entries, .. }) => entries@,
        _ => Seq::empty(),
    }
}

/// The entries of the `kind` tables of the platforms of `[target]`, platform after platform.
pub open spec fn platform_entries(platforms: Seq<(Key, Value)>, kind: Seq<char>) -> Seq<(Key, Value)>
    decreases platforms.len(),
{
    if platforms.len() == 0 {
        Seq::empty()
    } else {
        platform_entries(platforms.drop_last(), kind) + match platforms.last().1 {
            Value::Table { .. } => table_entries(table_get(platforms.last().1, kind)),
            _ => Seq::empty(),
        }
    }
}

/// The dependency entries of one kind: those of the top-level table, then those of each
/// platform of `[target]`.
pub open spec fn kind_entries(document: Value, kind: Seq<char>) -> Seq<(Key, Value)> {
    table_entries(table_get(document, kind)) + platform_entries(table_entries(table_get(document, "target"@)), kind)
}

/// All dependency entries of a manifest: the normal ones, then the dev ones, then the
/// build ones.
pub open spec fn total_dependencies(document: Value) -> Seq<(Key, Value)> {
    kind_entries(document, "dependencies"@) + kind_entries(document, "dev-dependencies"@) + kind_entries(
        document,
        "build-dependencies"@,
    )
}

pub open spec fn entries_view<'a>(v: Seq<(&'a Key, &'a Value)>) -> Seq<(Key, Value)> {
    v.map_values(|p: (&'a Key, &'a Value)| (*p.0, *p.1))
}

/// Appends the entries of a table value.
fn push_entries<'a>(value: Option<&'a Value>, out: &mut Vec<(&'a Key, &'a Value)>)
    ensures
        entries_view(final(out)@) == entries_view(old(out)@) + table_entries(
            match value {
                Some(v) => Some(*v),
                None => None,
            },
        ),
{
    let ghost start = entries_view(out@);
    match value {
        Some(Value::Table { entries, .. }) => {
            let n = entries.len();
            let mut i: usize = 0;
            while i < n
                invariant
                    n == entries@.len(),
                    0 <= i <= n,
                    entries_view(out@) == start + entries@.take(i as int),
                decreases n - i,
            {
                let ghost before = entries_view(out@);
                out.push((&entries[i].0, &entries[i].1));
                assert(entries_view(out@) =~= before.push(entries@[i as int]));
                assert(entries@.take(i + 1) =~= entries@.take(i as int).push(entries@[i as int]));
                i = i + 1;
            }
            assert(entries@.take(n as int) =~= entries@);
        },
        _ => {
            assert(start + Seq::<(Key, Value)>::empty() =~= start);
        },
    }
}

/// Appends the dependency entries of one kind.
fn push_kind_entries<'a>(document: &'a Value, kind: &str, out: &mut Vec<(&'a Key, &'a Value)>)
    ensures
        entries_view(final(out)@) == entries_view(old(out)@) + kind_entries(*document, kind@),
{
    let ghost start = entries_view(out@);
    push_entries(document.get(kind), out);
    let ghost after_top = entries_view(out@);
    match document.get("target") {
        Some(Value::Table { entries, .. }) => {
            let n = entries.len();
            let mut i: usize = 0;
            assert(platform_entries(entries@.take(0), kind@) =~= Seq::<(Key, Value)>::empty());
            while i < n
                invariant
                    n == entries@.len(),
                    0 <= i <= n,
                    entries_view(out@) == after_top + platform_entries(entries@.take(i as int), kind@),
                decreases n - i,
            {
                assert(entries@.take(i + 1).drop_last() =~= entries@.take(i as int));
                assert(entries@.take(i + 1).last() == entries@[i as int]);
                let platform = &entries[i].1;
                match platform {
                    Value::Table { .. } => push_entries(platform.get(kind), out),
                    _ => {},
                }
                assert(entries_view(out@) =~= after_top + platform_entries(entries@.take(i + 1), kind@));
                i = i + 1;
            }
            assert(entries@.take(n as int) =~= entries@);
        },
        _ => {},
    }
    assert(entries_view(out@) =~= start + kind_entries(*document, kind@));
}

/// All dependency entries of a manifest, in the order of `total_dependencies`.
pub fn collect_total_dependencies<'a>(document: &'a Value) -> (r: Vec<(&'a Key, &'a Value)>)
    ensures
        entries_view(r@) == total_dependencies(*document),
{
    let mut out: Vec<(&'a Key, &'a Value)> = Vec::new();
    assert(entries_view(out@) =~= Seq::<(Key, Value)>::empty());
    push_kind_entries(document, "dependencies", &mut out);
    push_kind_entries(document, "dev-dependencies", &mut out);
    push_kind_entries(document, "build-dependencies", &mut out);
    assert(entries_view(out@) =~= total_dependencies(*document));
    out
}

/// The link of a `workspace = <bool>` flag at `flag_path` of the member to the line of
/// the entry at `entry_path` of the workspace manifest, where both exist.
pub open spec fn flag_link(
    document: Value,
    flag_path: Seq<Seq<char>>,
    workspace_document: Value,
    entry_path: Seq<Seq<char>>,
    workspace_path: Seq<char>,
) -> Seq<LinkView> {
    match (dig(document, flag_path), dig(workspace_document, entry_path)) {
        (Some((flag_key, Value::Boolean { range, .. })), Some((entry_key, _))) => seq![
            (
                TargetView::ManifestLine(workspace_path, line_number(entry_key.range.start)),
                covering(flag_key.range, range),
                DocumentLinkToolTip::WorkspaceCargoToml,
            ),
        ],
        _ => Seq::empty(),
    }
}

/// The links of the `[package]` fields among `items` that inherit from the workspace, in
/// the order of `items`.
pub open spec fn package_item_links(
    document: Value,
    workspace_document: Value,
    workspace_path: Seq<char>,
    items: Seq<Seq<char>>,
) -> Seq<LinkView>
    decreases items.len(),
{
    if items.len() == 0 {
        Seq::empty()
    } else {
        package_item_links(document, workspace_document, workspace_path, items.drop_last()) + flag_link(
            document,
            seq!["package"@, items.last(), "workspace"@],
            workspace_document,
            seq!["workspace"@, "package"@, items.last()],
            workspace_path,
        )
    }
}

/// The links of a member manifest to its workspace manifest: `package.workspace` to the
/// workspace manifest, where links to manifests are on; then, where workspace links are
/// on, each inherited `[package]` field and `lints.workspace` to the line of what they
/// inherit.
pub open spec fn workspace_links(
    document: Value,
    workspace_document: Value,
    workspace_path: Seq<char>,
    f: Option<DocumentLinkFeatures>,
) -> Seq<LinkView> {
    let manifest_link = if cargo_toml_on(f) {
        match dig(document, seq!["package"@, "workspace"@]) {
            Some((_, Value::String { range, .. })) => seq![
                (TargetView::Manifest(workspace_path), inside_quotes(range), DocumentLinkToolTip::WorkspaceCargoToml),
            ],
            _ => Seq::empty(),
        }
    } else {
        Seq::empty()
    };
    let item_links = if workspace_on(f) {
        package_item_links(document, workspace_document, workspace_path, crate::inlay::workspace_package_items())
    } else {
        Seq::empty()
    };
    let lints_link = if workspace_on(f) {
        flag_link(document, seq!["lints"@, "workspace"@], workspace_document, seq!["workspace"@, "lints"@], workspace_path)
    } else {
        Seq::empty()
    };
    manifest_link + item_links + lints_link
}

/// Appends the link of a `workspace = <bool>` flag; see `flag_link`.
fn push_flag_link(
    document: &Value,
    flag_path: &[&str],
    workspace_document: &Value,
    entry_path: &[&str],
    workspace_path: &str,
    out: &mut Vec<DocumentLink>,
)
    ensures
        links_view(final(out)@) == links_view(old(out)@) + flag_link(
            *document,
            crate::document::key_views(flag_path@),
            *workspace_document,
            crate::document::key_views(entry_path@),
            workspace_path@,
        ),
{
    let ghost start = links_view(out@);
    match (crate::document::dig_keys(document, flag_path), crate::document::dig_keys(workspace_document, entry_path)) {
        (Some((flag_key, Value::Boolean { range, .. })), Some((entry_key, _))) => {
            out.push(
                DocumentLink {
                    target: LinkTarget::ManifestLine { path: String::from_str(workspace_path), line: line_of(entry_key.range.start) },
                    range: cover(flag_key.range, *range),
                    tooltip: DocumentLinkToolTip::WorkspaceCargoToml,
                },
            );
        },
        _ => {},
    }
    assert(links_view(out@) =~= start + flag_link(
        *document,
        crate::document::key_views(flag_path@),
        *workspace_document,
        crate::document::key_views(entry_path@),
        workspace_path@,
    ));
}

/// The links of a member manifest to its workspace manifest at `workspace_path`.
pub fn workspace_document_links(
    document: &Value,
    workspace_document: &Value,
    workspace_path: &str,
    features: Option<&DocumentLinkFeatures>,
) -> (r: Vec<DocumentLink>)
    ensures
        links_view(r@) == workspace_links(*document, *workspace_document, workspace_path@, features_view(features)),
{
    let ghost f = features_view(features);
    let mut out: Vec<DocumentLink> = Vec::new();
    if cargo_toml_document_link_enabled(features) {
        let keys = ["package", "workspace"];
        assert(crate::document::key_views(keys@) =~= seq!["package"@, "workspace"@]);
        match crate::document::dig_keys(document, &keys) {
            Some((_, Value::String { range, .. })) => {
                out.push(
                    DocumentLink {
                        target: LinkTarget::Manifest(String::from_str(workspace_path)),
                        range: unquoted_range(*range),
                        tooltip: DocumentLinkToolTip::WorkspaceCargoToml,
                    },
                );
            },
            _ => {},
        }
    }
    let ghost manifest_link = links_view(out@);
    if crate::cargo_document_link::workspace_document_link_enabled(features) {
        let items = crate::inlay::workspace_package_item_list();
        let ghost all = crate::inlay::workspace_package_items();
        let n = items.len();
        let mut i: usize = 0;
        assert(manifest_link + package_item_links(*document, *workspace_document, workspace_path@, all.take(0))
            =~= manifest_link);
        while i < n
            invariant
                n == items@.len(),
                items@.map_values(|s: &str| s@) == all,
                0 <= i <= n,
                links_view(out@) == manifest_link + package_item_links(
                    *document,
                    *workspace_document,
                    workspace_path@,
                    all.take(i as int),
                ),
            decreases n - i,
        {
            assert(all.take(i + 1).drop_last() =~= all.take(i as int));
            assert(all.take(i + 1).last() == items@[i as int]@);
            let flag_path = ["package", items[i], "workspace"];
            let entry_path = ["workspace", "package", items[i]];
            assert(crate::document::key_views(flag_path@) =~= seq!["package"@, items@[i as int]@, "workspace"@]);
            assert(crate::document::key_views(entry_path@) =~= seq!["workspace"@, "package"@, items@[i as int]@]);
            push_flag_link(document, &flag_path, workspace_document, &entry_path, workspace_path, &mut out);
            assert(links_view(out@) =~= manifest_link + package_item_links(
                *document,
                *workspace_document,
                workspace_path@,
                all.take(i + 1),
            ));
            i = i + 1;
        }
        assert(all.take(n as int) =~= all);
        let flag_path = ["lints", "workspace"];
        let entry_path = ["workspace", "lints"];
        assert(crate::document::key_views(flag_path@) =~= seq!["lints"@, "workspace"@]);
        assert(crate::document::key_views(entry_path@) =~= seq!["workspace"@, "lints"@]);
        push_flag_link(document, &flag_path, workspace_document, &entry_path, workspace_path, &mut out);
    }
    assert(links_view(out@) =~= workspace_links(*document, *workspace_document, workspace_path@, f));
    out
}

/// The links of the `path` strings of the `[[bin]]` targets among `values`.
pub open spec fn bin_links(values: Seq<Value>) -> Seq<LinkView>
    decreases values.len(),
{
    if values.len() == 0 {
        Seq::empty()
    } else {
        bin_links(values.drop_last()) + match values.last() {
            Value::Table { .. } => match table_get(values.last(), "path"@) {
                Some(Value::String { value, range }) => seq![
                    (TargetView::RelativeFile(value@), inside_quotes(range), DocumentLinkToolTip::PathFile),
                ],
                _ => Seq::empty(),
            },
            _ => Seq::empty(),
        }
    }
}

/// The links of the `path` strings of the `[[bin]]` targets of a manifest, to files named
/// relative to its directory.
pub fn document_link_for_bin_targets(document: &Value) -> (r: Vec<DocumentLink>)
    ensures
        links_view(r@) == match table_get(*document, "bin"@) {
            Some(Value::Array { values, .. }) => bin_links(values@),
            _ => Seq::empty(),
        },
{
    let mut out: Vec<DocumentLink> = Vec::new();
    let values = match document.get("bin") {
        Some(Value::Array { values, .. }) => values,
        _ => {
            assert(links_view(out@) =~= Seq::<LinkView>::empty());
            return out;
        },
    };
    let n = values.len();
    let mut i: usize = 0;
    assert(links_view(out@) =~= bin_links(values@.take(0)));
    while i < n
        invariant
            n == values@.len(),
            0 <= i <= n,
            links_view(out@) == bin_links(values@.take(i as int)),
        decreases n - i,
    {
        assert(values@.take(i + 1).drop_last() =~= values@.take(i as int));
        assert(values@.take(i + 1).last() == values@[i as int]);
        let item = &values[i];
        let ghost before = links_view(out@);
        match item {
            Value::Table { .. } => match item.get("path") {
                Some(Value::String { value, range }) => {
                    out.push(
                        DocumentLink {
                            target: LinkTarget::RelativeFile(value.clone()),
                            range: unquoted_range(*range),
                            tooltip: DocumentLinkToolTip::PathFile,
                        },
                    );
                },
                _ => {},
            },
            _ => {},
        }
        assert(links_view(out@) =~= bin_links(values@.take(i + 1)));
        i = i + 1;
    }
    assert(values@.take(n as int) =~= values@);
    out
}

/// A manifest that the caller loaded and handed over: its path and its document.
pub open spec fn owned_view(m: Option<(String, Value)>) -> Option<(Seq<char>, Value)> {
    match m {
        Some((path, document)) => Some((path@, document)),
        None => None,
    }
}

/// The links of the dependencies `deps` of a manifest outside any workspace, one entry
/// after another; `targets[i]` is the manifest that the path of the `i`-th entry leads to.
pub open spec fn plain_dependency_links(
    deps: Seq<(Key, Value)>,
    targets: Seq<Option<(String, Value)>>,
    registries: Seq<(Seq<char>, Seq<char>)>,
    f: Option<DocumentLinkFeatures>,
) -> Seq<LinkView>
    decreases deps.len(),
{
    if deps.len() == 0 {
        Seq::empty()
    } else {
        plain_dependency_links(deps.drop_last(), targets, registries, f) + dependency_links(
            deps.last().0.value@,
            deps.last().1,
            owned_view(targets[deps.len() - 1]),
            registries,
            f,
        )
    }
}

/// The `[workspace.dependencies]` table of a workspace manifest, where it has one.
pub open spec fn workspace_dependencies_of(workspace_document: Value) -> Option<Value> {
    match dig(workspace_document, seq!["workspace"@, "dependencies"@]) {
        Some((_, v)) => if v is Table {
            Some(v)
        } else {
            None
        },
        None => None,
    }
}

/// The links of the dependencies `deps` of a workspace member, one entry after another;
/// `targets[i]` is the manifest that the path of the `i`-th entry leads to and
/// `workspace_targets[i]` the one that the path of its workspace entry leads to.
pub open spec fn member_dependencies_links(
    deps: Seq<(Key, Value)>,
    targets: Seq<Option<(String, Value)>>,
    workspace_document: Value,
    workspace_path: Seq<char>,
    workspace_targets: Seq<Option<(String, Value)>>,
    registries: Seq<(Seq<char>, Seq<char>)>,
    f: Option<DocumentLinkFeatures>,
) -> Seq<LinkView>
    decreases deps.len(),
{
    if deps.len() == 0 {
        Seq::empty()
    } else {
        member_dependencies_links(
            deps.drop_last(),
            targets,
            workspace_document,
            workspace_path,
            workspace_targets,
            registries,
            f,
        ) + member_dependency_links(
            deps.last().0,
            deps.last().1,
            owned_view(targets[deps.len() - 1]),
            workspace_dependencies_of(workspace_document),
            workspace_path,
            owned_view(workspace_targets[deps.len() - 1]),
            registries,
            f,
        )
    }
}

/// The links of the `[[bin]]` targets of a manifest.
pub open spec fn bin_target_links(document: Value) -> Seq<LinkView> {
    match table_get(document, "bin"@) {
        Some(Value::Array { values, .. }) => bin_links(values@),
        _ => Seq::empty(),
    }
}

/// The links of a package manifest at `path`: where it belongs to a workspace (`workspace`
/// holds that manifest's path and document), its links to the workspace manifest and then
/// those of its dependencies as a member; else those of its dependencies alone. Then, where
/// path links are on, those of its `[[bin]]` targets; last, those of its feature names.
pub open spec fn crate_manifest_links(
    document: Value,
    path: Seq<char>,
    workspace: Option<(Seq<char>, Value)>,
    registries: Seq<(Seq<char>, Seq<char>)>,
    targets: Seq<Option<(String, Value)>>,
    workspace_targets: Seq<Option<(String, Value)>>,
    manifests: Seq<DependencyManifest>,
    f: Option<DocumentLinkFeatures>,
) -> Seq<LinkView> {
    crate_manifest_dependency_links(document, workspace, registries, targets, workspace_targets, f)
        + feature_table_string_links(document, path, manifests, f) + crate_dependency_feature_links(
        document,
        manifests,
        f,
    )
}

/// The links of a package manifest but those of its feature names; see
/// `crate_manifest_links`.
pub open spec fn crate_manifest_dependency_links(
    document: Value,
    workspace: Option<(Seq<char>, Value)>,
    registries: Seq<(Seq<char>, Seq<char>)>,
    targets: Seq<Option<(String, Value)>>,
    workspace_targets: Seq<Option<(String, Value)>>,
    f: Option<DocumentLinkFeatures>,
) -> Seq<LinkView> {
    let deps = total_dependencies(document);
    let main = match workspace {
        Some((workspace_path, workspace_document)) => workspace_links(
            document,
            workspace_document,
            workspace_path,
            f,
        ) + member_dependencies_links(
            deps,
            targets,
            workspace_document,
            workspace_path,
            workspace_targets,
            registries,
            f,
        ),
        None => plain_dependency_links(deps, targets, registries, f),
    };
    if path_on(f) {
        main + bin_target_links(document)
    } else {
        main
    }
}

/// A loaded manifest, borrowed.
fn as_loaded(m: &Option<(String, Value)>) -> (r: Option<(&str, &Value)>)
    ensures
        loaded_view(r) == owned_view(*m),
{
    match m {
        Some((path, document)) => Some((path.as_str(), document)),
        None => None,
    }
}

/// The links of the package manifest at `path` (see `crate_manifest_links`). The caller
/// loads what the links lead to: `workspace` is the workspace manifest (its path and
/// document), where the package belongs to one; `registries` the registries of the cargo
/// configuration that applies; for the `i`-th entry of `collect_total_dependencies`,
/// `path_targets[i]` the manifest that its `path` leads to and `workspace_targets[i]` the
/// one that the `path` of its workspace entry leads to; and `manifests` the manifests of
/// the dependencies that it found, each with the keys of its entry.
pub fn document_link_for_crate_cargo_toml(
    document: &Value,
    path: &str,
    workspace: Option<(&str, &Value)>,
    registries: &[(String, String)],
    path_targets: &[Option<(String, Value)>],
    workspace_targets: &[Option<(String, Value)>],
    manifests: &[DependencyManifest],
    features: Option<&DocumentLinkFeatures>,
) -> (r: Vec<DocumentLink>)
    requires
        path_targets@.len() == total_dependencies(*document).len(),
        workspace_targets@.len() == total_dependencies(*document).len(),
    ensures
        links_view(r@) == crate_manifest_links(
            *document,
            path@,
            loaded_view(workspace),
            registries_view(registries@),
            path_targets@,
            workspace_targets@,
            manifests@,
            features_view(features),
        ),
{
    let ghost f = features_view(features);
    let ghost regs = registries_view(registries@);
    let deps = collect_total_dependencies(document);
    let ghost all = total_dependencies(*document);
    let n = deps.len();
    assert(entries_view(deps@).len() == n);
    let mut out: Vec<DocumentLink> = Vec::new();
    match workspace {
        Some((workspace_path, workspace_document)) => {
            out = workspace_document_links(document, workspace_document, workspace_path, features);
            let ghost head = links_view(out@);
            let workspace_dependencies = match crate::document::dig_keys(
                workspace_document,
                &["workspace", "dependencies"],
            ) {
                Some((_, v)) => match v {
                    Value::Table { .. } => Some(v),
                    _ => None,
                },
                None => None,
            };
            proof {
                let keys = seq!["workspace"@, "dependencies"@];
                assert(crate::document::key_views(["workspace", "dependencies"]@) =~= keys);
            }
            let ghost wdeps = match workspace_dependencies {
                Some(d) => Some(*d),
                None => None,
            };
            assert(wdeps == workspace_dependencies_of(*workspace_document));
            let mut i: usize = 0;
            assert(all.take(0) =~= Seq::<(Key, Value)>::empty());
            assert(links_view(out@) =~= head + member_dependencies_links(
                all.take(0),
                path_targets@,
                *workspace_document,
                workspace_path@,
                workspace_targets@,
                regs,
                f,
            ));
            while i < n
                invariant
                    n == deps@.len(),
                    entries_view(deps@) == all,
                    all == total_dependencies(*document),
                    path_targets@.len() == n,
                    workspace_targets@.len() == n,
                    wdeps == workspace_dependencies_of(*workspace_document),
                    wdeps == match workspace_dependencies {
                        Some(d) => Some(*d),
                        None => None::<Value>,
                    },
                    f == features_view(features),
                    regs == registries_view(registries@),
                    0 <= i <= n,
                    links_view(out@) == head + member_dependencies_links(
                        all.take(i as int),
                        path_targets@,
                        *workspace_document,
                        workspace_path@,
                        workspace_targets@,
                        regs,
                        f,
                    ),
                decreases n - i,
            {
                let (key, value) = deps[i];
                assert(all[i as int] == (*key, *value));
                assert(all.take(i + 1).drop_last() =~= all.take(i as int));
                assert(all.take(i + 1).last() == all[i as int]);
                let mut links = document_link_for_crate_dependency_has_workspace(
                    key,
                    value,
                    as_loaded(&path_targets[i]),
                    workspace_dependencies,
                    workspace_path,
                    as_loaded(&workspace_targets[i]),
                    registries,
                    features,
                );
                let ghost before = links_view(out@);
                let ghost added = links_view(links@);
                out.append(&mut links);
                assert(links_view(out@) =~= before + added);
                assert(links_view(out@) =~= head + member_dependencies_links(
                    all.take(i + 1),
                    path_targets@,
                    *workspace_document,
                    workspace_path@,
                    workspace_targets@,
                    regs,
                    f,
                ));
                i = i + 1;
            }
            assert(all.take(n as int) =~= all);
        },
        None => {
            let mut i: usize = 0;
            assert(all.take(0) =~= Seq::<(Key, Value)>::empty());
            assert(links_view(out@) =~= plain_dependency_links(all.take(0), path_targets@, regs, f));
            while i < n
                invariant
                    n == deps@.len(),
                    entries_view(deps@) == all,
                    path_targets@.len() == n,
                    f == features_view(features),
                    regs == registries_view(registries@),
                    0 <= i <= n,
                    links_view(out@) == plain_dependency_links(all.take(i as int), path_targets@, regs, f),
                decreases n - i,
            {
                let (key, value) = deps[i];
                assert(all[i as int] == (*key, *value));
                assert(all.take(i + 1).drop_last() =~= all.take(i as int));
                assert(all.take(i + 1).last() == all[i as int]);
                let mut links = document_link_for_dependency(key, value, as_loaded(&path_targets[i]), registries, features);
                let ghost before = links_view(out@);
                let ghost added = links_view(links@);
                out.append(&mut links);
                assert(links_view(out@) =~= before + added);
                assert(links_view(out@) =~= plain_dependency_links(all.take(i + 1), path_targets@, regs, f));
                i = i + 1;
            }
            assert(all.take(n as int) =~= all);
        },
    }
    if path_document_link_enabled(features) {
        let mut bins = document_link_for_bin_targets(document);
        let ghost before = links_view(out@);
        let ghost added = links_view(bins@);
        out.append(&mut bins);
        assert(links_view(out@) =~= before + added);
    }
    let ghost main = links_view(out@);
    let mut strings = document_link_for_feature_table_strings(document, path, manifests, features);
    let mut dependency_features = document_link_for_crate_dependency_features(document, manifests, features);
    let ghost a = links_view(strings@);
    let ghost b = links_view(dependency_features@);
    out.append(&mut strings);
    out.append(&mut dependency_features);
    assert(links_view(out@) =~= main + a + b);
    out
}

} // verus!
