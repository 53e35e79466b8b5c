//! Navigation between the features of `Cargo.toml` files: what a feature string of
//! `[features]` refers to (`name`, `dep:name`, `dep/feature`, `dep?/feature`), where a
//! feature or an optional dependency is declared, and which strings use them.
//!
//! Only what one manifest says is decided here; where a reference leads into the manifest
//! of another package, the caller loads that manifest and asks again.

use vstd::prelude::*;
use vstd::string::StringExecFns;

use crate::accessor::{dig_accessors, dig_path, matches_accessors, matches_pattern, pattern_view, Accessor};
use crate::document::{dig, dig_value, key_views, string_text, table_entry, table_get, Key, Range, Value};
use crate::text::{first_index, lemma_first_index, str_eq};

verus! {

/// What a feature string refers to.
#[derive(Debug, Clone, Copy, PartialEq, Eq)]
pub enum CargoFeatureRef<'a> {
    /// Another feature of the same package.
    LocalFeature(&'a str),
    /// An optional dependency (`dep:name`).
    OptionalDependency(&'a str),
    /// A feature of a dependency (`dep/feature`; weak where written `dep?/feature`).
    DependencyFeature { dep_key: &'a str, feature: &'a str, weak: bool },
}

/// A feature reference as plain text.
pub enum FeatureRefView {
    LocalFeature(Seq<char>),
    OptionalDependency(Seq<char>),
    DependencyFeature(Seq<char>, Seq<char>, bool),
}

pub open spec fn feature_ref_view(r: CargoFeatureRef) -> FeatureRefView {
    match r {
        CargoFeatureRef::LocalFeature(n) => FeatureRefView::LocalFeature(n@),
        CargoFeatureRef::OptionalDependency(n) => FeatureRefView::OptionalDependency(n@),
        CargoFeatureRef::DependencyFeature { dep_key, feature, weak } => FeatureRefView::DependencyFeature(
            dep_key@,
            feature@,
            weak,
        ),
    }
}

/// Whether `?/` starts at position `i` of `s`.
pub open spec fn weak_separator_at(s: Seq<char>, i: int) -> bool {
    0 <= i && i + 1 < s.len() && s[i] == '?' && s[i + 1] == '/'
}

/// Where the first `?/` of `s` starts.
pub open spec fn first_weak_separator(s: Seq<char>) -> Option<int> {
    if exists|i: int| weak_separator_at(s, i) {
        Some(
            choose|i: int|
                weak_separator_at(s, i) && forall|j: int| 0 <= j < i ==> !weak_separator_at(s, j),
        )
    } else {
        None
    }
}

/// What a feature string refers to: `dep:` and a name is an optional dependency; text
/// around the first `?/`, else around the first `/`, is a dependency and one of its
/// features; anything else is a feature of the same package.
pub open spec fn feature_ref_of(s: Seq<char>) -> FeatureRefView {
    if s.len() >= 4 && s.take(4) == "dep:"@ {
        FeatureRefView::OptionalDependency(s.skip(4))
    } else {
        match first_weak_separator(s) {
            Some(i) => FeatureRefView::DependencyFeature(s.take(i), s.skip(i + 2), true),
            None => if first_index(s, '/') >= 0 {
                FeatureRefView::DependencyFeature(s.take(first_index(s, '/')), s.skip(first_index(s, '/') + 1), false)
            } else {
                FeatureRefView::LocalFeature(s)
            },
        }
    }
}

/// Where the first `?/` of `value` starts.
fn find_weak_separator(value: &str) -> (r: Option<usize>)
    ensures
        match first_weak_separator(value@) {
            Some(i) => r matches Some(j) && j as int == i,
            None => r is None,
        },
        r matches Some(i) ==> weak_separator_at(value@, i as int),
{
    let ghost s = value@;
    let n = value.unicode_len();
    let mut i: usize = 0;
    while i < n && i + 1 < n
        invariant
            s == value@,
            n == s.len(),
            0 <= i,
            i <= n,
            forall|j: int| 0 <= j < i ==> !weak_separator_at(s, j),
        decreases n - i,
    {
        if value.get_char(i) == '?' && value.get_char(i + 1) == '/' {
            assert(weak_separator_at(s, i as int));
            let ghost k = choose|k: int| weak_separator_at(s, k) && forall|j: int| 0 <= j < k ==> !weak_separator_at(s, j);
            assert(k == i) by {
                if k < i {
                    assert(!weak_separator_at(s, k));
                } else if k > i {
                    assert(!weak_separator_at(s, i as int));
                }
            };
            return Some(i);
        }
        i = i + 1;
    }
    assert(forall|j: int| !weak_separator_at(s, j)) by {
        assert forall|j: int| !weak_separator_at(s, j) by {
            if 0 <= j && j + 1 < s.len() {
                assert(j < i);
            }
        }
    };
    None
}

/// Whether `value` starts with `dep:`.
fn has_dep_prefix(value: &str) -> (r: bool)
    ensures
        r == (value@.len() >= 4 && value@.take(4) == "dep:"@),
{
    let n = value.unicode_len();
    if n < 4 {
        return false;
    }
    let head = value.substring_char(0, 4);
    assert(head@ =~= value@.take(4));
    str_eq(head, "dep:")
}

/// What a feature string refers to; see `feature_ref_of`.
#[verifier::rlimit(40)]
pub fn parse_cargo_feature_ref(value: &str) -> (r: CargoFeatureRef<'_>)
    ensures
        feature_ref_view(r) == feature_ref_of(value@),
{
    let n = value.unicode_len();
    if has_dep_prefix(value) {
        let rest = value.substring_char(4, n);
        assert(rest@ =~= value@.skip(4));
        return CargoFeatureRef::OptionalDependency(rest);
    }
    match find_weak_separator(value) {
        Some(i) => {
            let dep_key = value.substring_char(0, i);
            let feature = value.substring_char(i + 2, n);
            assert(dep_key@ =~= value@.take(i as int));
            assert(feature@ =~= value@.skip(i + 2));
            return CargoFeatureRef::DependencyFeature { dep_key, feature, weak: true };
        },
        None => {},
    }
    proof {
        lemma_first_index(value@, '/');
    }
    match crate::text::find_char(value, '/') {
        Some(i) => {
            let dep_key = value.substring_char(0, i);
            let feature = value.substring_char(i + 1, n);
            assert(dep_key@ =~= value@.take(i as int));
            assert(feature@ =~= value@.skip(i + 1));
            CargoFeatureRef::DependencyFeature { dep_key, feature, weak: false }
        },
        None => CargoFeatureRef::LocalFeature(value),
    }
}

/// The dependency tables of a package, in the order they are searched.
pub open spec fn dependency_kinds() -> Seq<Seq<char>> {
    seq!["dependencies"@, "dev-dependencies"@, "build-dependencies"@]
}

/// The dependency tables of a package.
fn dependency_kind_list() -> (r: Vec<&'static str>)
    ensures
        r@.map_values(|s: &str| s@) == dependency_kinds(),
{
    let r = vec!["dependencies", "dev-dependencies", "build-dependencies"];
    assert(r@.map_values(|s: &str| s@) =~= dependency_kinds());
    r
}

/// The first dependency table among `kinds` of `table` that lists `dep_key`.
pub open spec fn first_kind_listing(table: Value, kinds: Seq<Seq<char>>, dep_key: Seq<char>) -> Option<Seq<char>>
    decreases kinds.len(),
{
    if kinds.len() == 0 {
        None
    } else if dig(table, seq![kinds[0], dep_key]) is Some {
        Some(kinds[0])
    } else {
        first_kind_listing(table, kinds.drop_first(), dep_key)
    }
}

/// The first platform of `[target]`, with the dependency table of it, that lists `dep_key`.
pub open spec fn first_platform_listing(platforms: Seq<(Key, Value)>, dep_key: Seq<char>) -> Option<(Seq<char>, Seq<char>)>
    decreases platforms.len(),
{
    if platforms.len() == 0 {
        None
    } else {
        let (platform_key, platform) = platforms[0];
        match (platform is Table, first_kind_listing(platform, dependency_kinds(), dep_key)) {
            (true, Some(kind)) => Some((platform_key.value@, kind)),
            _ => first_platform_listing(platforms.drop_first(), dep_key),
        }
    }
}

/// Where a package that is not the workspace root declares the dependency `dep_key`: the
/// first of its dependency tables that lists it, else the first platform of `[target]`
/// (with the first of its dependency tables) that does.
pub open spec fn dependency_entry_path(document: Value, dep_key: Seq<char>) -> Option<Seq<Seq<char>>> {
    match first_kind_listing(document, dependency_kinds(), dep_key) {
        Some(kind) => Some(seq![kind, dep_key]),
        None => match table_get(document, "target"@) {
            Some(Value::Table { entries, .. }) => match first_platform_listing(entries@, dep_key) {
                Some((platform, kind)) => Some(seq!["target"@, platform, kind, dep_key]),
                None => None,
            },
            _ => None,
        },
    }
}

/// Whether a path is made of the keys `keys`.
pub open spec fn is_key_path(a: Seq<Accessor>, keys: Seq<Seq<char>>) -> bool {
    a.len() == keys.len() && forall|i: int| 0 <= i < keys.len() ==> crate::accessor::is_key(#[trigger] a[i], keys[i])
}

/// The first dependency table of `table` that lists `dep_key`.
fn find_kind_listing(table: &Value, dep_key: &str) -> (r: Option<&'static str>)
    ensures
        match first_kind_listing(*table, dependency_kinds(), dep_key@) {
            Some(kind) => r matches Some(k) && k@ == kind,
            None => r is None,
        },
{
    let kinds = dependency_kind_list();
    let ghost ks = dependency_kinds();
    let n = kinds.len();
    let mut i: usize = 0;
    assert(ks.skip(0) =~= ks);
    while i < n
        invariant
            n == kinds@.len(),
            kinds@.map_values(|s: &str| s@) == ks,
            ks == dependency_kinds(),
            0 <= i <= n,
            first_kind_listing(*table, ks, dep_key@) == first_kind_listing(*table, ks.skip(i as int), dep_key@),
        decreases n - i,
    {
        let ghost rest = ks.skip(i as int);
        assert(rest[0] == kinds@[i as int]@);
        assert(rest.drop_first() =~= ks.skip(i + 1));
        let path = [kinds[i], dep_key];
        assert(key_views(path@) =~= seq![rest[0], dep_key@]);
        if crate::document::dig_keys(table, &path).is_some() {
            return Some(kinds[i]);
        }
        i = i + 1;
    }
    assert(ks.skip(n as int).len() == 0);
    None
}

/// Where a package declares the dependency `dep_key`; see `dependency_entry_path`.
pub fn find_non_workspace_dependency_entry(document_tree: &Value, dep_key: &str) -> (r: Option<Vec<Accessor>>)
    ensures
        match dependency_entry_path(*document_tree, dep_key@) {
            Some(path) => r matches Some(a) && is_key_path(a@, path),
            None => r is None,
        },
{
    match find_kind_listing(document_tree, dep_key) {
        Some(kind) => {
            let mut a: Vec<Accessor> = Vec::new();
            a.push(Accessor::Key(String::from_str(kind)));
            a.push(Accessor::Key(String::from_str(dep_key)));
            assert(crate::accessor::is_key(a@[0], kind@));
            assert(crate::accessor::is_key(a@[1], dep_key@));
            assert(is_key_path(a@, seq![kind@, dep_key@]));
            return Some(a);
        },
        None => {},
    }
    let platforms = match document_tree.get("target") {
        Some(Value::Table { entries, .. }) => entries,
        _ => return None,
    };
    let n = platforms.len();
    let mut i: usize = 0;
    assert(platforms@.skip(0) =~= platforms@);
    while i < n
        invariant
            n == platforms@.len(),
            first_kind_listing(*document_tree, dependency_kinds(), dep_key@) is None,
            table_get(*document_tree, "target"@) matches Some(Value::Table { entries, .. }) && entries@ == platforms@,
            0 <= i <= n,
            first_platform_listing(platforms@, dep_key@) == first_platform_listing(platforms@.skip(i as int), dep_key@),
        decreases n - i,
    {
        let ghost rest = platforms@.skip(i as int);
        assert(rest[0] == platforms@[i as int]);
        assert(rest.drop_first() =~= platforms@.skip(i + 1));
        let (platform_key, platform) = &platforms[i];
        match platform {
            Value::Table { .. } => match find_kind_listing(platform, dep_key) {
                Some(kind) => {
                    let mut a: Vec<Accessor> = Vec::new();
                    a.push(Accessor::Key(String::from_str("target")));
                    a.push(Accessor::Key(platform_key.value.clone()));
                    a.push(Accessor::Key(String::from_str(kind)));
                    a.push(Accessor::Key(String::from_str(dep_key)));
                    assert(crate::accessor::is_key(a@[0], "target"@));
                    assert(crate::accessor::is_key(a@[1], platform_key.value@));
                    assert(crate::accessor::is_key(a@[2], kind@));
                    assert(crate::accessor::is_key(a@[3], dep_key@));
                    assert(is_key_path(a@, seq!["target"@, platform_key.value@, kind@, dep_key@]));
                    return Some(a);
                },
                None => {},
            },
            _ => {},
        }
        i = i + 1;
    }
    assert(platforms@.skip(n as int).len() == 0);
    None
}

/// Where a feature of the package is declared: its key in `[features]`.
pub open spec fn local_feature_key(document: Value, feature_name: Seq<char>) -> Option<Key> {
    match dig(document, seq!["features"@, feature_name]) {
        Some((key, _)) => Some(key),
        None => None,
    }
}

/// Where a feature of the package is declared: the span of its key in `[features]`.
pub fn find_local_feature(document_tree: &Value, feature_name: &str) -> (r: Option<Range>)
    ensures
        match local_feature_key(*document_tree, feature_name@) {
            Some(key) => r == Some(key.range),
            None => r is None,
        },
{
    let path = ["features", feature_name];
    assert(key_views(path@) =~= seq!["features"@, feature_name@]);
    match crate::document::dig_keys(document_tree, &path) {
        Some((key, _)) => Some(key.range),
        None => None,
    }
}

/// Where an optional dependency is declared: its `optional = true`, in the dependency
/// entry of `dependency_entry_path`.
pub open spec fn optional_dependency_flag(document: Value, dep_key: Seq<char>) -> Option<Range> {
    match dependency_entry_path(document, dep_key) {
        Some(path) => match crate::document::dig_value(document, path) {
            Some(entry) => if entry is Table {
                match table_get(entry, "optional"@) {
                    Some(Value::Boolean { value: true, range }) => Some(range),
                    _ => None,
                }
            } else {
                None
            },
            None => None,
        },
        None => None,
    }
}

/// The value at a path made of keys.
proof fn lemma_dig_key_path(value: Value, a: Seq<Accessor>, keys: Seq<Seq<char>>)
    requires
        is_key_path(a, keys),
    ensures
        keys.len() > 0 ==> dig_path(value, a) == crate::document::dig_value(value, keys),
    decreases keys.len(),
{
    if keys.len() > 0 {
        let k = a[0]->Key_0;
        assert(crate::accessor::is_key(a[0], keys[0]));
        assert(k@ == keys[0]);
        assert(dig_path(value, a) == match table_get(value, keys[0]) {
            Some(v) => dig_path(v, a.drop_first()),
            None => None,
        });
    }
    if keys.len() > 1 {
        assert(is_key_path(a.drop_first(), keys.drop_first())) by {
            assert forall|i: int| 0 <= i < keys.len() - 1 implies crate::accessor::is_key(
                #[trigger] a.drop_first()[i],
                keys.drop_first()[i],
            ) by {
                assert(crate::accessor::is_key(a[i + 1], keys[i + 1]));
            }
        };
        assert(crate::accessor::is_key(a[0], keys[0]));
        match table_entry(value, keys[0]) {
            Some(e) => {
                assert(crate::document::dig_value(value, keys) == crate::document::dig_value(e.1, keys.drop_first()));
                lemma_dig_key_path(e.1, a.drop_first(), keys.drop_first());
            },
            None => {},
        }
    } else if keys.len() == 1 {
        assert(crate::accessor::is_key(a[0], keys[0]));
        assert(a.drop_first().len() == 0);
    }
}

/// Where an optional dependency is declared; see `optional_dependency_flag`.
pub fn find_optional_dependency(document_tree: &Value, dep_key: &str) -> (r: Option<Range>)
    ensures
        r == optional_dependency_flag(*document_tree, dep_key@),
{
    let path = match find_non_workspace_dependency_entry(document_tree, dep_key) {
        Some(p) => p,
        None => return None,
    };
    proof {
        let keys = dependency_entry_path(*document_tree, dep_key@)->0;
        lemma_dig_key_path(*document_tree, path@, keys);
    }
    let entry = match dig_accessors(document_tree, path.as_slice()) {
        Some(e) => e,
        None => return None,
    };
    match entry {
        Value::Table { .. } => match entry.get("optional") {
            Some(Value::Boolean { value: true, range }) => Some(*range),
            _ => None,
        },
        _ => None,
    }
}

/// Whether one of the strings among `items` is `dep:dep_key`.
pub open spec fn items_enable_dep(items: Seq<Value>, dep_key: Seq<char>) -> bool
    decreases items.len(),
{
    if items.len() == 0 {
        false
    } else {
        items_enable_dep(items.drop_last(), dep_key) || match items.last() {
            Value::String { value, .. } => feature_ref_of(value@) == FeatureRefView::OptionalDependency(dep_key),
            _ => false,
        }
    }
}

/// Whether one of the arrays among `values` holds `dep:dep_key`.
pub open spec fn values_enable_dep(values: Seq<Value>, dep_key: Seq<char>) -> bool
    decreases values.len(),
{
    if values.len() == 0 {
        false
    } else {
        values_enable_dep(values.drop_last(), dep_key) || match values.last() {
            Value::Array { values: items, .. } => items_enable_dep(items@, dep_key),
            _ => false,
        }
    }
}

/// Whether a feature of `[features]` enables the optional dependency `dep_key` with
/// `dep:dep_key`, which keeps the dependency from being a feature of its own.
pub open spec fn enables_dep_explicitly(document: Value, dep_key: Seq<char>) -> bool {
    match table_get(document, "features"@) {
        Some(Value::Table { entries, .. }) => values_enable_dep(entries@.map_values(|e: (Key, Value)| e.1), dep_key),
        _ => false,
    }
}

/// Whether one of `items` is the string `dep:dep_key`.
fn array_enables_dep(items: &Vec<Value>, dep_key: &str) -> (r: bool)
    ensures
        r == items_enable_dep(items@, dep_key@),
{
    let mut found = false;
    let n = items.len();
    let mut i: usize = 0;
    while i < n
        invariant
            n == items@.len(),
            0 <= i <= n,
            found == items_enable_dep(items@.take(i as int), dep_key@),
        decreases n - i,
    {
        assert(items@.take(i + 1).drop_last() =~= items@.take(i as int));
        assert(items@.take(i + 1).last() == items@[i as int]);
        let this = match &items[i] {
            Value::String { value, .. } => match parse_cargo_feature_ref(value.as_str()) {
                CargoFeatureRef::OptionalDependency(name) => str_eq(name, dep_key),
                _ => false,
            },
            _ => false,
        };
        found = found || this;
        i = i + 1;
    }
    assert(items@.take(n as int) =~= items@);
    found
}

/// Whether a feature enables the optional dependency `dep_key` with `dep:`.
pub fn has_explicit_dep_feature(document_tree: &Value, dep_key: &str) -> (r: bool)
    ensures
        r == enables_dep_explicitly(*document_tree, dep_key@),
{
    let entries = match document_tree.get("features") {
        Some(Value::Table { entries, .. }) => entries,
        _ => return false,
    };
    let ghost vals = entries@.map_values(|e: (Key, Value)| e.1);
    let mut found = false;
    let n = entries.len();
    let mut i: usize = 0;
    while i < n
        invariant
            n == entries@.len(),
            vals == entries@.map_values(|e: (Key, Value)| e.1),
            0 <= i <= n,
            found == values_enable_dep(vals.take(i as int), dep_key@),
        decreases n - i,
    {
        assert(vals.take(i + 1).drop_last() =~= vals.take(i as int));
        assert(vals.take(i + 1).last() == entries@[i as int].1);
        let this = match &entries[i].1 {
            Value::Array { values, .. } => array_enables_dep(values, dep_key),
            _ => false,
        };
        found = found || this;
        i = i + 1;
    }
    assert(vals.take(n as int) =~= vals);
    found
}

/// The feature string that a path `["features", name, index]` points at.
pub fn feature_table_string_at_accessors<'a>(document_tree: &'a Value, accessors: &[Accessor]) -> (r: Option<
    (&'a String, Range),
>)
    ensures
        match (matches_pattern(accessors@, seq![Some("features"@), None, None]), dig_path(*document_tree, accessors@)) {
            (true, Some(Value::String { value, range })) => r matches Some(p) && *p.0 == value && p.1 == range,
            _ => r is None,
        },
{
    let pattern = [Some("features"), None, None];
    assert(pattern_view(pattern@) =~= seq![Some("features"@), None, None]);
    if !matches_accessors(accessors, &pattern) {
        return None;
    }
    match dig_accessors(document_tree, accessors) {
        Some(Value::String { value, range }) => Some((value, *range)),
        _ => None,
    }
}

/// The key of the feature that a path `["features", name]` points at.
pub fn feature_key_at_accessors<'a>(document_tree: &'a Value, accessors: &[Accessor]) -> (r: Option<&'a Key>)
    ensures
        if matches_pattern(accessors@, seq![Some("features"@), None]) && accessors@[1] is Key {
            match local_feature_key(*document_tree, accessors@[1]->Key_0@) {
                Some(k) => r matches Some(x) && *x == k,
                None => r is None,
            }
        } else {
            r is None
        },
{
    let pattern = [Some("features"), None];
    assert(pattern_view(pattern@) =~= seq![Some("features"@), None]);
    if !matches_accessors(accessors, &pattern) {
        return None;
    }
    let name = match &accessors[1] {
        Accessor::Key(name) => name,
        Accessor::Index(_) => return None,
    };
    let path = ["features", name.as_str()];
    assert(key_views(path@) =~= seq!["features"@, name@]);
    match crate::document::dig_keys(document_tree, &path) {
        Some((key, _)) => Some(key),
        None => None,
    }
}

/// How many leading accessors of a path `[<dependency table>, name, "optional"]` (or its
/// `[target, <cfg>, ...]` form) lead to the dependency entry.
pub open spec fn optional_entry_len(a: Seq<Accessor>) -> int {
    if matches_pattern(a, seq![Some("dependencies"@), None, Some("optional"@)]) || matches_pattern(
        a,
        seq![Some("dev-dependencies"@), None, Some("optional"@)],
    ) || matches_pattern(a, seq![Some("build-dependencies"@), None, Some("optional"@)]) {
        2
    } else if matches_pattern(a, seq![Some("target"@), None, Some("dependencies"@), None, Some("optional"@)])
        || matches_pattern(a, seq![Some("target"@), None, Some("dev-dependencies"@), None, Some("optional"@)])
        || matches_pattern(a, seq![Some("target"@), None, Some("build-dependencies"@), None, Some("optional"@)]) {
        4
    } else {
        0
    }
}

/// The path of the dependency entry whose `optional` a path points at.
pub fn dependency_optional_accessors(accessors: &[Accessor]) -> (r: Option<&[Accessor]>)
    ensures
        if optional_entry_len(accessors@) > 0 {
            r matches Some(p) && p@ == accessors@.take(optional_entry_len(accessors@))
        } else {
            r is None
        },
{
    let a = [Some("dependencies"), None, Some("optional")];
    let b = [Some("dev-dependencies"), None, Some("optional")];
    let c = [Some("build-dependencies"), None, Some("optional")];
    assert(pattern_view(a@) =~= seq![Some("dependencies"@), None, Some("optional"@)]);
    assert(pattern_view(b@) =~= seq![Some("dev-dependencies"@), None, Some("optional"@)]);
    assert(pattern_view(c@) =~= seq![Some("build-dependencies"@), None, Some("optional"@)]);
    if matches_accessors(accessors, &a) || matches_accessors(accessors, &b) || matches_accessors(accessors, &c) {
        let head = vstd::slice::slice_subrange(accessors, 0, 2);
        assert(head@ =~= accessors@.take(2));
        return Some(head);
    }
    let d = [Some("target"), None, Some("dependencies"), None, Some("optional")];
    let e = [Some("target"), None, Some("dev-dependencies"), None, Some("optional")];
    let g = [Some("target"), None, Some("build-dependencies"), None, Some("optional")];
    assert(pattern_view(d@) =~= seq![Some("target"@), None, Some("dependencies"@), None, Some("optional"@)]);
    assert(pattern_view(e@) =~= seq![Some("target"@), None, Some("dev-dependencies"@), None, Some("optional"@)]);
    assert(pattern_view(g@) =~= seq![Some("target"@), None, Some("build-dependencies"@), None, Some("optional"@)]);
    if matches_accessors(accessors, &d) || matches_accessors(accessors, &e) || matches_accessors(accessors, &g) {
        let head = vstd::slice::slice_subrange(accessors, 0, 4);
        assert(head@ =~= accessors@.take(4));
        return Some(head);
    }
    None
}

/// The `optional` flag that a path points at, with its span.
pub fn optional_dependency_value_at_accessors(document_tree: &Value, accessors: &[Accessor]) -> (r: Option<(bool, Range)>)
    ensures
        if optional_entry_len(accessors@) > 0 {
            match dig_path(*document_tree, accessors@.take(optional_entry_len(accessors@))) {
                Some(entry) => if entry is Table {
                    match table_get(entry, "optional"@) {
                        Some(Value::Boolean { value, range }) => r == Some((value, range)),
                        _ => r is None,
                    }
                } else {
                    r is None
                },
                None => r is None,
            }
        } else {
            r is None
        },
{
    let entry_path = match dependency_optional_accessors(accessors) {
        Some(p) => p,
        None => return None,
    };
    let entry = match dig_accessors(document_tree, entry_path) {
        Some(e) => e,
        None => return None,
    };
    match entry {
        Value::Table { .. } => match entry.get("optional") {
            Some(Value::Boolean { value, range }) => Some((*value, *range)),
            _ => None,
        },
        _ => None,
    }
}

/// How many leading accessors of a path to an item of a dependency's `features` lead to
/// the dependency entry; 0 where the path is no such path.
pub open spec fn feature_string_entry_len(a: Seq<Accessor>) -> int {
    if matches_pattern(a, seq![Some("workspace"@), Some("dependencies"@), None, Some("features"@), None]) {
        3
    } else if matches_pattern(a, seq![Some("dependencies"@), None, Some("features"@), None]) || matches_pattern(
        a,
        seq![Some("dev-dependencies"@), None, Some("features"@), None],
    ) || matches_pattern(a, seq![Some("build-dependencies"@), None, Some("features"@), None]) {
        2
    } else if matches_pattern(a, seq![Some("target"@), None, Some("dependencies"@), None, Some("features"@), None])
        || matches_pattern(a, seq![Some("target"@), None, Some("dev-dependencies"@), None, Some("features"@), None])
        || matches_pattern(a, seq![Some("target"@), None, Some("build-dependencies"@), None, Some("features"@), None]) {
        4
    } else {
        0
    }
}

/// The feature string that a path into a dependency's `features` points at, with the path
/// of the dependency entry.
pub fn dependency_feature_string_context<'a, 'b>(document_tree: &'a Value, accessors: &'b [Accessor]) -> (r: Option<
    ((&'a String, Range), &'b [Accessor]),
>)
    ensures
        if feature_string_entry_len(accessors@) > 0 {
            match dig_path(*document_tree, accessors@) {
                Some(Value::String { value, range }) => r matches Some(p) && *p.0.0 == value && p.0.1 == range && p.1@
                    == accessors@.take(feature_string_entry_len(accessors@)),
                _ => r is None,
            }
        } else {
            r is None
        },
{
    let w = [Some("workspace"), Some("dependencies"), None, Some("features"), None];
    assert(pattern_view(w@) =~= seq![Some("workspace"@), Some("dependencies"@), None, Some("features"@), None]);
    let a = [Some("dependencies"), None, Some("features"), None];
    let b = [Some("dev-dependencies"), None, Some("features"), None];
    let c = [Some("build-dependencies"), None, Some("features"), None];
    assert(pattern_view(a@) =~= seq![Some("dependencies"@), None, Some("features"@), None]);
    assert(pattern_view(b@) =~= seq![Some("dev-dependencies"@), None, Some("features"@), None]);
    assert(pattern_view(c@) =~= seq![Some("build-dependencies"@), None, Some("features"@), None]);
    let d = [Some("target"), None, Some("dependencies"), None, Some("features"), None];
    let e = [Some("target"), None, Some("dev-dependencies"), None, Some("features"), None];
    let g = [Some("target"), None, Some("build-dependencies"), None, Some("features"), None];
    assert(pattern_view(d@) =~= seq![Some("target"@), None, Some("dependencies"@), None, Some("features"@), None]);
    assert(pattern_view(e@) =~= seq![Some("target"@), None, Some("dev-dependencies"@), None, Some("features"@), None]);
    assert(pattern_view(g@) =~= seq![Some("target"@), None, Some("build-dependencies"@), None, Some("features"@), None]);
    let len: usize = if matches_accessors(accessors, &w) {
        3
    } else if matches_accessors(accessors, &a) || matches_accessors(accessors, &b) || matches_accessors(accessors, &c) {
        2
    } else if matches_accessors(accessors, &d) || matches_accessors(accessors, &e) || matches_accessors(accessors, &g) {
        4
    } else {
        return None;
    };
    let head = vstd::slice::slice_subrange(accessors, 0, len);
    assert(head@ =~= accessors@.take(len as int));
    match dig_accessors(document_tree, accessors) {
        Some(Value::String { value, range }) => Some(((value, *range), head)),
        _ => None,
    }
}

/// What a navigation asks for the uses of: a feature, or an optional dependency, of the
/// package whose manifest is at `cargo_toml_path`.
#[derive(Debug, Clone, PartialEq, Eq)]
pub enum CargoFeatureUsageTarget {
    LocalFeature { cargo_toml_path: String, feature_name: String },
    OptionalDependency { cargo_toml_path: String, dep_key: String },
}

/// The uses asked for from the key of a feature (`["features", name]`).
pub fn feature_usage_target_for_feature_key(cargo_toml_path: &str, accessors: &[Accessor]) -> (r: Option<
    CargoFeatureUsageTarget,
>)
    ensures
        if matches_pattern(accessors@, seq![Some("features"@), None]) && accessors@[1] is Key {
            r matches Some(CargoFeatureUsageTarget::LocalFeature { cargo_toml_path: p, feature_name: n }) && p@
                == cargo_toml_path@ && n@ == accessors@[1]->Key_0@
        } else {
            r is None
        },
{
    let pattern = [Some("features"), None];
    assert(pattern_view(pattern@) =~= seq![Some("features"@), None]);
    if !matches_accessors(accessors, &pattern) {
        return None;
    }
    match &accessors[1] {
        Accessor::Key(name) => Some(
            CargoFeatureUsageTarget::LocalFeature {
                cargo_toml_path: String::from_str(cargo_toml_path),
                feature_name: name.clone(),
            },
        ),
        Accessor::Index(_) => None,
    }
}

/// The uses asked for from the `optional` flag of a dependency.
pub fn feature_usage_target_for_optional_dependency(cargo_toml_path: &str, accessors: &[Accessor]) -> (r: Option<
    CargoFeatureUsageTarget,
>)
    ensures
        if optional_entry_len(accessors@) > 0 && accessors@[optional_entry_len(accessors@) - 1] is Key {
            r matches Some(CargoFeatureUsageTarget::OptionalDependency { cargo_toml_path: p, dep_key: k }) && p@
                == cargo_toml_path@ && k@ == accessors@[optional_entry_len(accessors@) - 1]->Key_0@
        } else {
            r is None
        },
{
    let entry = match dependency_optional_accessors(accessors) {
        Some(e) => e,
        None => return None,
    };
    let last = entry.len() - 1;
    match &entry[last] {
        Accessor::Key(dep_key) => Some(
            CargoFeatureUsageTarget::OptionalDependency {
                cargo_toml_path: String::from_str(cargo_toml_path),
                dep_key: dep_key.clone(),
            },
        ),
        Accessor::Index(_) => None,
    }
}

/// Where a feature string of `[features]` leads within its own manifest.
#[derive(Debug)]
pub enum FeatureResolution {
    /// A feature of this package, whose key is at `range`.
    LocalFeature { range: Range, feature_name: String },
    /// An optional dependency of this package, whose `optional = true` is at `range`.
    OptionalDependency { range: Range, dep_key: String },
    /// A feature of the dependency whose entry is at `entry`: the caller follows the
    /// entry to the dependency's manifest and looks the feature up there.
    DependencyFeature { entry: Vec<Accessor>, feature_name: String },
}

/// Where a feature string leads, as plain values.
pub enum ResolutionView {
    LocalFeature(Range, Seq<char>),
    OptionalDependency(Range, Seq<char>),
    DependencyFeature(Seq<Seq<char>>, Seq<char>),
}

/// Where a feature string of `[features]` leads: a name is a feature of the package where
/// `[features]` declares it, else an optional dependency that no `dep:` names explicitly;
/// `dep:name` is an optional dependency; `dep/feature` and `dep?/feature` lead to a
/// feature of the dependency's own manifest.
pub open spec fn resolution_of(document: Value, s: Seq<char>) -> Option<ResolutionView> {
    match feature_ref_of(s) {
        FeatureRefView::LocalFeature(name) => match local_feature_key(document, name) {
            Some(key) => Some(ResolutionView::LocalFeature(key.range, name)),
            None => if !enables_dep_explicitly(document, name) {
                match optional_dependency_flag(document, name) {
                    Some(range) => Some(ResolutionView::OptionalDependency(range, name)),
                    None => None,
                }
            } else {
                None
            },
        },
        FeatureRefView::OptionalDependency(dep_key) => match optional_dependency_flag(document, dep_key) {
            Some(range) => Some(ResolutionView::OptionalDependency(range, dep_key)),
            None => None,
        },
        FeatureRefView::DependencyFeature(dep_key, feature, _) => match dependency_entry_path(document, dep_key) {
            Some(path) => Some(ResolutionView::DependencyFeature(path, feature)),
            None => None,
        },
    }
}

/// Whether a resolution is the plain resolution `v`.
pub open spec fn resolution_is(r: FeatureResolution, v: ResolutionView) -> bool {
    match (r, v) {
        (FeatureResolution::LocalFeature { range, feature_name }, ResolutionView::LocalFeature(vr, vn)) => range == vr
            && feature_name@ == vn,
        (FeatureResolution::OptionalDependency { range, dep_key }, ResolutionView::OptionalDependency(vr, vk)) => range
            == vr && dep_key@ == vk,
        (FeatureResolution::DependencyFeature { entry, feature_name }, ResolutionView::DependencyFeature(vp, vn)) =>
            is_key_path(entry@, vp) && feature_name@ == vn,
        _ => false,
    }
}

/// Where a feature string of `[features]` leads within its own manifest; see
/// `resolution_of`.
pub fn resolve_feature_table_string(document_tree: &Value, feature_string: &str) -> (r: Option<FeatureResolution>)
    ensures
        match resolution_of(*document_tree, feature_string@) {
            Some(v) => r matches Some(x) && resolution_is(x, v),
            None => r is None,
        },
{
    match parse_cargo_feature_ref(feature_string) {
        CargoFeatureRef::LocalFeature(name) => {
            match find_local_feature(document_tree, name) {
                Some(range) => {
                    return Some(FeatureResolution::LocalFeature { range, feature_name: String::from_str(name) });
                },
                None => {},
            }
            if has_explicit_dep_feature(document_tree, name) {
                return None;
            }
            match find_optional_dependency(document_tree, name) {
                Some(range) => Some(FeatureResolution::OptionalDependency { range, dep_key: String::from_str(name) }),
                None => None,
            }
        },
        CargoFeatureRef::OptionalDependency(dep_key) => match find_optional_dependency(document_tree, dep_key) {
            Some(range) => Some(FeatureResolution::OptionalDependency { range, dep_key: String::from_str(dep_key) }),
            None => None,
        },
        CargoFeatureRef::DependencyFeature { dep_key, feature, .. } => match find_non_workspace_dependency_entry(
            document_tree,
            dep_key,
        ) {
            Some(entry) => Some(FeatureResolution::DependencyFeature { entry, feature_name: String::from_str(feature) }),
            None => None,
        },
    }
}

/// Where the manifest of a dependency is found.
#[derive(Debug, Clone, PartialEq, Eq)]
pub enum DependencySource {
    /// At this path, relative to the directory of the current manifest.
    Path(String),
    /// Through the entry of `[workspace.dependencies]` under this key.
    Workspace(String),
}

/// Where the manifest of the dependency at `entry` is found: its own `path`, else the
/// workspace entry of its key where it says `workspace = true`; nowhere otherwise.
pub open spec fn dependency_source_of(document: Value, entry: Seq<Accessor>) -> Option<(bool, Seq<char>)> {
    match dig_path(document, entry) {
        Some(t) => if t is Table {
            match string_text(table_get(t, "path"@)) {
                Some(path) => Some((true, path)),
                None => if table_get(t, "workspace"@) matches Some(Value::Boolean { value: true, .. }) {
                    if entry.len() > 0 && entry.last() is Key {
                        Some((false, entry.last()->Key_0@))
                    } else {
                        None
                    }
                } else {
                    None
                },
            }
        } else {
            None
        },
        None => None,
    }
}

/// Where the manifest of the dependency at `entry` is found; see `dependency_source_of`.
pub fn named_dependency_source(document_tree: &Value, entry: &[Accessor]) -> (r: Option<DependencySource>)
    ensures
        match dependency_source_of(*document_tree, entry@) {
            Some((true, path)) => r matches Some(DependencySource::Path(p)) && p@ == path,
            Some((false, key)) => r matches Some(DependencySource::Workspace(k)) && k@ == key,
            None => r is None,
        },
{
    let table = match dig_accessors(document_tree, entry) {
        Some(t) => t,
        None => return None,
    };
    match table {
        Value::Table { .. } => {},
        _ => return None,
    }
    match table.get_string("path") {
        Some(path) => return Some(DependencySource::Path(path.clone())),
        None => {},
    }
    match table.get("workspace") {
        Some(Value::Boolean { value: true, .. }) => {},
        _ => return None,
    }
    if entry.len() == 0 {
        return None;
    }
    match &entry[entry.len() - 1] {
        Accessor::Key(key) => Some(DependencySource::Workspace(key.clone())),
        Accessor::Index(_) => None,
    }
}

/// The `path` of a workspace dependency, relative to the workspace manifest's directory.
pub fn workspace_dependency_path<'a>(workspace_document_tree: &'a Value, dep_key: &str) -> (r: Option<&'a String>)
    ensures
        match dig_value(*workspace_document_tree, seq!["workspace"@, "dependencies"@, dep_key@]) {
            Some(t) => if t is Table {
                match string_text(table_get(t, "path"@)) {
                    Some(p) => r matches Some(s) && s@ == p,
                    None => r is None,
                }
            } else {
                r is None
            },
            None => r is None,
        },
{
    let path = ["workspace", "dependencies", dep_key];
    assert(key_views(path@) =~= seq!["workspace"@, "dependencies"@, dep_key@]);
    match crate::document::dig_keys(workspace_document_tree, &path) {
        Some((_, t)) => match t {
            Value::Table { .. } => t.get_string("path"),
            _ => None,
        },
        None => None,
    }
}

/// The entries of a table, each with its path: `prefix` and its key.
pub open spec fn entries_under(prefix: Seq<Seq<char>>, entries: Seq<(Key, Value)>) -> Seq<(Seq<Seq<char>>, Value)> {
    entries.map_values(|e: (Key, Value)| (prefix.push(e.0.value@), e.1))
}

/// The entries of a table value.
pub open spec fn table_entries(value: Option<Value>) -> Seq<(Key, Value)> {
    match value {
        Some(Value::Table { entries, .. }) => entries@,
        _ => Seq::empty(),
    }
}

/// The dependency entries of the three dependency tables of `table`, with paths under
/// `prefix`.
pub open spec fn kind_entries(table: Value, prefix: Seq<Seq<char>>) -> Seq<(Seq<Seq<char>>, Value)> {
    entries_under(prefix.push("dependencies"@), table_entries(table_get(table, "dependencies"@))) + entries_under(
        prefix.push("dev-dependencies"@),
        table_entries(table_get(table, "dev-dependencies"@)),
    ) + entries_under(prefix.push("build-dependencies"@), table_entries(table_get(table, "build-dependencies"@)))
}

/// The dependency entries of the platforms of `[target]`, platform after platform.
pub open spec fn platform_entries(platforms: Seq<(Key, Value)>) -> Seq<(Seq<Seq<char>>, Value)>
    decreases platforms.len(),
{
    if platforms.len() == 0 {
        Seq::empty()
    } else {
        platform_entries(platforms.drop_last()) + if platforms.last().1 is Table {
            kind_entries(platforms.last().1, seq!["target"@, platforms.last().0.value@])
        } else {
            Seq::empty()
        }
    }
}

/// Every dependency entry of a manifest with its path: those of `[workspace.dependencies]`,
/// then those of the package's dependency tables, then those of each platform.
pub open spec fn dependency_entries_of(document: Value) -> Seq<(Seq<Seq<char>>, Value)> {
    entries_under(seq!["workspace"@, "dependencies"@], table_entries(dig_value(document, seq!["workspace"@, "dependencies"@])))
        + kind_entries(document, Seq::empty()) + platform_entries(table_entries(table_get(document, "target"@)))
}

/// Whether the list of paths and values is the list of key paths and values `v`.
pub open spec fn entries_are<'a>(r: Seq<(Vec<Accessor>, &'a Value)>, v: Seq<(Seq<Seq<char>>, Value)>) -> bool {
    r.len() == v.len() && forall|i: int| 0 <= i < v.len() ==> is_key_path(#[trigger] r[i].0@, v[i].0) && *r[i].1 == v[i].1
}

/// A path of keys.
fn key_path(keys: &[&str]) -> (r: Vec<Accessor>)
    ensures
        is_key_path(r@, key_views(keys@)),
{
    let mut r: Vec<Accessor> = Vec::new();
    let n = keys.len();
    let mut i: usize = 0;
    while i < n
        invariant
            n == keys@.len(),
            0 <= i <= n,
            r@.len() == i,
            forall|j: int| 0 <= j < i ==> crate::accessor::is_key(#[trigger] r@[j], keys@[j]@),
        decreases n - i,
    {
        r.push(Accessor::Key(String::from_str(keys[i])));
        i = i + 1;
    }
    r
}

/// Appends the entries of a table, each with its path under `prefix`.
fn push_entries_under<'a>(prefix: &[&str], table: Option<&'a Value>, out: &mut Vec<(Vec<Accessor>, &'a Value)>)
    ensures
        forall|v: Seq<(Seq<Seq<char>>, Value)>|
            entries_are(old(out)@, v) ==> entries_are(
                final(out)@,
                v + entries_under(
                    key_views(prefix@),
                    table_entries(
                        match table {
                            Some(t) => Some(*t),
                            None => None,
                        },
                    ),
                ),
            ),
{
    let ghost start = out@;
    let entries = match table {
        Some(Value::Table { entries, .. }) => entries,
        _ => {
            assert forall|v: Seq<(Seq<Seq<char>>, Value)>| entries_are(start, v) implies entries_are(
                out@,
                v + entries_under(key_views(prefix@), Seq::<(Key, Value)>::empty()),
            ) by {
                assert(v + entries_under(key_views(prefix@), Seq::<(Key, Value)>::empty()) =~= v);
            }
            return;
        },
    };
    let ghost tail = entries_under(key_views(prefix@), entries@);
    let n = entries.len();
    let mut i: usize = 0;
    while i < n
        invariant
            n == entries@.len(),
            tail == entries_under(key_views(prefix@), entries@),
            0 <= i <= n,
            out@.len() == start.len() + i,
            forall|j: int| 0 <= j < start.len() ==> #[trigger] out@[j] == start[j],
            forall|j: int| 0 <= j < i ==> is_key_path(#[trigger] out@[start.len() + j].0@, tail[j].0) && *out@[start.len()
                + j].1 == tail[j].1,
        decreases n - i,
    {
        let mut path = key_path(prefix);
        path.push(Accessor::Key(entries[i].0.value.clone()));
        let ghost k = i as int;
        assert(tail[k].0 == key_views(prefix@).push(entries@[k].0.value@));
        assert(is_key_path(path@, tail[k].0)) by {
            assert forall|j: int| 0 <= j < tail[k].0.len() implies crate::accessor::is_key(#[trigger] path@[j], tail[k].0[j]) by {
                if j < prefix@.len() {
                    assert(key_views(prefix@)[j] == prefix@[j]@);
                }
            }
        };
        out.push((path, &entries[i].1));
        i = i + 1;
    }
    assert forall|v: Seq<(Seq<Seq<char>>, Value)>| entries_are(start, v) implies entries_are(out@, v + tail) by {
        assert forall|j: int| 0 <= j < (v + tail).len() implies is_key_path(#[trigger] out@[j].0@, (v + tail)[j].0) && *out@[j].1
            == (v + tail)[j].1 by {
            if j < v.len() {
                assert(out@[j] == start[j]);
            } else {
                assert(out@[start.len() + (j - v.len())] == out@[j]);
            }
        }
    }
}

/// Appends the dependency entries of the three dependency tables of `table`, under the
/// platform `target_key` of `[target]` where one is given.
fn push_kind_entries<'a>(table: &'a Value, target_key: Option<&str>, out: &mut Vec<(Vec<Accessor>, &'a Value)>)
    ensures
        forall|v: Seq<(Seq<Seq<char>>, Value)>|
            entries_are(old(out)@, v) ==> entries_are(
                final(out)@,
                v + kind_entries(
                    *table,
                    match target_key {
                        Some(k) => seq!["target"@, k@],
                        None => Seq::empty(),
                    },
                ),
            ),
{
    let ghost prefix: Seq<Seq<char>> = match target_key {
        Some(k) => seq!["target"@, k@],
        None => Seq::empty(),
    };
    let ghost start = out@;
    let ghost e1 = entries_under(prefix.push("dependencies"@), table_entries(table_get(*table, "dependencies"@)));
    let ghost e2 = entries_under(prefix.push("dev-dependencies"@), table_entries(table_get(*table, "dev-dependencies"@)));
    let ghost e3 = entries_under(prefix.push("build-dependencies"@), table_entries(table_get(*table, "build-dependencies"@)));
    match target_key {
        Some(k) => {
            let p1 = ["target", k, "dependencies"];
            let p2 = ["target", k, "dev-dependencies"];
            let p3 = ["target", k, "build-dependencies"];
            assert(key_views(p1@) =~= prefix.push("dependencies"@));
            assert(key_views(p2@) =~= prefix.push("dev-dependencies"@));
            assert(key_views(p3@) =~= prefix.push("build-dependencies"@));
            push_entries_under(&p1, table.get("dependencies"), out);
            let ghost s1 = out@;
            push_entries_under(&p2, table.get("dev-dependencies"), out);
            let ghost s2 = out@;
            push_entries_under(&p3, table.get("build-dependencies"), out);
            assert forall|v: Seq<(Seq<Seq<char>>, Value)>| entries_are(start, v) implies entries_are(
                out@,
                v + kind_entries(*table, prefix),
            ) by {
                assert(entries_are(s1, v + e1));
                assert(entries_are(s2, v + e1 + e2));
                assert(entries_are(out@, v + e1 + e2 + e3));
                assert(v + e1 + e2 + e3 =~= v + kind_entries(*table, prefix));
            }
        },
        None => {
            let p1 = ["dependencies"];
            let p2 = ["dev-dependencies"];
            let p3 = ["build-dependencies"];
            assert(key_views(p1@) =~= prefix.push("dependencies"@));
            assert(key_views(p2@) =~= prefix.push("dev-dependencies"@));
            assert(key_views(p3@) =~= prefix.push("build-dependencies"@));
            push_entries_under(&p1, table.get("dependencies"), out);
            let ghost s1 = out@;
            push_entries_under(&p2, table.get("dev-dependencies"), out);
            let ghost s2 = out@;
            push_entries_under(&p3, table.get("build-dependencies"), out);
            assert forall|v: Seq<(Seq<Seq<char>>, Value)>| entries_are(start, v) implies entries_are(
                out@,
                v + kind_entries(*table, prefix),
            ) by {
                assert(entries_are(s1, v + e1));
                assert(entries_are(s2, v + e1 + e2));
                assert(entries_are(out@, v + e1 + e2 + e3));
                assert(v + e1 + e2 + e3 =~= v + kind_entries(*table, prefix));
            }
        },
    }
}

/// Every dependency entry of a manifest with its path; see `dependency_entries_of`.
pub fn dependency_entries<'a>(document_tree: &'a Value) -> (r: Vec<(Vec<Accessor>, &'a Value)>)
    ensures
        entries_are(r@, dependency_entries_of(*document_tree)),
{
    let mut out: Vec<(Vec<Accessor>, &'a Value)> = Vec::new();
    let ghost empty: Seq<(Seq<Seq<char>>, Value)> = Seq::empty();
    assert(entries_are(out@, empty));
    let ws = ["workspace", "dependencies"];
    assert(key_views(ws@) =~= seq!["workspace"@, "dependencies"@]);
    let ws_table = match crate::document::dig_keys(document_tree, &ws) {
        Some((_, t)) => Some(t),
        None => None,
    };
    push_entries_under(&ws, ws_table, &mut out);
    let ghost part1 = entries_under(
        seq!["workspace"@, "dependencies"@],
        table_entries(dig_value(*document_tree, seq!["workspace"@, "dependencies"@])),
    );
    assert(empty + part1 =~= part1);
    assert(entries_are(out@, part1));
    push_kind_entries(document_tree, None, &mut out);
    let ghost part2 = part1 + kind_entries(*document_tree, Seq::empty());
    assert(entries_are(out@, part2));
    match document_tree.get("target") {
        Some(Value::Table { entries, .. }) => {
            let n = entries.len();
            let mut i: usize = 0;
            assert(part2 + platform_entries(entries@.take(0)) =~= part2);
            while i < n
                invariant
                    n == entries@.len(),
                    0 <= i <= n,
                    entries_are(out@, part2 + platform_entries(entries@.take(i as int))),
                decreases n - i,
            {
                assert(entries@.take(i + 1).drop_last() =~= entries@.take(i as int));
                assert(entries@.take(i + 1).last() == entries@[i as int]);
                let (platform_key, platform) = &entries[i];
                let ghost before = part2 + platform_entries(entries@.take(i as int));
                match platform {
                    Value::Table { .. } => {
                        push_kind_entries(platform, Some(platform_key.value.as_str()), &mut out);
                        assert(before + kind_entries(*platform, seq!["target"@, platform_key.value@]) =~= part2
                            + platform_entries(entries@.take(i + 1)));
                    },
                    _ => {
                        assert(before =~= part2 + platform_entries(entries@.take(i + 1)));
                    },
                }
                i = i + 1;
            }
            assert(entries@.take(n as int) =~= entries@);
            assert(part2 + platform_entries(entries@) =~= dependency_entries_of(*document_tree));
        },
        _ => {
            assert(part2 + Seq::<(Seq<Seq<char>>, Value)>::empty() =~= dependency_entries_of(*document_tree));
            assert(part2 =~= dependency_entries_of(*document_tree));
        },
    }
    out
}

} // verus!
