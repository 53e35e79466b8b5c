//! What a `Cargo.lock` file says about the versions that a build resolved.

use vstd::prelude::*;
use vstd::string::StringExecFns;

use crate::document::{string_text, table_get, Value};
use crate::text::{
    is_ascii_digit, last_index, lemma_last_index, rfind_char, str_eq, substring, to_owned, trim, trimmed,
};

verus! {

/// One entry of a package's `dependencies` list in `Cargo.lock`: a name, and a version
/// where several versions of the crate are locked.
#[derive(Debug, Clone)]
pub struct CargoLockDependency {
    pub name: String,
    pub version: Option<String>,
}

/// A `[[package]]` of `Cargo.lock`.
#[derive(Debug, Clone)]
pub struct CargoLockPackage {
    pub name: String,
    pub version: String,
    pub dependencies: Vec<CargoLockDependency>,
}

/// The text of an optional string.
pub open spec fn opt_text(s: Option<String>) -> Option<Seq<char>> {
    match s {
        Some(s) => Some(s@),
        None => None,
    }
}

/// A dependency entry as plain text.
pub struct DependencyEntry {
    pub name: Seq<char>,
    pub version: Option<Seq<char>>,
}

impl CargoLockDependency {
    pub open spec fn entry(self) -> DependencyEntry {
        DependencyEntry { name: self.name@, version: opt_text(self.version) }
    }
}

/// What a lockfile dependency string says: "name version" where the part after the last
/// space starts with a digit, else a bare name.
pub open spec fn parse_dependency_entry(s: Seq<char>) -> DependencyEntry {
    let i = last_index(s, ' ');
    if i >= 0 && i + 1 < s.len() && is_ascii_digit(s[i + 1]) {
        DependencyEntry { name: s.take(i), version: Some(s.skip(i + 1)) }
    } else {
        DependencyEntry { name: s, version: None }
    }
}

/// The only value that the `Some` items of `s` hold, where they hold exactly one value;
/// nothing where they hold none or several.
pub open spec fn sole_value(s: Seq<Option<Seq<char>>>) -> Option<Seq<char>> {
    if exists|i: int| 0 <= i < s.len() && #[trigger] s[i] is Some {
        let k = choose|i: int| 0 <= i < s.len() && #[trigger] s[i] is Some;
        let v = s[k]->0;
        if forall|j: int| 0 <= j < s.len() && #[trigger] s[j] is Some ==> s[j]->0 == v {
            Some(v)
        } else {
            None
        }
    } else {
        None
    }
}

/// Whether some item of `s` holds a value.
pub open spec fn any_value(s: Seq<Option<Seq<char>>>) -> bool {
    exists|i: int| 0 <= i < s.len() && #[trigger] s[i] is Some
}

/// The locked versions of the packages named `name`, one item per package.
pub open spec fn versions_named(packages: Seq<CargoLockPackage>, name: Seq<char>) -> Seq<Option<Seq<char>>> {
    Seq::new(
        packages.len(),
        |i: int|
            if packages[i].name@ == name {
                Some(packages[i].version@)
            } else {
                None
            },
    )
}

/// The version of `name` where every package of that name is locked at one version.
pub open spec fn unique_version(packages: Seq<CargoLockPackage>, name: Seq<char>) -> Option<Seq<char>> {
    sole_value(versions_named(packages, name))
}

/// Whether some package is named `name`.
pub open spec fn has_package(packages: Seq<CargoLockPackage>, name: Seq<char>) -> bool {
    exists|i: int| 0 <= i < packages.len() && #[trigger] packages[i].name@ == name
}

/// The versions that a package's dependency entries name explicitly for `name`.
pub open spec fn explicit_versions(deps: Seq<CargoLockDependency>, name: Seq<char>) -> Seq<Option<Seq<char>>> {
    Seq::new(
        deps.len(),
        |i: int|
            if deps[i].name@ == name {
                opt_text(deps[i].version)
            } else {
                None
            },
    )
}

/// Whether a package depends on `name` at all.
pub open spec fn depends_on(deps: Seq<CargoLockDependency>, name: Seq<char>) -> bool {
    exists|i: int| 0 <= i < deps.len() && #[trigger] deps[i].name@ == name
}

/// The version of `name` that a package depends on: the one version its entries name, or,
/// where they name none, the unique locked version of `name` (`unique`).
pub open spec fn resolved_for(
    deps: Seq<CargoLockDependency>,
    name: Seq<char>,
    unique: Option<Seq<char>>,
) -> Option<Seq<char>> {
    let explicit = explicit_versions(deps, name);
    if any_value(explicit) {
        sole_value(explicit)
    } else if depends_on(deps, name) {
        unique
    } else {
        None
    }
}

/// What each package resolves `name` to, one item per package.
pub open spec fn resolutions(packages: Seq<CargoLockPackage>, name: Seq<char>) -> Seq<Option<Seq<char>>> {
    Seq::new(
        packages.len(),
        |i: int| resolved_for(packages[i].dependencies@, name, unique_version(packages, name)),
    )
}

/// The entry of a version table (name to unique version) for `name`.
pub open spec fn lookup(table: Seq<(String, Option<String>)>, name: Seq<char>) -> Option<Option<Seq<char>>>
    decreases table.len(),
{
    if table.len() == 0 {
        None
    } else if table[0].0@ == name {
        Some(opt_text(table[0].1))
    } else {
        lookup(table.drop_first(), name)
    }
}

/// The unique version that a version table gives `name`, flattened.
pub open spec fn lookup_flat(table: Seq<(String, Option<String>)>, name: Seq<char>) -> Option<Seq<char>> {
    match lookup(table, name) {
        Some(v) => v,
        None => None,
    }
}

/// A version table lists each locked crate once, with its unique version.
pub open spec fn version_table_of(table: Seq<(String, Option<String>)>, packages: Seq<CargoLockPackage>) -> bool {
    forall|name: Seq<char>|
        #[trigger] lookup(table, name) == if has_package(packages, name) {
            Some(unique_version(packages, name))
        } else {
            None
        }
}

/// Walks a list of optional values and finds its sole value.
pub fn sole_value_exec(values: &Vec<Option<String>>) -> (r: Option<String>)
    ensures
        opt_text(r) == sole_value(values@.map_values(|v: Option<String>| opt_text(v))),
{
    let ghost s = values@.map_values(|v: Option<String>| opt_text(v));
    let n = values.len();
    let mut found: Option<String> = None;
    let mut conflict = false;
    let mut i: usize = 0;
    while i < n
        invariant
            n == values@.len(),
            s.len() == n,
            0 <= i <= n,
            forall|j: int| 0 <= j < n ==> #[trigger] s[j] == opt_text(values@[j]),
            found is None ==> (forall|j: int| 0 <= j < i ==> #[trigger] s[j] is None) && !conflict,
            found matches Some(f) ==> exists|j: int| 0 <= j < i && #[trigger] s[j] == Some(f@),
            found matches Some(f) ==> (conflict <==> exists|j: int|
                0 <= j < i && #[trigger] s[j] is Some && s[j]->0 != f@),
        decreases n - i,
    {
        assert(s[i as int] == opt_text(values@[i as int]));
        match &values[i] {
            Some(v) => {
                match &found {
                    Some(f) => {
                        if !(*f == *v) {
                            conflict = true;
                        }
                        assert(s[i as int] == Some(v@));
                    },
                    None => {
                        found = Some(v.clone());
                        assert(s[i as int] == Some(v@));
                    },
                }
            },
            None => {},
        }
        i = i + 1;
    }
    match found {
        Some(f) => {
            if conflict {
                proof {
                    let j = choose|j: int| 0 <= j < n && #[trigger] s[j] is Some && s[j]->0 != f@;
                    assert(s[j] is Some);
                }
                None
            } else {
                proof {
                    let j = choose|j: int| 0 <= j < n && #[trigger] s[j] == Some(f@);
                    assert(s[j] is Some);
                }
                Some(f)
            }
        },
        None => None,
    }
}

impl CargoLockDependency {
    /// Reads a lockfile dependency string such as "windows-sys 0.59.0" or "serde".
    pub fn parse(value: &str) -> (r: CargoLockDependency)
        ensures
            r.entry() == parse_dependency_entry(value@),
    {
        proof { lemma_last_index(value@, ' '); }
        let n = value.unicode_len();
        match rfind_char(value, ' ') {
            Some(i) => {
                if i + 1 < n && '0' <= value.get_char(i + 1) && value.get_char(i + 1) <= '9' {
                    return CargoLockDependency {
                        name: substring(value, 0, i),
                        version: Some(substring(value, i + 1, n)),
                    };
                }
            },
            None => {},
        }
        CargoLockDependency { name: to_owned(value), version: None }
    }

    /// Reads a dependency entry of a lockfile package; only strings are entries.
    pub fn from_value(value: &Value) -> (r: Option<CargoLockDependency>)
        ensures
            match *value {
                Value::String { value: s, .. } => r matches Some(d) && d.entry()
                    == parse_dependency_entry(s@),
                _ => r is None,
            },
    {
        match value {
            Value::String { value, .. } => Some(CargoLockDependency::parse(value.as_str())),
            _ => None,
        }
    }
}

/// The dependency entries that the strings of a `dependencies` array give, in order.
pub open spec fn dependency_entries_of(values: Seq<Value>) -> Seq<DependencyEntry>
    decreases values.len(),
{
    if values.len() == 0 {
        Seq::empty()
    } else {
        let rest = dependency_entries_of(values.drop_last());
        match values.last() {
            Value::String { value, .. } => rest.push(parse_dependency_entry(value@)),
            _ => rest,
        }
    }
}

/// The entries of a list of dependencies.
pub open spec fn entries_of(deps: Seq<CargoLockDependency>) -> Seq<DependencyEntry> {
    deps.map_values(|d: CargoLockDependency| d.entry())
}

/// What a `[[package]]` table of a lockfile gives: its name, its version and the entries of
/// its `dependencies` array (none where there is no such array).
pub open spec fn package_of_value(value: Value) -> Option<(Seq<char>, Seq<char>, Seq<DependencyEntry>)> {
    match (string_text(table_get(value, "name"@)), string_text(table_get(value, "version"@))) {
        (Some(name), Some(version)) => Some(
            (
                name,
                version,
                match table_get(value, "dependencies"@) {
                    Some(Value::Array { values, .. }) => dependency_entries_of(values@),
                    _ => Seq::empty(),
                },
            ),
        ),
        _ => None,
    }
}

impl CargoLockPackage {
    /// Reads a `[[package]]` table; one without a string name and version is no package.
    pub fn from_value(value: &Value) -> (r: Option<CargoLockPackage>)
        ensures
            match package_of_value(*value) {
                Some(p) => r matches Some(q) && q.name@ == p.0 && q.version@ == p.1
                    && entries_of(q.dependencies@) == p.2,
                None => r is None,
            },
    {
        let name = match value.get_string("name") {
            Some(name) => name.clone(),
            None => return None,
        };
        let version = match value.get_string("version") {
            Some(version) => version.clone(),
            None => return None,
        };
        let mut dependencies: Vec<CargoLockDependency> = Vec::new();
        match value.get("dependencies") {
            Some(Value::Array { values, .. }) => {
                let n = values.len();
                let mut i: usize = 0;
                while i < n
                    invariant
                        n == values@.len(),
                        0 <= i <= n,
                        entries_of(dependencies@) == dependency_entries_of(values@.take(i as int)),
                    decreases n - i,
                {
                    assert(values@.take(i + 1).drop_last() =~= values@.take(i as int));
                    match CargoLockDependency::from_value(&values[i]) {
                        Some(d) => {
                            dependencies.push(d);
                            assert(entries_of(dependencies@) =~= dependency_entries_of(
                                values@.take(i + 1),
                            ));
                        },
                        None => {},
                    }
                    i = i + 1;
                }
                assert(values@.take(n as int) =~= values@);
            },
            _ => {
                assert(entries_of(dependencies@) =~= Seq::empty());
            },
        }
        Some(CargoLockPackage { name, version, dependencies })
    }

    /// The version of `dependency_name` that this package resolves, given the table of
    /// unique locked versions: the one version its entries name, else the unique version.
    pub fn lockfile_resolved_dependency_version(
        &self,
        dependency_name: &str,
        unique_package_versions: &Vec<(String, Option<String>)>,
    ) -> (r: Option<String>)
        ensures
            opt_text(r) == resolved_for(
                self.dependencies@,
                dependency_name@,
                lookup_flat(unique_package_versions@, dependency_name@),
            ),
    {
        let ghost deps = self.dependencies@;
        let n = self.dependencies.len();
        let mut explicit: Vec<Option<String>> = Vec::new();
        let mut depends = false;
        let mut i: usize = 0;
        while i < n
            invariant
                n == deps.len(),
                deps == self.dependencies@,
                0 <= i <= n,
                explicit@.len() == i,
                forall|j: int| 0 <= j < i ==> #[trigger] opt_text(explicit@[j]) == explicit_versions(deps, dependency_name@)[j],
                depends <==> exists|j: int| 0 <= j < i && #[trigger] deps[j].name@ == dependency_name@,
            decreases n - i,
        {
            let d = &self.dependencies[i];
            if str_eq(d.name.as_str(), dependency_name) {
                depends = true;
                explicit.push(d.version.clone());
            } else {
                explicit.push(None);
            }
            i = i + 1;
        }
        let ghost ex = explicit_versions(deps, dependency_name@);
        assert(explicit@.map_values(|v: Option<String>| opt_text(v)) =~= ex);
        let mut any = false;
        let mut k: usize = 0;
        while k < n
            invariant
                n == explicit@.len(),
                ex.len() == n,
                0 <= k <= n,
                forall|j: int| 0 <= j < n ==> #[trigger] opt_text(explicit@[j]) == ex[j],
                any <==> exists|j: int| 0 <= j < k && #[trigger] ex[j] is Some,
            decreases n - k,
        {
            assert(opt_text(explicit@[k as int]) == ex[k as int]);
            if explicit[k].is_some() {
                any = true;
            }
            k = k + 1;
        }
        if any {
            sole_value_exec(&explicit)
        } else if depends {
            match find_version(unique_package_versions, dependency_name) {
                Some(v) => v,
                None => None,
            }
        } else {
            None
        }
    }
}

/// The entry that a version table holds for `name`.
fn find_version(table: &Vec<(String, Option<String>)>, name: &str) -> (r: Option<Option<String>>)
    ensures
        match lookup(table@, name@) {
            Some(v) => r matches Some(x) && opt_text(x) == v,
            None => r is None,
        },
{
    let n = table.len();
    let mut i: usize = 0;
    assert(table@.skip(0) =~= table@);
    while i < n
        invariant
            n == table@.len(),
            0 <= i <= n,
            lookup(table@, name@) == lookup(table@.skip(i as int), name@),
        decreases n - i,
    {
        let ghost rest = table@.skip(i as int);
        assert(rest.drop_first() =~= table@.skip(i + 1));
        assert(rest[0] == table@[i as int]);
        if str_eq(table[i].0.as_str(), name) {
            return Some(table[i].1.clone());
        }
        i = i + 1;
    }
    None
}

} // verus!

verus! {

/// `sole_value(s)` is `w` exactly where some item of `s` holds `w` and every item that
/// holds a value holds `w`.
pub proof fn lemma_sole_value_is(s: Seq<Option<Seq<char>>>, w: Seq<char>)
    ensures
        sole_value(s) == Some(w) <==> (exists|i: int| 0 <= i < s.len() && s[i] == Some(w)) && (
        forall|j: int| 0 <= j < s.len() && #[trigger] s[j] is Some ==> s[j]->0 == w),
{
    if exists|i: int| 0 <= i < s.len() && s[i] == Some(w) {
        let i = choose|i: int| 0 <= i < s.len() && s[i] == Some(w);
        assert(s[i] is Some);
    }
    if sole_value(s) == Some(w) {
        let k = choose|i: int| 0 <= i < s.len() && #[trigger] s[i] is Some;
        assert(s[k] == Some(w));
    }
}

/// What adding one item to a list does to its sole value.
pub proof fn lemma_sole_value_push(s: Seq<Option<Seq<char>>>, x: Option<Seq<char>>)
    ensures
        any_value(s.push(x)) == (any_value(s) || x is Some),
        sole_value(s.push(x)) == match x {
            None => sole_value(s),
            Some(v) => if !any_value(s) || sole_value(s) == Some(v) {
                Some(v)
            } else {
                None
            },
        },
{
    let t = s.push(x);
    assert forall|j: int| 0 <= j < s.len() implies t[j] == s[j] by {}
    if any_value(s) {
        let i = choose|i: int| 0 <= i < s.len() && #[trigger] s[i] is Some;
        assert(t[i] is Some);
    }
    if x is Some {
        assert(t[s.len() as int] is Some);
    }
    match x {
        None => {
            match sole_value(s) {
                Some(w) => {
                    lemma_sole_value_is(s, w);
                    lemma_sole_value_is(t, w);
                    let i = choose|i: int| 0 <= i < s.len() && s[i] == Some(w);
                    assert(t[i] == Some(w));
                },
                None => {
                    if sole_value(t) is Some {
                        let w = sole_value(t)->0;
                        lemma_sole_value_is(t, w);
                        lemma_sole_value_is(s, w);
                        let i = choose|i: int| 0 <= i < t.len() && t[i] == Some(w);
                        assert(i < s.len());
                        assert(s[i] == Some(w));
                    }
                },
            }
        },
        Some(v) => {
            lemma_sole_value_is(t, v);
            lemma_sole_value_is(s, v);
            assert(t[s.len() as int] == Some(v));
            if !any_value(s) {
            } else if sole_value(s) == Some(v) {
            } else {
                if sole_value(t) is Some {
                    let w = sole_value(t)->0;
                    lemma_sole_value_is(t, w);
                    assert(t[s.len() as int] is Some);
                    assert(w == v);
                    let i = choose|i: int| 0 <= i < s.len() && #[trigger] s[i] is Some;
                    assert(t[i] is Some);
                    assert(s[i] == Some(v));
                    assert(false);
                }
            }
        },
    }
}

/// A package of that name is locked exactly where the versions named so hold a value.
pub proof fn lemma_has_package(packages: Seq<CargoLockPackage>, name: Seq<char>)
    ensures
        has_package(packages, name) == any_value(versions_named(packages, name)),
{
    let s = versions_named(packages, name);
    if has_package(packages, name) {
        let i = choose|i: int| 0 <= i < packages.len() && #[trigger] packages[i].name@ == name;
        assert(s[i] is Some);
    }
    if any_value(s) {
        let i = choose|i: int| 0 <= i < s.len() && #[trigger] s[i] is Some;
        assert(packages[i].name@ == name);
    }
}

/// Taking one more package adds one item to the versions named.
pub proof fn lemma_versions_named_step(packages: Seq<CargoLockPackage>, i: int, name: Seq<char>)
    requires
        0 <= i < packages.len(),
    ensures
        versions_named(packages.take(i + 1), name) == versions_named(packages.take(i), name).push(
            if packages[i].name@ == name {
                Some(packages[i].version@)
            } else {
                None
            },
        ),
{
    assert(versions_named(packages.take(i + 1), name) =~= versions_named(packages.take(i), name).push(
        if packages[i].name@ == name {
            Some(packages[i].version@)
        } else {
            None
        },
    ));
}

/// The entry found at the first index with a key is what `lookup` gives.
pub proof fn lemma_lookup_first(table: Seq<(String, Option<String>)>, name: Seq<char>, k: int)
    requires
        0 <= k < table.len(),
        table[k].0@ == name,
        forall|j: int| 0 <= j < k ==> #[trigger] table[j].0@ != name,
    ensures
        lookup(table, name) == Some(opt_text(table[k].1)),
    decreases table.len(),
{
    if k > 0 {
        assert forall|j: int| 0 <= j < k - 1 implies #[trigger] table.drop_first()[j].0@ != name by {
            assert(table.drop_first()[j] == table[j + 1]);
        }
        assert(table[0].0@ != name);
        lemma_lookup_first(table.drop_first(), name, k - 1);
    }
}

/// A key that no entry holds is found nowhere.
pub proof fn lemma_lookup_none(table: Seq<(String, Option<String>)>, name: Seq<char>)
    requires
        forall|j: int| 0 <= j < table.len() ==> #[trigger] table[j].0@ != name,
    ensures
        lookup(table, name) is None,
    decreases table.len(),
{
    if table.len() > 0 {
        assert(table[0].0@ != name);
        assert forall|j: int| 0 <= j < table.len() - 1 implies #[trigger] table.drop_first()[j].0@ != name by {
            assert(table.drop_first()[j] == table[j + 1]);
        }
        lemma_lookup_none(table.drop_first(), name);
    }
}

/// Two tables whose entries agree wherever the key is `name` give `name` the same entry.
pub proof fn lemma_lookup_frame(t1: Seq<(String, Option<String>)>, t2: Seq<(String, Option<String>)>, name: Seq<char>)
    requires
        t1.len() == t2.len(),
        forall|j: int| 0 <= j < t1.len() ==> (#[trigger] t1[j].0@ == name) == (t2[j].0@ == name),
        forall|j: int| 0 <= j < t1.len() && #[trigger] t1[j].0@ == name ==> opt_text(t1[j].1) == opt_text(t2[j].1),
    ensures
        lookup(t1, name) == lookup(t2, name),
    decreases t1.len(),
{
    if t1.len() > 0 {
        assert(t1[0].0@ == name ==> t2[0].0@ == name);
        assert forall|j: int| 0 <= j < t1.len() - 1 implies (#[trigger] t1.drop_first()[j].0@ == name) == (t2.drop_first()[j].0@ == name) by {
            assert(t1.drop_first()[j] == t1[j + 1]);
            assert(t2.drop_first()[j] == t2[j + 1]);
        }
        assert forall|j: int| 0 <= j < t1.len() - 1 && #[trigger] t1.drop_first()[j].0@ == name implies opt_text(t1.drop_first()[j].1) == opt_text(t2.drop_first()[j].1) by {
            assert(t1.drop_first()[j] == t1[j + 1]);
            assert(t2.drop_first()[j] == t2[j + 1]);
        }
        lemma_lookup_frame(t1.drop_first(), t2.drop_first(), name);
    }
}

/// Appending an entry changes only what a key that no entry held yet is found at.
pub proof fn lemma_lookup_push(table: Seq<(String, Option<String>)>, e: (String, Option<String>), name: Seq<char>)
    ensures
        lookup(table.push(e), name) == if lookup(table, name) is Some {
            lookup(table, name)
        } else if e.0@ == name {
            Some(opt_text(e.1))
        } else {
            None
        },
    decreases table.len(),
{
    if table.len() > 0 {
        assert(table.push(e).drop_first() =~= table.drop_first().push(e));
        assert(table.push(e)[0] == table[0]);
        lemma_lookup_push(table.drop_first(), e, name);
    } else {
        assert(table.push(e).drop_first() =~= Seq::<(String, Option<String>)>::empty());
        reveal_with_fuel(lookup, 2);
    }
}

/// The first index of an entry whose key is `name`.
fn find_entry(table: &Vec<(String, Option<String>)>, name: &str) -> (r: Option<usize>)
    ensures
        match r {
            Some(k) => k < table@.len() && table@[k as int].0@ == name@ && forall|j: int|
                0 <= j < k ==> #[trigger] table@[j].0@ != name@,
            None => forall|j: int| 0 <= j < table@.len() ==> #[trigger] table@[j].0@ != name@,
        },
{
    let n = table.len();
    let mut i: usize = 0;
    while i < n
        invariant
            n == table@.len(),
            0 <= i <= n,
            forall|j: int| 0 <= j < i ==> #[trigger] table@[j].0@ != name@,
        decreases n - i,
    {
        if str_eq(table[i].0.as_str(), name) {
            return Some(i);
        }
        i = i + 1;
    }
    None
}

/// Builds the table of unique locked versions: each locked crate once, with its version
/// where all its packages are locked at one version.
pub fn compute_unique_package_versions(packages: &Vec<CargoLockPackage>) -> (r: Vec<(String, Option<String>)>)
    ensures
        version_table_of(r@, packages@),
{
    let mut table: Vec<(String, Option<String>)> = Vec::new();
    let n = packages.len();
    let mut i: usize = 0;
    proof {
        assert forall|name: Seq<char>| #[trigger] lookup(table@, name) == if has_package(packages@.take(0), name) {
            Some(unique_version(packages@.take(0), name))
        } else {
            None
        } by {
            lemma_has_package(packages@.take(0), name);
        }
    }
    while i < n
        invariant
            n == packages@.len(),
            0 <= i <= n,
            version_table_of(table@, packages@.take(i as int)),
        decreases n - i,
    {
        let ghost old_table = table@;
        let ghost pk = packages@;
        let p = &packages[i];
        let found = find_entry(&table, p.name.as_str());
        match found {
            None => {
                table.push((p.name.clone(), Some(p.version.clone())));
            },
            Some(k) => {
                let conflicting = match &table[k].1 {
                    Some(v) => !(*v == p.version),
                    None => false,
                };
                if conflicting {
                    let key = table[k].0.clone();
                    table.set(k, (key, None));
                }
            },
        }
        proof {
            assert forall|name: Seq<char>| #[trigger] lookup(table@, name) == if has_package(pk.take(i + 1), name) {
                Some(unique_version(pk.take(i + 1), name))
            } else {
                None
            } by {
                let s = versions_named(pk.take(i as int), name);
                let x = if pk[i as int].name@ == name {
                    Some(pk[i as int].version@)
                } else {
                    None
                };
                lemma_versions_named_step(pk, i as int, name);
                lemma_sole_value_push(s, x);
                lemma_has_package(pk.take(i as int), name);
                lemma_has_package(pk.take(i + 1), name);
                assert(lookup(old_table, name) == if has_package(pk.take(i as int), name) {
                    Some(unique_version(pk.take(i as int), name))
                } else {
                    None
                });
                match found {
                    None => {
                        lemma_lookup_push(old_table, table@.last(), name);
                        assert(table@ =~= old_table.push(table@.last()));
                        if pk[i as int].name@ == name {
                            lemma_lookup_none(old_table, name);
                        }
                    },
                    Some(k) => {
                        if pk[i as int].name@ == name {
                            lemma_lookup_first(old_table, name, k as int);
                            lemma_lookup_first(table@, name, k as int);
                        } else {
                            lemma_lookup_frame(old_table, table@, name);
                        }
                    },
                }
            }
        }
        i = i + 1;
    }
    assert(packages@.take(n as int) =~= packages@);
    table
}

} // verus!

verus! {

/// The text of a version requirement with white space and one leading `=` taken off.
pub open spec fn requirement_text(requirement: Seq<char>) -> Seq<char> {
    let t = trimmed(requirement);
    if t.len() > 0 && t[0] == '=' {
        trimmed(t.skip(1))
    } else {
        t
    }
}

/// What `semver::Version::parse` followed by `to_string` gives for a text: the version in
/// its canonical form, or nothing where the text is no semantic version.
pub uninterp spec fn semver_normalized(text: Seq<char>) -> Option<Seq<char>>;

/// Calls `semver::Version::parse` on `text` and prints the version it reads back with
/// `to_string`. The contract names the result by `semver_normalized`; what the grammar of
/// a semantic version is, is left to the semver crate and not stated here.
#[verifier::external_body]
fn parse_semver_version(text: &str) -> (r: Option<String>)
    ensures
        opt_text(r) == semver_normalized(text@),
{
    semver::Version::parse(text).ok().map(|version| version.to_string())
}

/// The exact crates.io version that a requirement pins: "1.2.3" and "= 1.2.3" pin
/// "1.2.3"; a range such as "1.2" pins none.
pub fn exact_crates_io_version(version_requirement: &str) -> (r: Option<String>)
    ensures
        opt_text(r) == semver_normalized(requirement_text(version_requirement@)),
{
    let t = trim(version_requirement);
    let n = t.unicode_len();
    if n > 0 && t.get_char(0) == '=' {
        let rest = trim(t.substring_char(1, n));
        assert(t@.subrange(1, n as int) =~= t@.skip(1));
        parse_semver_version(rest)
    } else {
        parse_semver_version(t)
    }
}

/// A package as plain text: name, version and dependency entries.
pub open spec fn package_triple(p: CargoLockPackage) -> (Seq<char>, Seq<char>, Seq<DependencyEntry>) {
    (p.name@, p.version@, entries_of(p.dependencies@))
}

/// The packages that the `[[package]]` tables of a lockfile give, in order; entries that
/// are no package table are passed over.
pub open spec fn packages_of_values(values: Seq<Value>) -> Seq<(Seq<char>, Seq<char>, Seq<DependencyEntry>)>
    decreases values.len(),
{
    if values.len() == 0 {
        Seq::empty()
    } else {
        let rest = packages_of_values(values.drop_last());
        match package_of_value(values.last()) {
            Some(p) => rest.push(p),
            None => rest,
        }
    }
}

/// The packages of a `Cargo.lock` file with the unique locked version of each crate.
#[derive(Debug)]
pub struct CargoLock {
    packages: Vec<CargoLockPackage>,
    unique_package_versions: Vec<(String, Option<String>)>,
}

impl CargoLock {
    #[verifier::type_invariant]
    spec fn well_formed(self) -> bool {
        version_table_of(self.unique_package_versions@, self.packages@)
    }

    /// The locked packages, in file order.
    pub closed spec fn locked(self) -> Seq<CargoLockPackage> {
        self.packages@
    }

    /// A lockfile of the given packages.
    pub fn new(packages: Vec<CargoLockPackage>) -> (r: CargoLock)
        ensures
            r.locked() == packages@,
    {
        let unique_package_versions = compute_unique_package_versions(&packages);
        CargoLock { packages, unique_package_versions }
    }

    /// Reads the `package` array of a parsed `Cargo.lock`; a file without one is no lockfile.
    pub fn from_document_tree(document_tree: &Value) -> (r: Option<CargoLock>)
        ensures
            match table_get(*document_tree, "package"@) {
                Some(Value::Array { values, .. }) => r matches Some(l) && l.locked().map_values(
                    |p: CargoLockPackage| package_triple(p),
                ) == packages_of_values(values@),
                _ => r is None,
            },
    {
        match document_tree.get("package") {
            Some(Value::Array { values, .. }) => {
                let mut packages: Vec<CargoLockPackage> = Vec::new();
                let n = values.len();
                let mut i: usize = 0;
                while i < n
                    invariant
                        n == values@.len(),
                        0 <= i <= n,
                        packages@.map_values(|p: CargoLockPackage| package_triple(p))
                            == packages_of_values(values@.take(i as int)),
                    decreases n - i,
                {
                    assert(values@.take(i + 1).drop_last() =~= values@.take(i as int));
                    match CargoLockPackage::from_value(&values[i]) {
                        Some(p) => {
                            packages.push(p);
                            assert(packages@.map_values(|p: CargoLockPackage| package_triple(p))
                                =~= packages_of_values(values@.take(i + 1)));
                        },
                        None => {},
                    }
                    i = i + 1;
                }
                assert(values@.take(n as int) =~= values@);
                Some(CargoLock::new(packages))
            },
            _ => None,
        }
    }

    /// The locked packages.
    pub fn packages(&self) -> (r: &Vec<CargoLockPackage>)
        ensures
            r@ == self.locked(),
    {
        &self.packages
    }

    /// Each locked crate with its version where all its packages are locked at one version.
    pub fn unique_package_versions(&self) -> (r: &Vec<(String, Option<String>)>)
        ensures
            version_table_of(r@, self.locked()),
    {
        proof { use_type_invariant(self); }
        &self.unique_package_versions
    }

    /// The packages and the table of unique versions.
    pub fn into_parts(self) -> (r: (Vec<CargoLockPackage>, Vec<(String, Option<String>)>))
        ensures
            r.0@ == self.locked(),
            version_table_of(r.1@, r.0@),
    {
        proof { use_type_invariant(&self); }
        (self.packages, self.unique_package_versions)
    }

    /// The one version of `dependency_name` that the packages which depend on it resolve;
    /// none where they resolve none or disagree.
    pub fn unique_dependency_version(&self, dependency_name: &str) -> (r: Option<String>)
        ensures
            opt_text(r) == sole_value(resolutions(self.locked(), dependency_name@)),
    {
        proof { use_type_invariant(self); }
        let ghost pk = self.packages@;
        let ghost name = dependency_name@;
        let ghost unique = unique_version(pk, name);
        proof {
            lemma_has_package(pk, name);
            assert(lookup(self.unique_package_versions@, name) == if has_package(pk, name) {
                Some(unique)
            } else {
                None
            });
            if !has_package(pk, name) {
                let s = versions_named(pk, name);
                if sole_value(s) is Some {
                    let k = choose|i: int| 0 <= i < s.len() && #[trigger] s[i] is Some;
                    assert(false);
                }
            }
            assert(lookup_flat(self.unique_package_versions@, name) == unique);
        }
        let n = self.packages.len();
        let mut resolved: Vec<Option<String>> = Vec::new();
        let mut i: usize = 0;
        while i < n
            invariant
                n == pk.len(),
                pk == self.packages@,
                0 <= i <= n,
                resolved@.len() == i,
                lookup_flat(self.unique_package_versions@, name) == unique,
                unique == unique_version(pk, name),
                name == dependency_name@,
                forall|j: int| 0 <= j < i ==> #[trigger] opt_text(resolved@[j]) == resolutions(pk, name)[j],
            decreases n - i,
        {
            let v = self.packages[i].lockfile_resolved_dependency_version(
                dependency_name,
                &self.unique_package_versions,
            );
            resolved.push(v);
            i = i + 1;
        }
        assert(resolved@.map_values(|v: Option<String>| opt_text(v)) =~= resolutions(pk, name));
        sole_value_exec(&resolved)
    }

    /// The version a dependency resolves to given the exact version that its requirement
    /// pins, if any: that version, else the one the lockfile resolves.
    pub fn resolve_dependency_version_with(&self, crate_name: &str, exact_version: Option<String>) -> (r: Option<String>)
        ensures
            opt_text(r) == match opt_text(exact_version) {
                Some(v) => Some(v),
                None => sole_value(resolutions(self.locked(), crate_name@)),
            },
    {
        match exact_version {
            Some(v) => Some(v),
            None => self.unique_dependency_version(crate_name),
        }
    }

    /// The version a dependency with this requirement resolves to: the exact version it
    /// pins, else the one the lockfile resolves.
    pub fn resolve_dependency_version(&self, crate_name: &str, version_requirement: &str) -> (r: Option<String>)
        ensures
            opt_text(r) == match semver_normalized(requirement_text(version_requirement@)) {
                Some(v) => Some(v),
                None => sole_value(resolutions(self.locked(), crate_name@)),
            },
    {
        let exact = exact_crates_io_version(version_requirement);
        self.resolve_dependency_version_with(crate_name, exact)
    }
}

} // verus!

verus! {

/// The key under which the packages of a lockfile are cached.
pub fn cargo_lock_cache_key(cargo_lock_path: &str) -> (r: String)
    ensures
        r@ == "tombi-toml/cargo:cargo_lock:"@ + cargo_lock_path@,
{
    let mut key = String::from_str("tombi-toml/cargo:cargo_lock:");
    key.append(cargo_lock_path);
    key
}

} // verus!
