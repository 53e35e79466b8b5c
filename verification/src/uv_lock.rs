//! What a `uv.lock` file says about the versions that a resolution picked, as the inlay
//! hints of a `pyproject.toml` read it.

use vstd::prelude::*;
use vstd::string::StringExecFns;

use crate::cargo_lock::{opt_text, sole_value, sole_value_exec};
use crate::document::{string_text, table_get, Key, Value};
use crate::text::str_eq;

verus! {

/// A dependency of a locked package: its name and, where given, its version.
#[derive(Debug, Clone)]
pub struct UvLockDependency {
    pub name: String,
    pub version: Option<String>,
}

/// A `[[package]]` of `uv.lock` with its direct dependencies, optional and development
/// ones included.
#[derive(Debug, Clone)]
pub struct UvLockPackage {
    pub name: String,
    pub version: String,
    pub direct_dependencies: Vec<UvLockDependency>,
}

/// The packages of a `uv.lock` file.
#[derive(Debug, Clone)]
pub struct UvLock {
    pub packages: Vec<UvLockPackage>,
}

/// What `pep440_rs::Version::from_str` followed by `to_string` gives for a text: the
/// version in its normal form, or nothing where the text is no PEP 440 version.
pub uninterp spec fn pep440_normalized(text: Seq<char>) -> Option<Seq<char>>;

/// Calls `pep440_rs::Version::from_str` on `text` and prints what it reads with
/// `to_string`. The contract names the result by `pep440_normalized`; the PEP 440 grammar
/// and normal form are left to the crate and not stated here.
#[verifier::external_body]
fn parse_pep440_version(text: &str) -> (r: Option<String>)
    ensures
        opt_text(r) == pep440_normalized(text@),
{
    <pep508_rs::pep440_rs::Version as core::str::FromStr>::from_str(text).ok().map(|v| v.to_string())
}

/// A version text in PEP 440 normal form; a text that is no version stays as it is.
pub open spec fn normalized_version(text: Seq<char>) -> Seq<char> {
    match pep440_normalized(text) {
        Some(v) => v,
        None => text,
    }
}

/// A version text in PEP 440 normal form; a text that is no version stays as it is.
pub fn normalize_version(version: &str) -> (r: String)
    ensures
        r@ == normalized_version(version@),
{
    match parse_pep440_version(version) {
        Some(v) => v,
        None => String::from_str(version),
    }
}

/// Whether the `i`-th package has this name and, once normalized, this version.
pub open spec fn package_matches(packages: Seq<UvLockPackage>, i: int, name: Seq<char>, version: Seq<char>) -> bool {
    packages[i].name@ == name && normalized_version(packages[i].version@) == version
}

/// The versions of the packages named `name`, one item per package.
pub open spec fn uv_versions_named(packages: Seq<UvLockPackage>, name: Seq<char>) -> Seq<Option<Seq<char>>> {
    Seq::new(
        packages.len(),
        |i: int|
            if packages[i].name@ == name {
                Some(packages[i].version@)
            } else {
                None
            },
    )
}

/// The version that a dependency entry resolves to: its own, else the one version that
/// all packages of its name are locked at.
pub open spec fn uv_resolved(packages: Seq<UvLockPackage>, dependency: UvLockDependency) -> Option<Seq<char>> {
    match dependency.version {
        Some(v) => Some(v@),
        None => sole_value(uv_versions_named(packages, dependency.name@)),
    }
}

/// What each direct dependency named `name` of a package resolves to.
pub open spec fn uv_dependency_resolutions(
    packages: Seq<UvLockPackage>,
    dependencies: Seq<UvLockDependency>,
    name: Seq<char>,
) -> Seq<Option<Seq<char>>> {
    Seq::new(
        dependencies.len(),
        |i: int|
            if dependencies[i].name@ == name {
                uv_resolved(packages, dependencies[i])
            } else {
                None
            },
    )
}

impl UvLock {
    /// The first package of that name whose version, normalized, is `package_version`.
    pub fn package(&self, package_name: &str, package_version: &str) -> (r: Option<&UvLockPackage>)
        ensures
            match r {
                Some(p) => exists|i: int|
                    0 <= i < self.packages@.len() && package_matches(self.packages@, i, package_name@, package_version@)
                        && *p == self.packages@[i] && forall|j: int| 0 <= j < i ==> !#[trigger] package_matches(
                        self.packages@,
                        j,
                        package_name@,
                        package_version@,
                    ),
                None => forall|j: int| 0 <= j < self.packages@.len() ==> !#[trigger] package_matches(
                    self.packages@,
                    j,
                    package_name@,
                    package_version@,
                ),
            },
    {
        let n = self.packages.len();
        let mut i: usize = 0;
        while i < n
            invariant
                n == self.packages@.len(),
                0 <= i <= n,
                forall|j: int| 0 <= j < i ==> !#[trigger] package_matches(self.packages@, j, package_name@, package_version@),
            decreases n - i,
        {
            let p = &self.packages[i];
            if str_eq(p.name.as_str(), package_name) {
                let v = normalize_version(p.version.as_str());
                if str_eq(v.as_str(), package_version) {
                    assert(package_matches(self.packages@, i as int, package_name@, package_version@));
                    return Some(p);
                }
            }
            i = i + 1;
        }
        None
    }

    /// The one version that all packages named `dependency_name` are locked at; none
    /// where there are none or several.
    pub fn unique_package_version(&self, dependency_name: &str) -> (r: Option<String>)
        ensures
            opt_text(r) == sole_value(uv_versions_named(self.packages@, dependency_name@)),
    {
        let ghost s = uv_versions_named(self.packages@, dependency_name@);
        let n = self.packages.len();
        let mut versions: Vec<Option<String>> = Vec::new();
        let mut i: usize = 0;
        while i < n
            invariant
                n == self.packages@.len(),
                s == uv_versions_named(self.packages@, dependency_name@),
                0 <= i <= n,
                versions@.len() == i,
                forall|j: int| 0 <= j < i ==> #[trigger] opt_text(versions@[j]) == s[j],
            decreases n - i,
        {
            let p = &self.packages[i];
            if str_eq(p.name.as_str(), dependency_name) {
                versions.push(Some(p.version.clone()));
            } else {
                versions.push(None);
            }
            i = i + 1;
        }
        assert(versions@.map_values(|v: Option<String>| opt_text(v)) =~= s);
        sole_value_exec(&versions)
    }

    /// The version that a dependency entry resolves to.
    pub fn resolved_dependency_version(&self, dependency: &UvLockDependency) -> (r: Option<String>)
        ensures
            opt_text(r) == uv_resolved(self.packages@, *dependency),
    {
        match &dependency.version {
            Some(v) => Some(v.clone()),
            None => self.unique_package_version(dependency.name.as_str()),
        }
    }

    /// The one version that the direct dependencies named `dependency_name` of the package
    /// of that name and version resolve to.
    pub fn dependency_version_for_package(&self, package_name: &str, package_version: &str, dependency_name: &str) -> (r: Option<String>)
        ensures
            match self.package_spec(package_name@, package_version@) {
                Some(p) => opt_text(r) == sole_value(
                    uv_dependency_resolutions(self.packages@, p.direct_dependencies@, dependency_name@),
                ),
                None => r is None,
            },
    {
        let package = match self.package(package_name, package_version) {
            Some(p) => p,
            None => {
                proof { self.lemma_package_spec_none(package_name@, package_version@); }
                return None;
            },
        };
        proof { self.lemma_package_spec_some(package_name@, package_version@, *package); }
        let ghost deps = package.direct_dependencies@;
        let ghost s = uv_dependency_resolutions(self.packages@, deps, dependency_name@);
        let n = package.direct_dependencies.len();
        let mut versions: Vec<Option<String>> = Vec::new();
        let mut i: usize = 0;
        while i < n
            invariant
                n == deps.len(),
                deps == package.direct_dependencies@,
                s == uv_dependency_resolutions(self.packages@, deps, dependency_name@),
                0 <= i <= n,
                versions@.len() == i,
                forall|j: int| 0 <= j < i ==> #[trigger] opt_text(versions@[j]) == s[j],
            decreases n - i,
        {
            let d = &package.direct_dependencies[i];
            if str_eq(d.name.as_str(), dependency_name) {
                versions.push(self.resolved_dependency_version(d));
            } else {
                versions.push(None);
            }
            i = i + 1;
        }
        assert(versions@.map_values(|v: Option<String>| opt_text(v)) =~= s);
        sole_value_exec(&versions)
    }

    /// The first package of that name and normalized version.
    pub open spec fn package_spec(self, name: Seq<char>, version: Seq<char>) -> Option<UvLockPackage> {
        if exists|i: int| 0 <= i < self.packages@.len() && #[trigger] package_matches(self.packages@, i, name, version) {
            let i = choose|i: int|
                0 <= i < self.packages@.len() && #[trigger] package_matches(self.packages@, i, name, version) && forall|j: int|
                    0 <= j < i ==> !#[trigger] package_matches(self.packages@, j, name, version);
            Some(self.packages@[i])
        } else {
            None
        }
    }

    proof fn lemma_package_spec_none(self, name: Seq<char>, version: Seq<char>)
        requires
            forall|j: int| 0 <= j < self.packages@.len() ==> !#[trigger] package_matches(self.packages@, j, name, version),
        ensures
            self.package_spec(name, version) is None,
    {
    }

    proof fn lemma_package_spec_some(self, name: Seq<char>, version: Seq<char>, p: UvLockPackage)
        requires
            exists|i: int|
                0 <= i < self.packages@.len() && package_matches(self.packages@, i, name, version) && p == self.packages@[i]
                    && forall|j: int| 0 <= j < i ==> !#[trigger] package_matches(self.packages@, j, name, version),
        ensures
            self.package_spec(name, version) == Some(p),
    {
        let i = choose|i: int|
            0 <= i < self.packages@.len() && package_matches(self.packages@, i, name, version) && p == self.packages@[i]
                && forall|j: int| 0 <= j < i ==> !#[trigger] package_matches(self.packages@, j, name, version);
        assert(package_matches(self.packages@, i, name, version));
        let k = choose|k: int|
            0 <= k < self.packages@.len() && #[trigger] package_matches(self.packages@, k, name, version) && forall|j: int|
                0 <= j < k ==> !#[trigger] package_matches(self.packages@, j, name, version);
        if k < i {
            assert(!package_matches(self.packages@, k, name, version));
        }
        if i < k {
            assert(!package_matches(self.packages@, i, name, version));
        }
    }
}

/// The version hint label of a `pyproject.toml` dependency: ` → "version"`, left out where
/// the pinned version is already the resolved one.
pub fn version_hint_label(current_version: Option<&str>, resolved_version: &str) -> (r: Option<String>)
    ensures
        match current_version {
            Some(c) if c@ == resolved_version@ => r is None,
            _ => r matches Some(s) && s@ == " → \""@ + resolved_version@ + "\""@,
        },
{
    match current_version {
        Some(c) => {
            if str_eq(c, resolved_version) {
                return None;
            }
        },
        None => {},
    }
    let mut label = String::from_str(" → \"");
    label.append(resolved_version);
    label.append("\"");
    Some(label)
}

} // verus!

verus! {

/// A dependency entry as plain text.
pub open spec fn uv_dependency_view(d: UvLockDependency) -> (Seq<char>, Option<Seq<char>>) {
    (d.name@, opt_text(d.version))
}

/// The dependency that a `{ name = .., version = .. }` table of `uv.lock` gives.
pub open spec fn uv_dependency_of_value(value: Value) -> Option<(Seq<char>, Option<Seq<char>>)> {
    match value {
        Value::Table { .. } => match string_text(table_get(value, "name"@)) {
            Some(name) => Some((name, string_text(table_get(value, "version"@)))),
            None => None,
        },
        _ => None,
    }
}

/// The dependencies that the tables of an array give, in order.
pub open spec fn uv_dependencies_of_values(values: Seq<Value>) -> Seq<(Seq<char>, Option<Seq<char>>)>
    decreases values.len(),
{
    if values.len() == 0 {
        Seq::empty()
    } else {
        let rest = uv_dependencies_of_values(values.drop_last());
        match uv_dependency_of_value(values.last()) {
            Some(d) => rest.push(d),
            None => rest,
        }
    }
}

/// The dependencies of a `dependencies` array; none for anything else.
pub open spec fn uv_dependencies_of(value: Option<Value>) -> Seq<(Seq<char>, Option<Seq<char>>)> {
    match value {
        Some(Value::Array { values, .. }) => uv_dependencies_of_values(values@),
        _ => Seq::empty(),
    }
}

/// The dependencies of the arrays of a table of groups, group after group.
pub open spec fn uv_groups_of_entries(entries: Seq<(Key, Value)>) -> Seq<(Seq<char>, Option<Seq<char>>)>
    decreases entries.len(),
{
    if entries.len() == 0 {
        Seq::empty()
    } else {
        let rest = uv_groups_of_entries(entries.drop_last());
        match entries.last().1 {
            Value::Array { values, .. } => rest + uv_dependencies_of_values(values@),
            _ => rest,
        }
    }
}

/// The dependencies of a table of dependency groups; none for anything else.
pub open spec fn uv_dependency_groups_of(value: Option<Value>) -> Seq<(Seq<char>, Option<Seq<char>>)> {
    match value {
        Some(Value::Table { entries, .. }) => uv_groups_of_entries(entries@),
        _ => Seq::empty(),
    }
}

/// What a `[[package]]` table of `uv.lock` gives: its name, its version and its direct
/// dependencies (`dependencies`, then `optional-dependencies`, then `dev-dependencies`).
pub open spec fn uv_package_of_value(value: Value) -> Option<(Seq<char>, Seq<char>, Seq<(Seq<char>, Option<Seq<char>>)>)> {
    match value {
        Value::Table { .. } => match (string_text(table_get(value, "name"@)), string_text(table_get(value, "version"@))) {
            (Some(name), Some(version)) => Some(
                (
                    name,
                    version,
                    uv_dependencies_of(table_get(value, "dependencies"@)) + uv_dependency_groups_of(
                        table_get(value, "optional-dependencies"@),
                    ) + uv_dependency_groups_of(table_get(value, "dev-dependencies"@)),
                ),
            ),
            _ => None,
        },
        _ => None,
    }
}

/// A package as plain text.
pub open spec fn uv_package_view(p: UvLockPackage) -> (Seq<char>, Seq<char>, Seq<(Seq<char>, Option<Seq<char>>)>) {
    (p.name@, p.version@, p.direct_dependencies@.map_values(|d: UvLockDependency| uv_dependency_view(d)))
}

/// The packages that the `[[package]]` tables of a lockfile give, in order.
pub open spec fn uv_packages_of_values(values: Seq<Value>) -> Seq<(Seq<char>, Seq<char>, Seq<(Seq<char>, Option<Seq<char>>)>)>
    decreases values.len(),
{
    if values.len() == 0 {
        Seq::empty()
    } else {
        let rest = uv_packages_of_values(values.drop_last());
        match uv_package_of_value(values.last()) {
            Some(p) => rest.push(p),
            None => rest,
        }
    }
}

impl UvLockDependency {
    /// Reads a dependency table; one without a string name is none.
    pub fn from_value(value: &Value) -> (r: Option<UvLockDependency>)
        ensures
            match uv_dependency_of_value(*value) {
                Some(d) => r matches Some(x) && uv_dependency_view(x) == d,
                None => r is None,
            },
    {
        match value {
            Value::Table { .. } => {},
            _ => return None,
        }
        let name = match value.get_string("name") {
            Some(name) => name.clone(),
            None => return None,
        };
        let version = match value.get_string("version") {
            Some(version) => Some(version.clone()),
            None => None,
        };
        Some(UvLockDependency { name, version })
    }
}

/// Appends the dependencies that the tables of `values` give.
fn push_dependencies_of_values(out: &mut Vec<UvLockDependency>, values: &Vec<Value>)
    ensures
        final(out)@.map_values(|d: UvLockDependency| uv_dependency_view(d)) == old(out)@.map_values(
            |d: UvLockDependency| uv_dependency_view(d),
        ) + uv_dependencies_of_values(values@),
{
    let ghost start = out@.map_values(|d: UvLockDependency| uv_dependency_view(d));
    let n = values.len();
    let mut i: usize = 0;
    assert(start + uv_dependencies_of_values(values@.take(0)) =~= start);
    while i < n
        invariant
            n == values@.len(),
            0 <= i <= n,
            out@.map_values(|d: UvLockDependency| uv_dependency_view(d)) == start + uv_dependencies_of_values(values@.take(i as int)),
        decreases n - i,
    {
        assert(values@.take(i + 1).drop_last() =~= values@.take(i as int));
        assert(values@.take(i + 1).last() == values@[i as int]);
        let ghost before = out@;
        match UvLockDependency::from_value(&values[i]) {
            Some(d) => {
                out.push(d);
                assert(uv_dependencies_of_values(values@.take(i + 1)) == uv_dependencies_of_values(
                    values@.take(i as int),
                ).push(uv_dependency_view(d)));
                assert(out@ =~= before.push(d));
                assert(out@.map_values(|d: UvLockDependency| uv_dependency_view(d)) =~= before.map_values(
                    |d: UvLockDependency| uv_dependency_view(d),
                ).push(uv_dependency_view(d)));
                assert(out@.map_values(|d: UvLockDependency| uv_dependency_view(d)) =~= start
                    + uv_dependencies_of_values(values@.take(i + 1)));
            },
            None => {},
        }
        i = i + 1;
    }
    assert(values@.take(n as int) =~= values@);
}

/// The dependencies of a `dependencies` array.
pub fn uv_dependencies(value: Option<&Value>) -> (r: Vec<UvLockDependency>)
    ensures
        r@.map_values(|d: UvLockDependency| uv_dependency_view(d)) == uv_dependencies_of(
            match value {
                Some(v) => Some(*v),
                None => None,
            },
        ),
{
    let mut out: Vec<UvLockDependency> = Vec::new();
    match value {
        Some(Value::Array { values, .. }) => {
            push_dependencies_of_values(&mut out, values);
            assert(out@.map_values(|d: UvLockDependency| uv_dependency_view(d)) =~= uv_dependencies_of_values(values@));
        },
        _ => {
            assert(out@.map_values(|d: UvLockDependency| uv_dependency_view(d)) =~= Seq::<(Seq<char>, Option<Seq<char>>)>::empty());
        },
    }
    out
}

/// The dependencies of a table of dependency groups, group after group.
pub fn uv_dependency_groups(value: Option<&Value>) -> (r: Vec<UvLockDependency>)
    ensures
        r@.map_values(|d: UvLockDependency| uv_dependency_view(d)) == uv_dependency_groups_of(
            match value {
                Some(v) => Some(*v),
                None => None,
            },
        ),
{
    let mut out: Vec<UvLockDependency> = Vec::new();
    match value {
        Some(Value::Table { entries, .. }) => {
            let n = entries.len();
            let mut i: usize = 0;
            assert(out@.map_values(|d: UvLockDependency| uv_dependency_view(d)) =~= uv_groups_of_entries(entries@.take(0)));
            while i < n
                invariant
                    n == entries@.len(),
                    0 <= i <= n,
                    out@.map_values(|d: UvLockDependency| uv_dependency_view(d)) == uv_groups_of_entries(entries@.take(i as int)),
                decreases n - i,
            {
                assert(entries@.take(i + 1).drop_last() =~= entries@.take(i as int));
                assert(entries@.take(i + 1).last() == entries@[i as int]);
                match &entries[i].1 {
                    Value::Array { values, .. } => {
                        push_dependencies_of_values(&mut out, values);
                    },
                    _ => {},
                }
                i = i + 1;
            }
            assert(entries@.take(n as int) =~= entries@);
        },
        _ => {
            assert(out@.map_values(|d: UvLockDependency| uv_dependency_view(d)) =~= Seq::<(Seq<char>, Option<Seq<char>>)>::empty());
        },
    }
    out
}

impl UvLockPackage {
    /// Reads a `[[package]]` table; one without a string name and version is none.
    pub fn from_value(value: &Value) -> (r: Option<UvLockPackage>)
        ensures
            match uv_package_of_value(*value) {
                Some(p) => r matches Some(x) && uv_package_view(x) == p,
                None => r is None,
            },
    {
        match value {
            Value::Table { .. } => {},
            _ => return None,
        }
        let name = match value.get_string("name") {
            Some(name) => name.clone(),
            None => return None,
        };
        let version = match value.get_string("version") {
            Some(version) => version.clone(),
            None => return None,
        };
        let mut direct_dependencies = uv_dependencies(value.get("dependencies"));
        let mut optional = uv_dependency_groups(value.get("optional-dependencies"));
        let mut dev = uv_dependency_groups(value.get("dev-dependencies"));
        let ghost a = direct_dependencies@;
        let ghost b = optional@;
        let ghost c = dev@;
        direct_dependencies.append(&mut optional);
        direct_dependencies.append(&mut dev);
        assert(direct_dependencies@ =~= a + b + c);
        assert((a + b + c).map_values(|d: UvLockDependency| uv_dependency_view(d)) =~= a.map_values(
            |d: UvLockDependency| uv_dependency_view(d),
        ) + b.map_values(|d: UvLockDependency| uv_dependency_view(d)) + c.map_values(
            |d: UvLockDependency| uv_dependency_view(d),
        ));
        Some(UvLockPackage { name, version, direct_dependencies })
    }
}

impl UvLock {
    /// Reads the `package` array of a parsed `uv.lock`; a file without one is no lockfile.
    pub fn from_document_tree(document_tree: &Value) -> (r: Option<UvLock>)
        ensures
            match table_get(*document_tree, "package"@) {
                Some(Value::Array { values, .. }) => r matches Some(l) && l.packages@.map_values(
                    |p: UvLockPackage| uv_package_view(p),
                ) == uv_packages_of_values(values@),
                _ => r is None,
            },
    {
        match document_tree.get("package") {
            Some(Value::Array { values, .. }) => {
                let mut packages: Vec<UvLockPackage> = Vec::new();
                let n = values.len();
                let mut i: usize = 0;
                while i < n
                    invariant
                        n == values@.len(),
                        0 <= i <= n,
                        packages@.map_values(|p: UvLockPackage| uv_package_view(p)) == uv_packages_of_values(values@.take(i as int)),
                    decreases n - i,
                {
                    assert(values@.take(i + 1).drop_last() =~= values@.take(i as int));
                    match UvLockPackage::from_value(&values[i]) {
                        Some(p) => {
                            packages.push(p);
                            assert(packages@.map_values(|p: UvLockPackage| uv_package_view(p))
                                =~= uv_packages_of_values(values@.take(i + 1)));
                        },
                        None => {},
                    }
                    i = i + 1;
                }
                assert(values@.take(n as int) =~= values@);
                Some(UvLock { packages })
            },
            _ => None,
        }
    }
}

} // verus!
