//! The lockfile data that inlay hints read: for each locked package, the version that each
//! of its dependencies resolves to.

use vstd::prelude::*;

use crate::cargo_lock::{
    any_value, depends_on, explicit_versions, lookup,
    lookup_flat, opt_text, resolved_for, sole_value, unique_version, version_table_of, lemma_has_package,
    has_package, versions_named, CargoLock, CargoLockPackage,
};
use crate::text::{str_eq, to_owned};

verus! {

/// The name of a locked crate.
#[derive(Debug, Clone)]
pub struct CrateName(pub String);

/// The version of a locked crate.
#[derive(Debug, Clone)]
pub struct CrateVersion(pub String);

/// The name of a dependency of a locked crate.
#[derive(Debug, Clone)]
pub struct DependencyCrateName(pub String);

/// The version that a dependency resolves to.
#[derive(Debug, Clone)]
pub struct ResolvedDependencyVersion {
    pub version: String,
}

impl CrateName {
    pub fn new(crate_name: &str) -> (r: CrateName)
        ensures
            r.0@ == crate_name@,
    {
        CrateName(to_owned(crate_name))
    }
}

impl CrateVersion {
    pub fn new(crate_version: &str) -> (r: CrateVersion)
        ensures
            r.0@ == crate_version@,
    {
        CrateVersion(to_owned(crate_version))
    }
}

impl DependencyCrateName {
    pub fn new(dependency_name: &str) -> (r: DependencyCrateName)
        ensures
            r.0@ == dependency_name@,
    {
        DependencyCrateName(to_owned(dependency_name))
    }
}

impl ResolvedDependencyVersion {
    pub fn new(version: String) -> (r: ResolvedDependencyVersion)
        ensures
            r.version == version,
    {
        ResolvedDependencyVersion { version }
    }
}

/// The value paired with `key`, the first pair where the key occurs twice.
pub open spec fn pair_lookup(pairs: Seq<(Seq<char>, Seq<char>)>, key: Seq<char>) -> Option<Seq<char>>
    decreases pairs.len(),
{
    if pairs.len() == 0 {
        None
    } else if pairs[0].0 == key {
        Some(pairs[0].1)
    } else {
        pair_lookup(pairs.drop_first(), key)
    }
}

pub proof fn lemma_pair_lookup_first(pairs: Seq<(Seq<char>, Seq<char>)>, key: Seq<char>, k: int)
    requires
        0 <= k < pairs.len(),
        pairs[k].0 == key,
        forall|j: int| 0 <= j < k ==> #[trigger] pairs[j].0 != key,
    ensures
        pair_lookup(pairs, key) == Some(pairs[k].1),
    decreases pairs.len(),
{
    if k > 0 {
        assert forall|j: int| 0 <= j < k - 1 implies #[trigger] pairs.drop_first()[j].0 != key by {
            assert(pairs.drop_first()[j] == pairs[j + 1]);
        }
        assert(pairs[0].0 != key);
        lemma_pair_lookup_first(pairs.drop_first(), key, k - 1);
    }
}

pub proof fn lemma_pair_lookup_none(pairs: Seq<(Seq<char>, Seq<char>)>, key: Seq<char>)
    requires
        forall|j: int| 0 <= j < pairs.len() ==> #[trigger] pairs[j].0 != key,
    ensures
        pair_lookup(pairs, key) is None,
    decreases pairs.len(),
{
    if pairs.len() > 0 {
        assert(pairs[0].0 != key);
        assert forall|j: int| 0 <= j < pairs.len() - 1 implies #[trigger] pairs.drop_first()[j].0 != key by {
            assert(pairs.drop_first()[j] == pairs[j + 1]);
        }
        lemma_pair_lookup_none(pairs.drop_first(), key);
    }
}

pub proof fn lemma_pair_lookup_push(pairs: Seq<(Seq<char>, Seq<char>)>, e: (Seq<char>, Seq<char>), key: Seq<char>)
    ensures
        pair_lookup(pairs.push(e), key) == if pair_lookup(pairs, key) is Some {
            pair_lookup(pairs, key)
        } else if e.0 == key {
            Some(e.1)
        } else {
            None
        },
    decreases pairs.len(),
{
    if pairs.len() > 0 {
        assert(pairs.push(e).drop_first() =~= pairs.drop_first().push(e));
        assert(pairs.push(e)[0] == pairs[0]);
        lemma_pair_lookup_push(pairs.drop_first(), e, key);
    } else {
        assert(pairs.push(e).drop_first() =~= Seq::<(Seq<char>, Seq<char>)>::empty());
        reveal_with_fuel(pair_lookup, 2);
    }
}

/// A dependency that a package does not depend on resolves to nothing.
pub proof fn lemma_resolved_for_absent(deps: Seq<crate::cargo_lock::CargoLockDependency>, name: Seq<char>, unique: Option<Seq<char>>)
    requires
        !depends_on(deps, name),
    ensures
        resolved_for(deps, name, unique) is None,
{
    let ex = explicit_versions(deps, name);
    if any_value(ex) {
        let i = choose|i: int| 0 <= i < ex.len() && #[trigger] ex[i] is Some;
        assert(deps[i].name@ == name);
    }
}

/// A version table of the packages gives each name its unique version.
pub proof fn lemma_lookup_flat_unique(table: Seq<(String, Option<String>)>, packages: Seq<CargoLockPackage>, name: Seq<char>)
    requires
        version_table_of(table, packages),
    ensures
        lookup_flat(table, name) == unique_version(packages, name),
{
    lemma_has_package(packages, name);
    assert(lookup(table, name) == if has_package(packages, name) {
        Some(unique_version(packages, name))
    } else {
        None
    });
    if !has_package(packages, name) {
        let s = versions_named(packages, name);
        if sole_value(s) is Some {
            let k = choose|i: int| 0 <= i < s.len() && #[trigger] s[i] is Some;
            assert(false);
        }
    }
}

/// The dependencies of one locked package with the versions they resolve to.
#[derive(Debug, Clone)]
pub struct CrateResolvedDependencies {
    pub by_dependency: Vec<(DependencyCrateName, ResolvedDependencyVersion)>,
}

impl CrateResolvedDependencies {
    /// The dependencies as pairs of name and version.
    pub open spec fn pairs(self) -> Seq<(Seq<char>, Seq<char>)> {
        self.by_dependency@.map_values(
            |e: (DependencyCrateName, ResolvedDependencyVersion)| (e.0.0@, e.1.version@),
        )
    }

    /// The version that `dependency_name` resolves to.
    pub fn get(&self, dependency_name: &str) -> (r: Option<&ResolvedDependencyVersion>)
        ensures
            match pair_lookup(self.pairs(), dependency_name@) {
                Some(v) => r matches Some(x) && x.version@ == v,
                None => r is None,
            },
    {
        let n = self.by_dependency.len();
        let ghost p = self.pairs();
        let mut i: usize = 0;
        while i < n
            invariant
                n == self.by_dependency@.len(),
                p == self.pairs(),
                0 <= i <= n,
                forall|j: int| 0 <= j < i ==> #[trigger] p[j].0 != dependency_name@,
            decreases n - i,
        {
            if str_eq(self.by_dependency[i].0.0.as_str(), dependency_name) {
                proof { lemma_pair_lookup_first(p, dependency_name@, i as int); }
                return Some(&self.by_dependency[i].1);
            }
            i = i + 1;
        }
        proof { lemma_pair_lookup_none(p, dependency_name@); }
        None
    }
}

impl CargoLockPackage {
    /// Each dependency of this package with the version it resolves to, given the table of
    /// unique locked versions; dependencies that resolve to none are left out.
    pub fn resolved_dependencies(&self, unique_package_versions: &Vec<(String, Option<String>)>) -> (r: CrateResolvedDependencies)
        ensures
            forall|name: Seq<char>| #[trigger] pair_lookup(r.pairs(), name) == resolved_for(
                self.dependencies@,
                name,
                lookup_flat(unique_package_versions@, name),
            ),
    {
        let ghost deps = self.dependencies@;
        let n = self.dependencies.len();
        let mut result = CrateResolvedDependencies { by_dependency: Vec::new() };
        let mut i: usize = 0;
        while i < n
            invariant
                n == deps.len(),
                deps == self.dependencies@,
                0 <= i <= n,
                forall|name: Seq<char>| #[trigger] pair_lookup(result.pairs(), name) == if depends_on(deps.take(i as int), name) {
                    resolved_for(deps, name, lookup_flat(unique_package_versions@, name))
                } else {
                    None
                },
            decreases n - i,
        {
            let d = &self.dependencies[i];
            let ghost old_pairs = result.pairs();
            let ghost dn = d.name@;
            let known = result.get(d.name.as_str()).is_some();
            if !known {
                match self.lockfile_resolved_dependency_version(d.name.as_str(), unique_package_versions) {
                    Some(v) => {
                        result.by_dependency.push((DependencyCrateName::new(d.name.as_str()), ResolvedDependencyVersion::new(v)));
                    },
                    None => {},
                }
            }
            proof {
                assert forall|name: Seq<char>| #[trigger] pair_lookup(result.pairs(), name) == if depends_on(deps.take(i + 1), name) {
                    resolved_for(deps, name, lookup_flat(unique_package_versions@, name))
                } else {
                    None
                } by {
                    assert(depends_on(deps.take(i + 1), name) == (depends_on(deps.take(i as int), name) || dn == name)) by {
                        if depends_on(deps.take(i + 1), name) {
                            let j = choose|j: int| 0 <= j < i + 1 && #[trigger] deps.take(i + 1)[j].name@ == name;
                            if j < i {
                                assert(deps.take(i as int)[j].name@ == name);
                            }
                        }
                        if depends_on(deps.take(i as int), name) {
                            let j = choose|j: int| 0 <= j < i && #[trigger] deps.take(i as int)[j].name@ == name;
                            assert(deps.take(i + 1)[j].name@ == name);
                        }
                        if dn == name {
                            assert(deps.take(i + 1)[i as int].name@ == name);
                        }
                    }
                    if !known && result.pairs().len() > old_pairs.len() {
                        assert(result.pairs() =~= old_pairs.push(result.pairs().last()));
                        lemma_pair_lookup_push(old_pairs, result.pairs().last(), name);
                    } else {
                        assert(result.pairs() =~= old_pairs);
                    }
                }
            }
            i = i + 1;
        }
        proof {
            assert(deps.take(n as int) =~= deps);
            assert forall|name: Seq<char>| #[trigger] pair_lookup(result.pairs(), name) == resolved_for(
                deps,
                name,
                lookup_flat(unique_package_versions@, name),
            ) by {
                if !depends_on(deps, name) {
                    lemma_resolved_for_absent(deps, name, lookup_flat(unique_package_versions@, name));
                }
            }
        }
        result
    }
}

} // verus!

verus! {

/// The resolved dependencies of the last entry for a crate name and version.
pub open spec fn last_entry(
    entries: Seq<(Seq<char>, Seq<char>, Seq<(Seq<char>, Seq<char>)>)>,
    crate_name: Seq<char>,
    crate_version: Seq<char>,
) -> Option<Seq<(Seq<char>, Seq<char>)>>
    decreases entries.len(),
{
    if entries.len() == 0 {
        None
    } else if entries.last().0 == crate_name && entries.last().1 == crate_version {
        Some(entries.last().2)
    } else {
        last_entry(entries.drop_last(), crate_name, crate_version)
    }
}

/// The version that the entries give `dependency_name` in the crate of that name and version.
pub open spec fn cache_resolution(
    entries: Seq<(Seq<char>, Seq<char>, Seq<(Seq<char>, Seq<char>)>)>,
    crate_name: Seq<char>,
    crate_version: Seq<char>,
    dependency_name: Seq<char>,
) -> Option<Seq<char>> {
    match last_entry(entries, crate_name, crate_version) {
        Some(pairs) => pair_lookup(pairs, dependency_name),
        None => None,
    }
}

/// The last locked package of that name and version.
pub open spec fn last_package(packages: Seq<CargoLockPackage>, crate_name: Seq<char>, crate_version: Seq<char>) -> Option<CargoLockPackage>
    decreases packages.len(),
{
    if packages.len() == 0 {
        None
    } else if packages.last().name@ == crate_name && packages.last().version@ == crate_version {
        Some(packages.last())
    } else {
        last_package(packages.drop_last(), crate_name, crate_version)
    }
}

/// The version that a lockfile resolves `dependency_name` to for the package of that name
/// and version (the last such package where several are listed).
pub open spec fn lock_resolution(
    packages: Seq<CargoLockPackage>,
    crate_name: Seq<char>,
    crate_version: Seq<char>,
    dependency_name: Seq<char>,
) -> Option<Seq<char>> {
    match last_package(packages, crate_name, crate_version) {
        Some(p) => resolved_for(p.dependencies@, dependency_name, unique_version(packages, dependency_name)),
        None => None,
    }
}

/// For each locked crate name and version, the versions its dependencies resolve to.
#[derive(Debug, Clone)]
pub struct CargoLockInlayCacheData {
    pub crates: Vec<(CrateName, CrateVersion, CrateResolvedDependencies)>,
}

impl CargoLockInlayCacheData {
    /// The entries as plain text.
    pub open spec fn entries(self) -> Seq<(Seq<char>, Seq<char>, Seq<(Seq<char>, Seq<char>)>)> {
        self.crates@.map_values(
            |e: (CrateName, CrateVersion, CrateResolvedDependencies)| (e.0.0@, e.1.0@, e.2.pairs()),
        )
    }

    /// The version that `dependency_name` resolves to in the crate of that name and version.
    pub fn resolved_dependency_version(&self, crate_name: &str, crate_version: &str, dependency_name: &str) -> (r: Option<String>)
        ensures
            opt_text(r) == cache_resolution(self.entries(), crate_name@, crate_version@, dependency_name@),
    {
        let ghost es = self.entries();
        let mut i: usize = self.crates.len();
        assert(es.take(i as int) =~= es);
        while i > 0
            invariant
                es == self.entries(),
                0 <= i <= es.len(),
                last_entry(es, crate_name@, crate_version@) == last_entry(es.take(i as int), crate_name@, crate_version@),
            decreases i,
        {
            let e = &self.crates[i - 1];
            assert(es.take(i as int).last() == es[i - 1]);
            if str_eq(e.0.0.as_str(), crate_name) && str_eq(e.1.0.as_str(), crate_version) {
                return match e.2.get(dependency_name) {
                    Some(v) => Some(v.version.clone()),
                    None => None,
                };
            }
            assert(es.take(i as int).drop_last() =~= es.take(i - 1));
            i = i - 1;
        }
        None
    }
}

impl CargoLock {
    /// The lockfile data that inlay hints read: for every package, the version that each
    /// of its dependencies resolves to.
    pub fn into_inlay_cache_data(self) -> (r: CargoLockInlayCacheData)
        ensures
            forall|crate_name: Seq<char>, crate_version: Seq<char>, dependency_name: Seq<char>|
                #[trigger] cache_resolution(r.entries(), crate_name, crate_version, dependency_name)
                    == lock_resolution(self.locked(), crate_name, crate_version, dependency_name),
    {
        let (packages, table) = self.into_parts();
        let ghost pk = packages@;
        let n = packages.len();
        let mut data = CargoLockInlayCacheData { crates: Vec::new() };
        let mut i: usize = 0;
        while i < n
            invariant
                n == pk.len(),
                pk == packages@,
                version_table_of(table@, pk),
                0 <= i <= n,
                forall|cn: Seq<char>, cv: Seq<char>, dn: Seq<char>|
                    #[trigger] cache_resolution(data.entries(), cn, cv, dn) == match last_package(pk.take(i as int), cn, cv) {
                        Some(p) => resolved_for(p.dependencies@, dn, unique_version(pk, dn)),
                        None => None,
                    },
            decreases n - i,
        {
            let p = &packages[i];
            let ghost old_entries = data.entries();
            let deps = p.resolved_dependencies(&table);
            data.crates.push((CrateName::new(p.name.as_str()), CrateVersion::new(p.version.as_str()), deps));
            proof {
                assert(data.entries() =~= old_entries.push(data.entries().last()));
                assert(data.entries().push(data.entries().last()).drop_last() =~= data.entries());
                assert(pk.take(i + 1).drop_last() =~= pk.take(i as int));
                assert(pk.take(i + 1).last() == pk[i as int]);
                assert forall|cn: Seq<char>, cv: Seq<char>, dn: Seq<char>|
                    #[trigger] cache_resolution(data.entries(), cn, cv, dn) == match last_package(pk.take(i + 1), cn, cv) {
                        Some(p) => resolved_for(p.dependencies@, dn, unique_version(pk, dn)),
                        None => None,
                    } by {
                    assert(data.entries().drop_last() =~= old_entries);
                    lemma_lookup_flat_unique(table@, pk, dn);
                    assert(cache_resolution(old_entries, cn, cv, dn) == match last_package(pk.take(i as int), cn, cv) {
                        Some(p) => resolved_for(p.dependencies@, dn, unique_version(pk, dn)),
                        None => None,
                    });
                }
            }
            i = i + 1;
        }
        assert(pk.take(n as int) =~= pk);
        data
    }
}

} // verus!
