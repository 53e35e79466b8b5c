//! The caches of manifests that opening a `Cargo.toml` fills: a bounded map from a
//! manifest's path to what was read from it. When the cache is full, a new path takes the
//! place of the oldest one.

use vstd::prelude::*;

use crate::document::Value;
use crate::text::str_eq;

verus! {

/// How many manifests each cache keeps.
pub const MAX_DID_OPEN_CARGO_TOML_CACHE_ENTRIES: usize = 128;

/// A bounded map from manifest paths to values, oldest first.
pub struct ManifestCache<V> {
    entries: Vec<(String, V)>,
}

/// Whether no path occurs twice.
pub open spec fn unique_paths<V>(s: Seq<(String, V)>) -> bool {
    forall|i: int, j: int| 0 <= i < j < s.len() ==> #[trigger] s[i].0@ != #[trigger] s[j].0@
}

/// The map that a list of entries stands for.
pub open spec fn map_of<V>(s: Seq<(String, V)>) -> Map<Seq<char>, V>
    decreases s.len(),
{
    if s.len() == 0 {
        Map::empty()
    } else {
        map_of(s.drop_last()).insert(s.last().0@, s.last().1)
    }
}

/// A path is in the map exactly where an entry holds it.
proof fn lemma_map_of_keys<V>(s: Seq<(String, V)>)
    ensures
        forall|k: Seq<char>| #[trigger] map_of(s).contains_key(k) <==> exists|i: int| 0 <= i < s.len() && s[i].0@ == k,
    decreases s.len(),
{
    if s.len() > 0 {
        lemma_map_of_keys(s.drop_last());
        assert forall|k: Seq<char>| #[trigger] map_of(s).contains_key(k) implies exists|i: int|
            0 <= i < s.len() && s[i].0@ == k by {
            if k != s.last().0@ {
                assert(map_of(s.drop_last()).contains_key(k));
                let i = choose|i: int| 0 <= i < s.drop_last().len() && s.drop_last()[i].0@ == k;
                assert(s[i] == s.drop_last()[i]);
            } else {
                assert(s[s.len() - 1].0@ == k);
            }
        }
        assert forall|k: Seq<char>| (exists|i: int| 0 <= i < s.len() && s[i].0@ == k) implies #[trigger] map_of(
            s,
        ).contains_key(k) by {
            let i = choose|i: int| 0 <= i < s.len() && s[i].0@ == k;
            if i < s.len() - 1 {
                assert(s.drop_last()[i] == s[i]);
                assert(s.drop_last()[i].0@ == k);
                assert(map_of(s.drop_last()).contains_key(k));
            } else {
                assert(s.last().0@ == k);
            }
        }
    }
}

/// Where the paths are unique, the map gives each entry's value for its path.
proof fn lemma_map_of_value<V>(s: Seq<(String, V)>, i: int)
    requires
        unique_paths(s),
        0 <= i < s.len(),
    ensures
        map_of(s).contains_key(s[i].0@),
        map_of(s)[s[i].0@] == s[i].1,
    decreases s.len(),
{
    if i < s.len() - 1 {
        assert(unique_paths(s.drop_last())) by {
            assert forall|a: int, b: int| 0 <= a < b < s.drop_last().len() implies #[trigger] s.drop_last()[a].0@
                != #[trigger] s.drop_last()[b].0@ by {
                assert(s.drop_last()[a] == s[a]);
                assert(s.drop_last()[b] == s[b]);
            }
        }
        assert(s.drop_last()[i] == s[i]);
        lemma_map_of_value(s.drop_last(), i);
        assert(s[i].0@ != s[s.len() - 1].0@);
    }
}

/// The paths of unique entries are as many as the entries.
proof fn lemma_dom_len<V>(s: Seq<(String, V)>)
    requires
        unique_paths(s),
    ensures
        map_of(s).dom().finite(),
        map_of(s).dom().len() == s.len(),
    decreases s.len(),
{
    if s.len() > 0 {
        let init = s.drop_last();
        assert(unique_paths(init)) by {
            assert forall|a: int, b: int| 0 <= a < b < init.len() implies #[trigger] init[a].0@ != #[trigger] init[b].0@ by {
                assert(init[a] == s[a]);
                assert(init[b] == s[b]);
            }
        }
        lemma_dom_len(init);
        lemma_map_of_keys(init);
        assert(!map_of(init).contains_key(s.last().0@)) by {
            if map_of(init).contains_key(s.last().0@) {
                let i = choose|i: int| 0 <= i < init.len() && init[i].0@ == s.last().0@;
                assert(init[i] == s[i]);
            }
        }
    }
}

impl<V> ManifestCache<V> {
    #[verifier::type_invariant]
    spec fn well_formed(self) -> bool {
        self.entries@.len() <= MAX_DID_OPEN_CARGO_TOML_CACHE_ENTRIES && unique_paths(self.entries@)
    }

    /// The cached values by path.
    pub closed spec fn contents(self) -> Map<Seq<char>, V> {
        map_of(self.entries@)
    }

    /// How many paths the cache holds.
    pub closed spec fn size(self) -> nat {
        self.entries@.len()
    }

    /// An empty cache.
    pub fn new() -> (r: Self)
        ensures
            r.contents() == Map::<Seq<char>, V>::empty(),
            r.size() == 0,
    {
        ManifestCache { entries: Vec::new() }
    }

    /// How many paths the cache holds: one value each, and never more than the bound.
    pub fn len(&self) -> (r: usize)
        ensures
            r == self.size(),
            r <= MAX_DID_OPEN_CARGO_TOML_CACHE_ENTRIES,
            self.contents().dom().finite(),
            self.contents().dom().len() == r,
    {
        proof {
            use_type_invariant(self);
            lemma_dom_len(self.entries@);
        }
        self.entries.len()
    }

    /// The value cached for `path`.
    pub fn get(&self, path: &str) -> (r: Option<&V>)
        ensures
            match r {
                Some(v) => self.contents().contains_key(path@) && *v == self.contents()[path@],
                None => !self.contents().contains_key(path@),
            },
    {
        proof {
            use_type_invariant(self);
            lemma_map_of_keys(self.entries@);
        }
        let n = self.entries.len();
        let mut i: usize = 0;
        while i < n
            invariant
                n == self.entries@.len(),
                unique_paths(self.entries@),
                0 <= i <= n,
                forall|j: int| 0 <= j < i ==> self.entries@[j].0@ != path@,
            decreases n - i,
        {
            if str_eq(self.entries[i].0.as_str(), path) {
                proof {
                    lemma_map_of_value(self.entries@, i as int);
                }
                return Some(&self.entries[i].1);
            }
            i = i + 1;
        }
        None
    }

    /// Caches `value` for `path`. A path that is already cached gets the new value in its
    /// place; a new path, where the cache is full, takes the place of the oldest one.
    pub fn insert(&mut self, path: String, value: V)
        ensures
            final(self).contents().contains_key(path@),
            final(self).contents()[path@] == value,
            final(self).size() <= MAX_DID_OPEN_CARGO_TOML_CACHE_ENTRIES,
            old(self).contents().contains_key(path@) || old(self).size() < MAX_DID_OPEN_CARGO_TOML_CACHE_ENTRIES
                ==> final(self).contents() == old(self).contents().insert(path@, value),
            !old(self).contents().contains_key(path@) && old(self).size() >= MAX_DID_OPEN_CARGO_TOML_CACHE_ENTRIES
                ==> exists|evicted: Seq<char>|
                old(self).contents().contains_key(evicted) && final(self).contents() == old(self).contents().remove(
                    evicted,
                ).insert(path@, value),
            final(self).size() == if old(self).contents().contains_key(path@) || old(self).size()
                < MAX_DID_OPEN_CARGO_TOML_CACHE_ENTRIES {
                if old(self).contents().contains_key(path@) {
                    old(self).size()
                } else {
                    old(self).size() + 1
                }
            } else {
                old(self).size()
            },
    {
        proof {
            use_type_invariant(&*self);
            lemma_map_of_keys(self.entries@);
        }
        let ghost old_entries = self.entries@;
        let ghost old_map = map_of(old_entries);
        let mut entries: Vec<(String, V)> = Vec::new();
        std::mem::swap(&mut entries, &mut self.entries);
        let n = entries.len();
        let mut i: usize = 0;
        while i < n
            invariant
                n == entries@.len(),
                entries@ == old_entries,
                0 <= i <= n,
                forall|j: int| 0 <= j < i ==> entries@[j].0@ != path@,
            ensures
                0 <= i <= n,
                forall|j: int| 0 <= j < i ==> entries@[j].0@ != path@,
                i < n ==> entries@[i as int].0@ == path@,
            decreases n - i,
        {
            if str_eq(entries[i].0.as_str(), path.as_str()) {
                break;
            }
            i = i + 1;
        }
        if i < n {
            entries.set(i, (path, value));
            proof {
                let s = entries@;
                assert(unique_paths(s)) by {
                    assert forall|a: int, b: int| 0 <= a < b < s.len() implies #[trigger] s[a].0@ != #[trigger] s[b].0@ by {
                        if a == i {
                            assert(old_entries[i as int].0@ == s[a].0@);
                        } else if b == i {
                            assert(old_entries[i as int].0@ == s[b].0@);
                        }
                    }
                }
                lemma_map_of_keys(s);
                assert forall|k: Seq<char>| #[trigger] map_of(s).contains_key(k) == old_map.insert(
                    path@,
                    s[i as int].1,
                ).contains_key(k) by {
                    if k != path@ && map_of(s).contains_key(k) {
                        let j = choose|j: int| 0 <= j < s.len() && s[j].0@ == k;
                        assert(old_entries[j] == s[j]);
                    }
                    if k != path@ && old_map.contains_key(k) {
                        let j = choose|j: int| 0 <= j < old_entries.len() && old_entries[j].0@ == k;
                        assert(j != i);
                        assert(old_entries[j] == s[j]);
                    }
                }
                assert forall|k: Seq<char>| map_of(s).contains_key(k) implies #[trigger] map_of(s)[k] == old_map.insert(
                    path@,
                    s[i as int].1,
                )[k] by {
                    let j = choose|j: int| 0 <= j < s.len() && s[j].0@ == k;
                    lemma_map_of_value(s, j);
                    if j != i {
                        assert(old_entries[j] == s[j]);
                        lemma_map_of_value(old_entries, j);
                    }
                }
                assert(map_of(s) =~= old_map.insert(path@, s[i as int].1));
            }
            self.entries = entries;
            return;
        }
        assert(!old_map.contains_key(path@));
        if n >= MAX_DID_OPEN_CARGO_TOML_CACHE_ENTRIES {
            let evicted = entries.remove(0);
            let ghost e = evicted.0@;
            let ghost rest = entries@;
            entries.push((path, value));
            proof {
                let s = entries@;
                assert(rest =~= old_entries.skip(1));
                assert(unique_paths(s)) by {
                    assert forall|a: int, b: int| 0 <= a < b < s.len() implies #[trigger] s[a].0@ != #[trigger] s[b].0@ by {
                        if b == s.len() - 1 {
                            assert(s[a] == old_entries[a + 1]);
                        } else {
                            assert(s[a] == old_entries[a + 1]);
                            assert(s[b] == old_entries[b + 1]);
                        }
                    }
                }
                lemma_map_of_keys(s);
                assert(old_map.contains_key(e)) by {
                    assert(old_entries[0].0@ == e);
                }
                let target = old_map.remove(e).insert(path@, s.last().1);
                assert forall|k: Seq<char>| #[trigger] map_of(s).contains_key(k) == target.contains_key(k) by {
                    if k != path@ && map_of(s).contains_key(k) {
                        let j = choose|j: int| 0 <= j < s.len() && s[j].0@ == k;
                        assert(s[j] == old_entries[j + 1]);
                        assert(old_entries[0].0@ != old_entries[j + 1].0@);
                    }
                    if k != path@ && target.contains_key(k) {
                        let j = choose|j: int| 0 <= j < old_entries.len() && old_entries[j].0@ == k;
                        assert(j != 0);
                        assert(s[j - 1] == old_entries[j]);
                    }
                }
                assert forall|k: Seq<char>| map_of(s).contains_key(k) implies #[trigger] map_of(s)[k] == target[k] by {
                    let j = choose|j: int| 0 <= j < s.len() && s[j].0@ == k;
                    lemma_map_of_value(s, j);
                    if j != s.len() - 1 {
                        assert(s[j] == old_entries[j + 1]);
                        lemma_map_of_value(old_entries, j + 1);
                    }
                }
                assert(map_of(s) =~= target);
            }
            self.entries = entries;
        } else {
            entries.push((path, value));
            proof {
                let s = entries@;
                assert(s.drop_last() =~= old_entries);
                assert(unique_paths(s)) by {
                    assert forall|a: int, b: int| 0 <= a < b < s.len() implies #[trigger] s[a].0@ != #[trigger] s[b].0@ by {
                        assert(s[a] == old_entries[a]);
                        if b < s.len() - 1 {
                            assert(s[b] == old_entries[b]);
                        }
                    }
                }
            }
            self.entries = entries;
        }
    }
}

/// A manifest as read when a `Cargo.toml` was opened, with the version of the file it was
/// read from.
#[derive(Debug)]
pub struct CachedCargoToml {
    pub version: Option<u64>,
    pub document_tree: Value,
}

/// Which workspace manifest a manifest belongs to (none where it belongs to none), with the
/// version of the manifest when that was found.
#[derive(Debug, Clone)]
pub struct CachedWorkspaceCargoToml {
    pub version: Option<u64>,
    pub workspace_cargo_toml_path: Option<String>,
}

/// Caches a manifest read from `path`.
pub fn insert_cargo_toml(cache: &mut ManifestCache<CachedCargoToml>, path: String, value: CachedCargoToml)
    ensures
        old(cache).contents().contains_key(path@) || old(cache).size() < MAX_DID_OPEN_CARGO_TOML_CACHE_ENTRIES
            ==> final(cache).contents() == old(cache).contents().insert(path@, value),
        !old(cache).contents().contains_key(path@) && old(cache).size() >= MAX_DID_OPEN_CARGO_TOML_CACHE_ENTRIES
            ==> exists|evicted: Seq<char>|
            old(cache).contents().contains_key(evicted) && final(cache).contents() == old(cache).contents().remove(
                evicted,
            ).insert(path@, value),
        final(cache).contents().contains_key(path@) && final(cache).contents()[path@] == value,
        final(cache).size() <= MAX_DID_OPEN_CARGO_TOML_CACHE_ENTRIES,
{
    cache.insert(path, value);
}

/// Caches which workspace manifest the manifest at `path` belongs to.
pub fn insert_workspace_cargo_toml(
    cache: &mut ManifestCache<CachedWorkspaceCargoToml>,
    path: String,
    value: CachedWorkspaceCargoToml,
)
    ensures
        old(cache).contents().contains_key(path@) || old(cache).size() < MAX_DID_OPEN_CARGO_TOML_CACHE_ENTRIES
            ==> final(cache).contents() == old(cache).contents().insert(path@, value),
        !old(cache).contents().contains_key(path@) && old(cache).size() >= MAX_DID_OPEN_CARGO_TOML_CACHE_ENTRIES
            ==> exists|evicted: Seq<char>|
            old(cache).contents().contains_key(evicted) && final(cache).contents() == old(cache).contents().remove(
                evicted,
            ).insert(path@, value),
        final(cache).contents().contains_key(path@) && final(cache).contents()[path@] == value,
        final(cache).size() <= MAX_DID_OPEN_CARGO_TOML_CACHE_ENTRIES,
{
    cache.insert(path, value);
}

/// The manifest cached for `path`, where it was read from the file's current `version`.
pub fn cached_cargo_toml<'a>(cache: &'a ManifestCache<CachedCargoToml>, path: &str, version: Option<u64>) -> (r: Option<
    &'a Value,
>)
    ensures
        match r {
            Some(d) => cache.contents().contains_key(path@) && cache.contents()[path@].version == version && *d
                == cache.contents()[path@].document_tree,
            None => !(cache.contents().contains_key(path@) && cache.contents()[path@].version == version),
        },
{
    match cache.get(path) {
        Some(entry) => if entry.version == version {
            Some(&entry.document_tree)
        } else {
            None
        },
        None => None,
    }
}

/// What the cache says of the workspace of a manifest.
#[derive(Debug, Clone, PartialEq, Eq)]
pub enum CachedWorkspaceLookup {
    /// Nothing cached for the manifest's current version: look the workspace up.
    Unknown,
    /// The manifest belongs to no workspace.
    NoWorkspace,
    /// The manifest belongs to the workspace whose manifest is at this path.
    Workspace(String),
}

/// What the cache says of the workspace of the manifest at `path`, whose file is now at
/// `version`.
pub fn cached_workspace_lookup(cache: &ManifestCache<CachedWorkspaceCargoToml>, path: &str, version: Option<u64>) -> (r: CachedWorkspaceLookup)
    ensures
        if cache.contents().contains_key(path@) && cache.contents()[path@].version == version {
            match cache.contents()[path@].workspace_cargo_toml_path {
                Some(w) => r matches CachedWorkspaceLookup::Workspace(p) && p@ == w@,
                None => r == CachedWorkspaceLookup::NoWorkspace,
            }
        } else {
            r == CachedWorkspaceLookup::Unknown
        },
{
    match cache.get(path) {
        Some(entry) => if entry.version == version {
            match &entry.workspace_cargo_toml_path {
                Some(w) => CachedWorkspaceLookup::Workspace(w.clone()),
                None => CachedWorkspaceLookup::NoWorkspace,
            }
        } else {
            CachedWorkspaceLookup::Unknown
        },
        None => CachedWorkspaceLookup::Unknown,
    }
}


/// What to do with a cached workspace lookup.
#[derive(Debug, Clone, Copy, PartialEq, Eq, Structural)]
pub enum WorkspaceCacheStep {
    /// The manifest belongs to no workspace.
    NoWorkspace,
    /// Use the re-read workspace manifest.
    Reuse,
    /// Look the workspace up afresh and cache what is found.
    LookUp,
}

/// What to do with a cached workspace lookup, given the cached workspace manifest as
/// re-read from disk (where it could be read): use it while it still has a `workspace`
/// table; look the workspace up afresh where nothing is cached, where it could not be
/// read, or where it lost its `workspace` table.
pub open spec fn workspace_cache_step_of(lookup: CachedWorkspaceLookup, reread: Option<Value>) -> WorkspaceCacheStep {
    match lookup {
        CachedWorkspaceLookup::Unknown => WorkspaceCacheStep::LookUp,
        CachedWorkspaceLookup::NoWorkspace => WorkspaceCacheStep::NoWorkspace,
        CachedWorkspaceLookup::Workspace(_) => match reread {
            Some(d) => if crate::document::table_entry(d, "workspace"@) is Some {
                WorkspaceCacheStep::Reuse
            } else {
                WorkspaceCacheStep::LookUp
            },
            None => WorkspaceCacheStep::LookUp,
        },
    }
}

/// What to do with a cached workspace lookup; see `workspace_cache_step_of`.
pub fn workspace_cache_step(lookup: &CachedWorkspaceLookup, reread: Option<&Value>) -> (r: WorkspaceCacheStep)
    ensures
        r == workspace_cache_step_of(
            *lookup,
            match reread {
                Some(d) => Some(*d),
                None => None,
            },
        ),
{
    match lookup {
        CachedWorkspaceLookup::Unknown => WorkspaceCacheStep::LookUp,
        CachedWorkspaceLookup::NoWorkspace => WorkspaceCacheStep::NoWorkspace,
        CachedWorkspaceLookup::Workspace(_) => match reread {
            Some(d) => if d.contains_key("workspace") {
                WorkspaceCacheStep::Reuse
            } else {
                WorkspaceCacheStep::LookUp
            },
            None => WorkspaceCacheStep::LookUp,
        },
    }
}

} // verus!
