use tombi_ext::document::{Key, Position, Range, TableKind, Value};
use tombi_ext::manifest_cache::{
    cached_cargo_toml, cached_workspace_lookup, insert_cargo_toml, insert_workspace_cargo_toml,
    CachedCargoToml, CachedWorkspaceCargoToml, CachedWorkspaceLookup, ManifestCache,
    MAX_DID_OPEN_CARGO_TOML_CACHE_ENTRIES, workspace_cache_step, WorkspaceCacheStep,
};
use tombi_ext::members::get_workspace_cargo_toml_path;

fn at() -> Range {
    Range::new(Position::new(0, 0), Position::new(0, 0))
}

fn test_document_tree() -> Value {
    Value::Table {
        entries: vec![(
            Key { value: "package".to_string(), range: at() },
            Value::Table {
                entries: vec![
                    (Key { value: "name".to_string(), range: at() }, Value::String { value: "example".to_string(), range: at() }),
                    (Key { value: "version".to_string(), range: at() }, Value::String { value: "0.1.0".to_string(), range: at() }),
                ],
                range: at(),
                kind: TableKind::Table,
            },
        )],
        range: at(),
        kind: TableKind::Root,
    }
}

#[test]
fn keeps_did_open_caches_bounded() {
    let mut cargo_toml_cache = ManifestCache::new();
    for index in 0..=MAX_DID_OPEN_CARGO_TOML_CACHE_ENTRIES {
        insert_cargo_toml(
            &mut cargo_toml_cache,
            format!("/tmp/cargo-{index}/Cargo.toml"),
            CachedCargoToml {
                version: Some(index as u64),
                document_tree: test_document_tree(),
            },
        );
    }
    assert_eq!(cargo_toml_cache.len(), MAX_DID_OPEN_CARGO_TOML_CACHE_ENTRIES);

    let mut workspace_cargo_toml_cache = ManifestCache::new();
    for index in 0..=MAX_DID_OPEN_CARGO_TOML_CACHE_ENTRIES {
        insert_workspace_cargo_toml(
            &mut workspace_cargo_toml_cache,
            format!("/tmp/member-{index}/Cargo.toml"),
            CachedWorkspaceCargoToml {
                version: Some(index as u64),
                workspace_cargo_toml_path: Some(format!("/tmp/workspace-{index}/Cargo.toml")),
            },
        );
    }
    assert_eq!(workspace_cargo_toml_cache.len(), MAX_DID_OPEN_CARGO_TOML_CACHE_ENTRIES);
}

#[test]
fn cache_gives_back_what_was_written_for_the_current_version() {
    let mut cache = ManifestCache::new();
    insert_cargo_toml(&mut cache, "/a/Cargo.toml".to_string(), CachedCargoToml { version: Some(1), document_tree: test_document_tree() });
    assert!(cached_cargo_toml(&cache, "/a/Cargo.toml", Some(1)).is_some());
    assert!(cached_cargo_toml(&cache, "/a/Cargo.toml", Some(2)).is_none());
    assert!(cached_cargo_toml(&cache, "/b/Cargo.toml", Some(1)).is_none());
    // Writing a path again replaces its entry without growing the cache.
    insert_cargo_toml(&mut cache, "/a/Cargo.toml".to_string(), CachedCargoToml { version: Some(2), document_tree: test_document_tree() });
    assert_eq!(cache.len(), 1);
    assert!(cached_cargo_toml(&cache, "/a/Cargo.toml", Some(2)).is_some());
}

#[test]
fn full_cache_drops_its_oldest_entry() {
    let mut cache = ManifestCache::new();
    for index in 0..MAX_DID_OPEN_CARGO_TOML_CACHE_ENTRIES {
        cache.insert(format!("/p{index}"), index);
    }
    cache.insert("/new".to_string(), 1000);
    assert_eq!(cache.len(), MAX_DID_OPEN_CARGO_TOML_CACHE_ENTRIES);
    assert_eq!(cache.get("/p0"), None);
    assert_eq!(cache.get("/p1"), Some(&1));
    assert_eq!(cache.get("/new"), Some(&1000));
}

#[test]
fn workspace_lookups_follow_the_cache() {
    let mut cache = ManifestCache::new();
    assert_eq!(cached_workspace_lookup(&cache, "/m/Cargo.toml", Some(1)), CachedWorkspaceLookup::Unknown);
    insert_workspace_cargo_toml(&mut cache, "/m/Cargo.toml".to_string(), CachedWorkspaceCargoToml { version: Some(1), workspace_cargo_toml_path: Some("/Cargo.toml".to_string()) });
    insert_workspace_cargo_toml(&mut cache, "/x/Cargo.toml".to_string(), CachedWorkspaceCargoToml { version: Some(1), workspace_cargo_toml_path: None });
    assert_eq!(
        cached_workspace_lookup(&cache, "/m/Cargo.toml", Some(1)),
        CachedWorkspaceLookup::Workspace("/Cargo.toml".to_string())
    );
    assert_eq!(cached_workspace_lookup(&cache, "/x/Cargo.toml", Some(1)), CachedWorkspaceLookup::NoWorkspace);
    assert_eq!(cached_workspace_lookup(&cache, "/m/Cargo.toml", Some(2)), CachedWorkspaceLookup::Unknown);
}

#[test]
fn members_name_their_workspace() {
    let member = Value::Table {
        entries: vec![(
            Key { value: "package".to_string(), range: at() },
            Value::Table {
                entries: vec![(Key { value: "workspace".to_string(), range: at() }, Value::String { value: "..".to_string(), range: at() })],
                range: at(),
                kind: TableKind::Table,
            },
        )],
        range: at(),
        kind: TableKind::Root,
    };
    assert_eq!(get_workspace_cargo_toml_path(&member).map(|s| s.as_str()), Some(".."));
    assert_eq!(get_workspace_cargo_toml_path(&test_document_tree()), None);
}

fn manifest_with(keys: &[&str]) -> Value {
    Value::Table {
        entries: keys
            .iter()
            .map(|k| (Key { value: k.to_string(), range: at() }, Value::Table { entries: vec![], range: at(), kind: TableKind::Table }))
            .collect(),
        range: at(),
        kind: TableKind::Root,
    }
}

#[test]
fn reload_workspace_lookup_when_cached_workspace_loses_workspace_table() {
    let mut cache = ManifestCache::new();
    insert_workspace_cargo_toml(
        &mut cache,
        "/w/member/Cargo.toml".to_string(),
        CachedWorkspaceCargoToml { version: Some(1), workspace_cargo_toml_path: Some("/w/Cargo.toml".to_string()) },
    );
    let lookup = cached_workspace_lookup(&cache, "/w/member/Cargo.toml", Some(1));
    let with_workspace = manifest_with(&["workspace"]);
    let rewritten = manifest_with(&["package"]);
    assert_eq!(workspace_cache_step(&lookup, Some(&with_workspace)), WorkspaceCacheStep::Reuse);
    assert_eq!(workspace_cache_step(&lookup, Some(&rewritten)), WorkspaceCacheStep::LookUp);
    assert_eq!(workspace_cache_step(&lookup, None), WorkspaceCacheStep::LookUp);
    assert_eq!(workspace_cache_step(&CachedWorkspaceLookup::NoWorkspace, None), WorkspaceCacheStep::NoWorkspace);
    assert_eq!(workspace_cache_step(&CachedWorkspaceLookup::Unknown, Some(&with_workspace)), WorkspaceCacheStep::LookUp);
}
