# tombi_ext

The language features that the tombi TOML toolkit offers on `Cargo.toml`,
`pyproject.toml`, `tombi.toml` and nagi configuration files, as a verified Verus
library, with the Zed editor extension's download planning and the `x-tombi-*`
schema keywords.

## Layout

- `src/` — the library. Every function has a contract that Verus proves:
  - `document.rs`, `accessor.rs`, `text.rs`, `order.rs`: the TOML value model, paths
    into a document, and text helpers.
  - Cargo: `dependency_link.rs`, `workspace_link.rs`, `feature_link.rs` (document
    links); `inlay.rs`, `dependency_hints.rs`, `registry_hints.rs` (inlay hints);
    `cargo_code_action.rs`, `inherit_dependency.rs`, `add_workspace.rs` (code actions);
    `cargo_goto.rs`, `feature_navigation.rs`, `feature_usage.rs` (navigation);
    `cargo_hover.rs`, `did_open.rs`, `cargo_lock.rs`, `lock_cache.rs`,
    `manifest_cache.rs`, `members.rs`.
  - pyproject: `py_accessor.rs`, `py_dependency.rs`, `pep508.rs`, `py_code_action.rs`,
    `py_goto.rs`, `py_hover.rs`, `py_inlay.rs`, `py_did_open.rs`, `uv_lock.rs`.
  - `insertion.rs`: where a new item goes in an array or inline table.
  - `tombi_document_link.rs`, `nagi.rs`, `keyword.rs`, `validate.rs`, `zed.rs`.
- `tests/` — tests on concrete values.
- `app/` — what the library leaves to its caller: finding and reading files, matching
  globs on disk, file URIs, the JSON forms of caches and of crates.io answers.

Where a feature needs what only a running editor or the file system gives (the syntax
tree of a document, the version-sort place of a new entry, the text of a value as
written), the library takes it as an argument and states what it does with it.

The outside crates `semver`, `pep508_rs` (with `url::Url` as its URL type) and `glob`
are called from `src/` behind trusted items whose contracts are stated in their doc
comments.
