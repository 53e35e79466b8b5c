//! "Add to Workspace and Inherit Dependency": a dependency of a member manifest that the
//! workspace does not list yet goes into the workspace's dependency table, and the member
//! inherits it.

use vstd::prelude::*;
use vstd::string::StringExecFns;

use crate::accessor::{dig_accessors, dig_path, is_dependency_accessor, is_dependency_path, Accessor};
use crate::cargo_code_action::{CodeAction, CodeActionRefactorRewriteName, TextEdit};
use crate::dependency_link::{cover, covering};
use crate::insertion::{calculate_insertion, insertion_of, SequenceLayout};
use crate::document::{dig, dig_value, key_views, table_entry, table_get, Position, Range, TableKind, Value};

verus! {

/// An edit as plain values: its span and its new text.
pub type EditView = (Range, Seq<char>);

pub open spec fn edit_view(e: TextEdit) -> EditView {
    (e.range, e.new_text@)
}

/// The length of the path to the dependency entry that `accessors` points into: 4 for an
/// entry of `[target.*.dependencies]` (or its dev or build table), 2 for one of
/// `[dependencies]`, `[dev-dependencies]` or `[build-dependencies]`.
pub open spec fn dependency_entry_len(accessors: Seq<Accessor>) -> Option<int> {
    if accessors.len() < 2 {
        None
    } else if accessors.len() >= 4 && is_dependency_path(accessors.take(4), Seq::empty()) {
        Some(4)
    } else if is_dependency_path(accessors.take(2), Seq::empty()) {
        Some(2)
    } else {
        None
    }
}

/// Where the new entry goes in the workspace's `[workspace.dependencies]` and what it
/// reads. In a `[header]` table, before the entry at `insertion_index` (the place in
/// version-sort order that the caller computed), or at the table's end where the index is
/// past the last entry; the text is `name = value` and a line break. In an inline table,
/// the insertion of the entry `name = value` at `insertion_index` that `insertion_of` gives
/// for the table's layout in the source (`inline_layout`, where the caller found it). None
/// for a table of another kind or no table.
pub open spec fn workspace_insertion_of(
    workspace_document: Value,
    name: Seq<char>,
    rendered_value: Seq<char>,
    insertion_index: int,
    inline_layout: Option<SequenceLayout>,
) -> Option<EditView> {
    match dig_value(workspace_document, seq!["workspace"@, "dependencies"@]) {
        Some(Value::Table { entries, range, kind }) => if kind == TableKind::Table {
            let n = entries@.len();
            let at = if insertion_index == 0 {
                if n == 0 {
                    range.end
                } else {
                    entries@[0].0.range.start
                }
            } else if insertion_index >= n {
                range.end
            } else {
                match table_entry(
                    Value::Table { entries, range, kind },
                    entries@[insertion_index].0.value@,
                ) {
                    Some((k, _)) => k.range.start,
                    None => range.end,
                }
            };
            Some((Range { start: at, end: at }, name + " = "@ + rendered_value + "\n"@))
        } else if kind == TableKind::InlineTable {
            match inline_layout {
                Some(l) => match insertion_of(l, insertion_index, name + " = "@ + rendered_value) {
                    Some((p, text)) => Some((Range { start: p, end: p }, text)),
                    None => None,
                },
                None => None,
            }
        } else {
            None
        },
        _ => None,
    }
}

/// The two edits of "Add to Workspace and Inherit Dependency" on the dependency entry that
/// `accessors` points into: none unless the entry is a dependency of the package (see
/// `dependency_entry_len`) under a key, neither a table with `workspace` or `path` nor a
/// dependency that `[workspace.dependencies]` already lists; and the span of its key is
/// known (`key_ranges`). The workspace edit is `workspace_insertion_of`; the member edit
/// writes `name = { workspace = true }` over the key and its value. `rendered_value` is
/// the entry's value as TOML text.
pub open spec fn add_workspace_edits(
    document: Value,
    accessors: Seq<Accessor>,
    key_ranges: Seq<Option<Range>>,
    workspace_document: Value,
    insertion_index: int,
    inline_layout: Option<SequenceLayout>,
    rendered_value: Seq<char>,
) -> Option<(EditView, EditView)> {
    match dependency_entry_len(accessors) {
        Some(n) => match (accessors[n - 1], dig_path(document, accessors.take(n)), key_ranges[n - 1]) {
            (Accessor::Key(name), Some(value), Some(key_range)) => if value is Table && (table_get(
                value,
                "workspace"@,
            ) is Some || table_get(value, "path"@) is Some) {
                None
            } else if dig(workspace_document, seq!["workspace"@, "dependencies"@, name@]) is Some {
                None
            } else {
                match workspace_insertion_of(
                    workspace_document,
                    name@,
                    rendered_value,
                    insertion_index,
                    inline_layout,
                ) {
                    Some(w) => Some(
                        (w, (covering(key_range, value.span()), name@ + " = { workspace = true }"@)),
                    ),
                    None => None,
                }
            },
            _ => None,
        },
        None => None,
    }
}

/// The new entry of the workspace's dependency table; see `workspace_insertion_of`.
fn workspace_insertion(
    workspace_document_tree: &Value,
    name: &str,
    rendered_value: &str,
    insertion_index: usize,
    inline_layout: Option<&SequenceLayout>,
) -> (r: Option<TextEdit>)
    ensures
        match r {
            Some(e) => workspace_insertion_of(
                *workspace_document_tree,
                name@,
                rendered_value@,
                insertion_index as int,
                layout_view(inline_layout),
            ) == Some(edit_view(e)),
            None => workspace_insertion_of(
                *workspace_document_tree,
                name@,
                rendered_value@,
                insertion_index as int,
                layout_view(inline_layout),
            ) is None,
        },
{
    let keys = ["workspace", "dependencies"];
    assert(key_views(keys@) =~= seq!["workspace"@, "dependencies"@]);
    let table = match crate::document::dig_keys(workspace_document_tree, &keys) {
        Some((_, t)) => t,
        None => return None,
    };
    match table {
        Value::Table { entries, range, kind } => {
            if *kind == TableKind::Table {
                let n = entries.len();
                let at = if insertion_index == 0 {
                    if n == 0 {
                        range.end
                    } else {
                        entries[0].0.range.start
                    }
                } else if insertion_index >= n {
                    range.end
                } else {
                    match table.get_key_value(entries[insertion_index].0.value.as_str()) {
                        Some((k, _)) => k.range.start,
                        None => range.end,
                    }
                };
                let mut text = String::from_str(name);
                text.append(" = ");
                text.append(rendered_value);
                text.append("\n");
                Some(TextEdit { range: Range::at(at), new_text: text })
            } else if *kind == TableKind::InlineTable {
                match inline_layout {
                    Some(l) => {
                        let mut entry = String::from_str(name);
                        entry.append(" = ");
                        entry.append(rendered_value);
                        match calculate_insertion(l, insertion_index, entry.as_str()) {
                            Some((p, text)) => Some(TextEdit { range: Range::at(p), new_text: text }),
                            None => None,
                        }
                    },
                    None => None,
                }
            } else {
                None
            }
        },
        _ => None,
    }
}

/// An optional layout taken by value.
pub open spec fn layout_view(l: Option<&SequenceLayout>) -> Option<SequenceLayout> {
    match l {
        Some(x) => Some(*x),
        None => None,
    }
}

/// The length of the path to the dependency entry; see `dependency_entry_len`.
fn dependency_entry_length(accessors: &[Accessor]) -> (r: Option<usize>)
    ensures
        match r {
            Some(n) => dependency_entry_len(accessors@) == Some(n as int),
            None => dependency_entry_len(accessors@) is None,
        },
{
    if accessors.len() < 2 {
        return None;
    }
    if accessors.len() >= 4 {
        let head = vstd::slice::slice_subrange(accessors, 0, 4);
        assert(head@ =~= accessors@.take(4));
        if is_dependency_accessor(head) {
            return Some(4);
        }
    }
    let head = vstd::slice::slice_subrange(accessors, 0, 2);
    assert(head@ =~= accessors@.take(2));
    if is_dependency_accessor(head) {
        Some(2)
    } else {
        None
    }
}

/// "Add to Workspace and Inherit Dependency" on a dependency of a member manifest; see
/// `add_workspace_edits`. `key_ranges[i]` is the span of the key at `accessors[i]`, where
/// the path goes through a key; `insertion_index` is the place of the crate among the
/// workspace's dependencies in version-sort order; `inline_layout` the layout of the
/// workspace's dependency table in the source, where it is inline; `rendered_value` the
/// dependency's value as TOML text.
pub fn add_workspace_dependency_code_action(
    document_tree: &Value,
    accessors: &[Accessor],
    key_ranges: &[Option<Range>],
    workspace_document_tree: &Value,
    insertion_index: usize,
    inline_layout: Option<&SequenceLayout>,
    rendered_value: &str,
) -> (r: Option<CodeAction>)
    requires
        key_ranges@.len() == accessors@.len(),
    ensures
        match add_workspace_edits(
            *document_tree,
            accessors@,
            key_ranges@,
            *workspace_document_tree,
            insertion_index as int,
            layout_view(inline_layout),
            rendered_value@,
        ) {
            Some((w, m)) => r matches Some(a) && a.title@
                == CodeActionRefactorRewriteName::AddToWorkspaceAndInheritDependency.title() && a.workspace_edits@.len()
                == 1 && edit_view(a.workspace_edits@[0]) == w && a.edits@.len() == 1 && edit_view(a.edits@[0]) == m
                && a.disabled is None,
            None => r is None,
        },
{
    let n = match dependency_entry_length(accessors) {
        Some(n) => n,
        None => return None,
    };
    let name = match &accessors[n - 1] {
        Accessor::Key(name) => name,
        Accessor::Index(_) => return None,
    };
    let entry = vstd::slice::slice_subrange(accessors, 0, n);
    assert(entry@ =~= accessors@.take(n as int));
    let value = match dig_accessors(document_tree, entry) {
        Some(v) => v,
        None => return None,
    };
    let key_range = match key_ranges[n - 1] {
        Some(k) => k,
        None => return None,
    };
    match value {
        Value::Table { .. } => {
            if value.contains_key("workspace") || value.contains_key("path") {
                return None;
            }
        },
        _ => {},
    }
    let keys = ["workspace", "dependencies", name.as_str()];
    assert(key_views(keys@) =~= seq!["workspace"@, "dependencies"@, name@]);
    if crate::document::dig_keys(workspace_document_tree, &keys).is_some() {
        return None;
    }
    let workspace_edit = match workspace_insertion(
        workspace_document_tree,
        name.as_str(),
        rendered_value,
        insertion_index,
        inline_layout,
    ) {
        Some(e) => e,
        None => return None,
    };
    let mut text = String::from_str(name.as_str());
    text.append(" = { workspace = true }");
    let mut edits: Vec<TextEdit> = Vec::new();
    edits.push(TextEdit { range: cover(key_range, value.range()), new_text: text });
    let mut workspace_edits: Vec<TextEdit> = Vec::new();
    workspace_edits.push(workspace_edit);
    Some(
        CodeAction {
            title: CodeActionRefactorRewriteName::AddToWorkspaceAndInheritDependency.to_string(),
            edits,
            disabled: None,
            workspace_edits,
        },
    )
}

} // verus!
