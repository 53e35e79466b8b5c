//! Code actions on a `Cargo.toml`: their titles and the text they write for a dependency
//! that inherits from the workspace.

use vstd::prelude::*;
use vstd::string::StringExecFns;

use crate::accessor::{
    accessor_is_key, dig_accessors, dig_path, is_dependency_accessor, is_dependency_path, is_key,
    is_workspace_dependency_accessor, matches_pattern, Accessor,
};
use crate::document::{dig_value, table_entry, Range, Value};
use crate::inlay::{workspace_package_item_list, workspace_package_items};
use crate::text::{debug_quoted, join_quoted, joined, str_eq};

verus! {

/// The refactorings offered on a `Cargo.toml`.
#[derive(Debug, Clone, Copy, PartialEq, Eq, Structural)]
pub enum CodeActionRefactorRewriteName {
    /// Turn a package field into `field.workspace = true`.
    InheritFromWorkspace,
    /// Turn a dependency into `{ workspace = true }`.
    InheritDependencyFromWorkspace,
    /// Turn `name = "1.0"` into `name = { version = "1.0" }`.
    ConvertDependencyToTableFormat,
    /// Add the dependency to `[workspace.dependencies]` and inherit it.
    AddToWorkspaceAndInheritDependency,
}

impl CodeActionRefactorRewriteName {
    /// The title that the editor shows.
    pub open spec fn title(self) -> Seq<char> {
        match self {
            CodeActionRefactorRewriteName::InheritFromWorkspace => "Inherit from Workspace"@,
            CodeActionRefactorRewriteName::InheritDependencyFromWorkspace => "Inherit Dependency from Workspace"@,
            CodeActionRefactorRewriteName::ConvertDependencyToTableFormat => "Convert Dependency to Table Format"@,
            CodeActionRefactorRewriteName::AddToWorkspaceAndInheritDependency =>
                "Add to Workspace and Inherit Dependency"@,
        }
    }

    /// The title that the editor shows.
    pub fn to_string(&self) -> (r: String)
        ensures
            r@ == self.title(),
    {
        match self {
            CodeActionRefactorRewriteName::InheritFromWorkspace => String::from_str("Inherit from Workspace"),
            CodeActionRefactorRewriteName::InheritDependencyFromWorkspace => String::from_str(
                "Inherit Dependency from Workspace",
            ),
            CodeActionRefactorRewriteName::ConvertDependencyToTableFormat => String::from_str(
                "Convert Dependency to Table Format",
            ),
            CodeActionRefactorRewriteName::AddToWorkspaceAndInheritDependency => String::from_str(
                "Add to Workspace and Inherit Dependency",
            ),
        }
    }
}

/// A list of features in TOML: `["a", "b"]`.
pub open spec fn feature_values_text(features: Seq<String>) -> Seq<char> {
    "["@ + joined(features.map_values(|s: String| ""@ + debug_quoted(s@)), ", "@) + "]"@
}

/// Renders a list of features as a TOML array.
pub fn render_feature_values(default_feature_additions: &[String]) -> (r: String)
    ensures
        r@ == feature_values_text(default_feature_additions@),
{
    let mut r = String::from_str("[");
    let inner = join_quoted(default_feature_additions, "", ", ");
    r.append(inner.as_str());
    r.append("]");
    r
}

/// The line that makes `crate_name` inherit from the workspace, with the default features
/// it needs listed where there are any.
pub fn render_inherited_dependency_string(crate_name: &str, default_feature_additions: &[String]) -> (r: String)
    ensures
        r@ == if default_feature_additions@.len() == 0 {
            crate_name@ + " = { workspace = true }"@
        } else {
            crate_name@ + " = { workspace = true, features = "@ + feature_values_text(
                default_feature_additions@,
            ) + " }"@
        },
{
    let mut r = String::from_str(crate_name);
    if default_feature_additions.len() == 0 {
        r.append(" = { workspace = true }");
    } else {
        r.append(" = { workspace = true, features = ");
        let values = render_feature_values(default_feature_additions);
        r.append(values.as_str());
        r.append(" }");
    }
    r
}

/// The body of a `[dependencies.name]` table that inherits from the workspace: the
/// default features it needs follow on a line of their own where the table lists no
/// features yet.
pub fn render_inherited_dependency_table_version(existing_features: Option<()>, default_feature_additions: &[String]) -> (r: String)
    ensures
        r@ == if existing_features is None && default_feature_additions@.len() > 0 {
            "workspace = true\nfeatures = "@ + feature_values_text(default_feature_additions@)
        } else {
            "workspace = true"@
        },
{
    if existing_features.is_none() && default_feature_additions.len() > 0 {
        let mut r = String::from_str("workspace = true\nfeatures = ");
        let values = render_feature_values(default_feature_additions);
        r.append(values.as_str());
        r
    } else {
        String::from_str("workspace = true")
    }
}

} // verus!

verus! {

/// A change to a document: the span it replaces and the text put there.
#[derive(Debug, Clone, PartialEq, Eq)]
pub struct TextEdit {
    pub range: Range,
    pub new_text: String,
}

/// A refactoring of the current document: its title, its edits, and why the editor shows it
/// greyed out, where it does.
#[derive(Debug, Clone, PartialEq, Eq)]
pub struct CodeAction {
    pub title: String,
    pub edits: Vec<TextEdit>,
    pub disabled: Option<String>,
    /// Edits of the workspace manifest that the action makes before those of the current
    /// document.
    pub workspace_edits: Vec<TextEdit>,
}

/// Whether a path names a dependency entry of the package or of the workspace.
pub open spec fn names_dependency_entry(accessors: Seq<Accessor>) -> bool {
    is_dependency_path(accessors, Seq::empty()) || matches_pattern(
        accessors,
        seq![Some("workspace"@), Some("dependencies"@), None],
    )
}

/// "Convert Dependency to Table Format" on a dependency written as a version string:
/// `{ version = ` goes before the string and ` }` after it.
pub fn crate_version_code_action(document_tree: &Value, accessors: &[Accessor]) -> (r: Option<CodeAction>)
    ensures
        match dig_path(*document_tree, accessors@) {
            Some(Value::String { range, .. }) => if names_dependency_entry(accessors@) {
                r matches Some(a) && a.workspace_edits@.len() == 0 && a.title@ == CodeActionRefactorRewriteName::ConvertDependencyToTableFormat.title()
                    && a.edits@.len() == 2 && a.edits@[0].range == (Range { start: range.start, end: range.start })
                    && a.edits@[0].new_text@ == "{ version = "@ && a.edits@[1].range == (Range {
                    start: range.end,
                    end: range.end,
                }) && a.edits@[1].new_text@ == " }"@
            } else {
                r is None
            },
            _ => r is None,
        },
{
    if !(is_dependency_accessor(accessors) || is_workspace_dependency_accessor(accessors)) {
        return None;
    }
    match dig_accessors(document_tree, accessors) {
        Some(Value::String { range, .. }) => {
            let mut edits: Vec<TextEdit> = Vec::new();
            edits.push(TextEdit { range: Range::at(range.start), new_text: String::from_str("{ version = ") });
            edits.push(TextEdit { range: Range::at(range.end), new_text: String::from_str(" }") });
            Some(
                CodeAction {
                    title: CodeActionRefactorRewriteName::ConvertDependencyToTableFormat.to_string(),
                    edits,
                    disabled: None,
                    workspace_edits: Vec::new(),
                },
            )
        },
        _ => None,
    }
}

/// "Inherit from Workspace" on a field of `[package]` that the workspace defines in
/// `[workspace.package]` and that does not inherit yet: the key and its value become
/// `key.workspace = true`. `key_ranges[i]` is the span of the key at `accessors[i]`.
pub open spec fn inherit_field_action(
    document: Value,
    accessors: Seq<Accessor>,
    key_ranges: Seq<Option<Range>>,
    workspace_document: Value,
) -> Option<(Range, Seq<char>)> {
    if accessors.len() < 2 || key_ranges.len() < 2 || !is_key(accessors[0], "package"@) {
        None
    } else {
        match (accessors[1], key_ranges[1]) {
            (Accessor::Key(field), Some(key_range)) => if !workspace_package_items().contains(field@) {
                None
            } else {
                match dig_path(document, accessors.take(2)) {
                    Some(value) => if dig_value(workspace_document, seq!["workspace"@, "package"@, field@]) is None {
                        None
                    } else if value is Table && table_entry(value, "workspace"@) is Some {
                        None
                    } else {
                        Some((Range { start: key_range.start, end: value.span().end }, field@ + ".workspace = true"@))
                    },
                    None => None,
                }
            },
            _ => None,
        }
    }
}

/// "Inherit from Workspace" is never offered on a field that already inherits (one whose
/// value is a table with a `workspace` key, as `version.workspace = true` makes), nor on a
/// field that the workspace does not define in `[workspace.package]`; where it is offered,
/// it writes `field.workspace = true` from the start of the key to the end of the value.
pub proof fn lemma_inherit_field_only_where_not_inherited(
    document: Value,
    accessors: Seq<Accessor>,
    key_ranges: Seq<Option<Range>>,
    workspace_document: Value,
)
    ensures
        (dig_path(document, accessors.take(2)) matches Some(v) && v is Table && table_entry(v, "workspace"@) is Some)
            ==> inherit_field_action(document, accessors, key_ranges, workspace_document) is None,
        inherit_field_action(document, accessors, key_ranges, workspace_document) matches Some((range, text)) ==> {
            &&& accessors.len() >= 2
            &&& accessors[1] is Key
            &&& text == accessors[1]->Key_0@ + ".workspace = true"@
            &&& dig_value(workspace_document, seq!["workspace"@, "package"@, accessors[1]->Key_0@]) is Some
            &&& key_ranges[1] matches Some(k) && range.start == k.start
            &&& dig_path(document, accessors.take(2)) matches Some(v) && range.end == v.span().end
        },
{
}

/// Whether `name` is one of the `[package]` fields a member can inherit.
fn is_workspace_package_item(name: &str) -> (r: bool)
    ensures
        r == workspace_package_items().contains(name@),
{
    let items = workspace_package_item_list();
    let n = items.len();
    let mut i: usize = 0;
    while i < n
        invariant
            n == items@.len(),
            items@.map_values(|s: &str| s@) == workspace_package_items(),
            0 <= i <= n,
            forall|j: int| 0 <= j < i ==> workspace_package_items()[j] != name@,
        decreases n - i,
    {
        assert(workspace_package_items()[i as int] == items@[i as int]@);
        if str_eq(items[i], name) {
            return true;
        }
        i = i + 1;
    }
    false
}

/// "Inherit from Workspace" on a field of `[package]`.
pub fn workspace_code_action(
    document_tree: &Value,
    accessors: &[Accessor],
    key_ranges: &[Option<Range>],
    workspace_document_tree: &Value,
) -> (r: Option<CodeAction>)
    ensures
        match inherit_field_action(*document_tree, accessors@, key_ranges@, *workspace_document_tree) {
            Some((range, text)) => r matches Some(a) && a.workspace_edits@.len() == 0 && a.title@ == CodeActionRefactorRewriteName::InheritFromWorkspace.title()
                && a.edits@.len() == 1 && a.edits@[0].range == range && a.edits@[0].new_text@ == text,
            None => r is None,
        },
{
    if accessors.len() < 2 || key_ranges.len() < 2 || !accessor_is_key(&accessors[0], "package") {
        return None;
    }
    let (field, key_range) = match (&accessors[1], key_ranges[1]) {
        (Accessor::Key(field), Some(key_range)) => (field, key_range),
        _ => return None,
    };
    if !is_workspace_package_item(field.as_str()) {
        return None;
    }
    let head = vstd::slice::slice_subrange(accessors, 0, 2);
    assert(head@ =~= accessors@.take(2));
    let value = match dig_accessors(document_tree, head) {
        Some(v) => v,
        None => return None,
    };
    let keys = ["workspace", "package", field.as_str()];
    assert(crate::document::key_views(keys@) =~= seq!["workspace"@, "package"@, field@]);
    if crate::document::dig_keys(workspace_document_tree, &keys).is_none() {
        return None;
    }
    match value {
        Value::Table { .. } => {
            if value.contains_key("workspace") {
                return None;
            }
        },
        _ => {},
    }
    let mut text = String::from_str(field.as_str());
    text.append(".workspace = true");
    let mut edits: Vec<TextEdit> = Vec::new();
    edits.push(TextEdit { range: Range::new(key_range.start, value.range().end), new_text: text });
    Some(CodeAction { title: CodeActionRefactorRewriteName::InheritFromWorkspace.to_string(), edits, disabled: None, workspace_edits: Vec::new() })
}


/// What the features of the Cargo extension say of its code actions: each switch as the
/// configuration reads it.
#[derive(Debug, Clone, Copy)]
pub struct CargoCodeActionFeatures {
    pub code_action: bool,
    pub inherit_from_workspace: bool,
    pub add_to_workspace_and_inherit_dependency: bool,
    pub inherit_dependency_from_workspace: bool,
    pub convert_dependency_to_table_format: bool,
}

/// What came of looking for a member's workspace manifest.
#[derive(Debug, Clone, Copy, PartialEq, Eq, Structural)]
pub enum WorkspaceLookup {
    /// No workspace manifest was found.
    Missing,
    /// One was found but its text could not be read.
    Unreadable,
    /// One was found and read.
    Loaded,
}

/// The action, where it came and its switch is on.
pub open spec fn offered(switch: bool, action: Option<CodeAction>) -> Seq<CodeAction> {
    match action {
        Some(a) => if switch {
            seq![a]
        } else {
            Seq::empty()
        },
        None => Seq::empty(),
    }
}

/// The code actions of the document at `path`: none where it is no `Cargo.toml` or its
/// code actions are off. In a workspace manifest (one with a `workspace` table), the
/// table-format conversion; in a member, where its workspace manifest was found,
/// "Inherit from Workspace", "Add to Workspace and Inherit Dependency" and "Inherit
/// Dependency from Workspace", then the table-format conversion; none at all where the
/// workspace manifest was found but could not be read. Each only where its switch
/// is on (all are, where no features are configured) and it came; none where none came.
pub open spec fn cargo_code_actions_of(
    path: Seq<char>,
    features: Option<CargoCodeActionFeatures>,
    document: Value,
    workspace: WorkspaceLookup,
    inherit_field: Option<CodeAction>,
    add_to_workspace: Option<CodeAction>,
    inherit_dependency: Option<CodeAction>,
    convert: Option<CodeAction>,
) -> Option<Seq<CodeAction>> {
    let f = match features {
        Some(f) => f,
        None => CargoCodeActionFeatures {
            code_action: true,
            inherit_from_workspace: true,
            add_to_workspace_and_inherit_dependency: true,
            inherit_dependency_from_workspace: true,
            convert_dependency_to_table_format: true,
        },
    };
    if !crate::text::ends_with_text(path, "Cargo.toml"@) || !f.code_action {
        None
    } else {
        let all = if table_entry(document, "workspace"@) is Some {
            offered(f.convert_dependency_to_table_format, convert)
        } else if workspace == WorkspaceLookup::Unreadable {
            Seq::empty()
        } else {
            (if workspace == WorkspaceLookup::Loaded {
                offered(f.inherit_from_workspace, inherit_field) + offered(
                    f.add_to_workspace_and_inherit_dependency,
                    add_to_workspace,
                ) + offered(f.inherit_dependency_from_workspace, inherit_dependency)
            } else {
                Seq::empty()
            }) + offered(f.convert_dependency_to_table_format, convert)
        };
        if all.len() == 0 {
            None
        } else {
            Some(all)
        }
    }
}

fn push_offered(out: &mut Vec<CodeAction>, switch: bool, action: Option<CodeAction>)
    ensures
        final(out)@ == old(out)@ + offered(switch, action),
{
    let ghost a = action;
    match action {
        Some(x) => if switch {
            out.push(x);
        },
        None => {},
    }
    assert(out@ =~= old(out)@ + offered(switch, a));
}

/// The code actions of the document at `path`; see `cargo_code_actions_of`. The caller
/// computed each action (`workspace_code_action`, `add_workspace_dependency_code_action`,
/// `use_workspace_dependency_code_action`, `crate_version_code_action`) and says what came
/// of looking for the member's workspace manifest.
pub fn code_action(
    path: &str,
    features: Option<&CargoCodeActionFeatures>,
    document_tree: &Value,
    workspace: WorkspaceLookup,
    inherit_field: Option<CodeAction>,
    add_to_workspace: Option<CodeAction>,
    inherit_dependency: Option<CodeAction>,
    convert: Option<CodeAction>,
) -> (r: Option<Vec<CodeAction>>)
    ensures
        match r {
            Some(v) => cargo_code_actions_of(
                path@,
                match features {
                    Some(f) => Some(*f),
                    None => None,
                },
                *document_tree,
                workspace,
                inherit_field,
                add_to_workspace,
                inherit_dependency,
                convert,
            ) == Some(v@),
            None => cargo_code_actions_of(
                path@,
                match features {
                    Some(f) => Some(*f),
                    None => None,
                },
                *document_tree,
                workspace,
                inherit_field,
                add_to_workspace,
                inherit_dependency,
                convert,
            ) is None,
        },
{
    let f = match features {
        Some(f) => *f,
        None => CargoCodeActionFeatures {
            code_action: true,
            inherit_from_workspace: true,
            add_to_workspace_and_inherit_dependency: true,
            inherit_dependency_from_workspace: true,
            convert_dependency_to_table_format: true,
        },
    };
    if !crate::text::ends_with(path, "Cargo.toml") || !f.code_action {
        return None;
    }
    let mut out: Vec<CodeAction> = Vec::new();
    if document_tree.contains_key("workspace") {
        push_offered(&mut out, f.convert_dependency_to_table_format, convert);
    } else if workspace == WorkspaceLookup::Unreadable {
    } else {
        if workspace == WorkspaceLookup::Loaded {
            push_offered(&mut out, f.inherit_from_workspace, inherit_field);
            push_offered(&mut out, f.add_to_workspace_and_inherit_dependency, add_to_workspace);
            push_offered(&mut out, f.inherit_dependency_from_workspace, inherit_dependency);
        }
        push_offered(&mut out, f.convert_dependency_to_table_format, convert);
    }
    if out.len() == 0 {
        None
    } else {
        Some(out)
    }
}

} // verus!
