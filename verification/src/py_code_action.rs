//! Code actions on the dependencies of a `pyproject.toml`: their titles, and where the
//! version specifier of a PEP 508 dependency string lies.

use vstd::prelude::*;
use vstd::utf8::encode_utf8;

use crate::accessor::{dig_accessors, dig_path, Accessor};
use crate::cargo_code_action::{CodeAction, TextEdit};
use crate::document::{Position, Range, Value};
use crate::insertion::{calculate_insertion, insertion_of, SequenceLayout};
use crate::pep508::{
    format_dependency_without_version, format_exact_pinned_dependency, parse_requirement,
    parsed_requirement, without_version_text, Pep508Requirement, RequirementVersion,
    RequirementVersionView, RequirementView,
};
use crate::py_dependency::{
    collect_dependency_requirements_from_document_tree, requirement_entries, standard_requirements,
};
use crate::text::str_eq;
use crate::uv_lock::normalized_version;
use crate::text::{
    char_is_whitespace, count_leading_whitespace, count_trailing_whitespace, find_char,
    first_index, is_whitespace, leading_whitespace, lemma_first_index, trailing_whitespace,
};

verus! {

/// The refactorings offered on a `pyproject.toml`.
#[derive(Debug, Clone, Copy, PartialEq, Eq, Structural)]
pub enum CodeActionRefactorRewriteName {
    /// Drop the member's version in favour of the workspace's.
    UseWorkspaceDependency,
    /// Add the dependency to the workspace and drop the member's version.
    AddToWorkspaceAndUseWorkspaceDependency,
    /// Pin the dependency to the latest published version.
    UpdateDependencyToLatestVersion,
}

impl CodeActionRefactorRewriteName {
    /// The title that the editor shows.
    pub open spec fn title(self) -> Seq<char> {
        match self {
            CodeActionRefactorRewriteName::UseWorkspaceDependency => "Use Workspace Dependency"@,
            CodeActionRefactorRewriteName::AddToWorkspaceAndUseWorkspaceDependency =>
                "Add to Workspace and Use Workspace Dependency"@,
            CodeActionRefactorRewriteName::UpdateDependencyToLatestVersion =>
                "Update Dependency to Latest Version"@,
        }
    }

    /// The title that the editor shows.
    pub fn as_str(&self) -> (r: &'static str)
        ensures
            r@ == self.title(),
    {
        match self {
            CodeActionRefactorRewriteName::UseWorkspaceDependency => "Use Workspace Dependency",
            CodeActionRefactorRewriteName::AddToWorkspaceAndUseWorkspaceDependency =>
                "Add to Workspace and Use Workspace Dependency",
            CodeActionRefactorRewriteName::UpdateDependencyToLatestVersion =>
                "Update Dependency to Latest Version",
        }
    }

    /// The title as a string.
    pub fn to_string(&self) -> (r: String)
        ensures
            r@ == self.title(),
    {
        proof {
            broadcast use vstd::string::group_string_axioms;
        }
        self.as_str().to_string()
    }
}

/// Whether `c` ends the package name of a dependency string.
pub open spec fn ends_name(c: char) -> bool {
    is_whitespace(c) || c == '[' || c == '@' || c == '<' || c == '>' || c == '=' || c == '!' || c == '~'
}

/// Whether `c` can start a version specifier.
pub open spec fn starts_specifier(c: char) -> bool {
    c == '<' || c == '>' || c == '=' || c == '!' || c == '~'
}

/// The length of the package name at the start of `t`.
pub open spec fn name_len(t: Seq<char>) -> nat
    decreases t.len(),
{
    if t.len() == 0 || ends_name(t[0]) {
        0
    } else {
        1 + name_len(t.drop_first())
    }
}

/// Where the environment marker (after `;`) starts, or the end.
pub open spec fn marker_start(s: Seq<char>) -> int {
    if first_index(s, ';') >= 0 {
        first_index(s, ';')
    } else {
        s.len() as int
    }
}

/// The character span of the version specifier of a PEP 508 dependency string: after the
/// name, white space and `[extras]`, where the next character starts a comparison, up to
/// the environment marker with trailing white space taken off. None for a URL dependency
/// (`@`), for one without a specifier, and for one without a name.
pub open spec fn specifier_span(s: Seq<char>) -> Option<(int, int)> {
    let t = s.take(marker_start(s));
    let c1 = name_len(t) as int;
    let c2 = c1 + leading_whitespace(t.skip(c1));
    let c3 = if c2 < t.len() && t[c2] == '[' {
        if first_index(t.skip(c2), ']') < 0 {
            -1
        } else {
            c2 + first_index(t.skip(c2), ']') + 1
        }
    } else {
        c2
    };
    let c4 = c3 + leading_whitespace(t.skip(c3));
    let end = t.len() - trailing_whitespace(t);
    if c1 == 0 || c3 < 0 {
        None
    } else if !(c4 < t.len() && starts_specifier(t[c4])) {
        None
    } else if c4 >= end {
        None
    } else {
        Some((c4, end))
    }
}

/// The number of UTF-8 bytes of the first `i` characters of `s`, as a column.
pub open spec fn byte_column(s: Seq<char>, i: int) -> u32 {
    encode_utf8(s.take(i)).len() as usize as u32
}

proof fn lemma_name_len(t: Seq<char>)
    ensures
        name_len(t) <= t.len(),
        forall|j: int| 0 <= j < name_len(t) ==> !ends_name(#[trigger] t[j]),
        name_len(t) < t.len() ==> ends_name(t[name_len(t) as int]),
    decreases t.len(),
{
    if t.len() > 0 && !ends_name(t[0]) {
        lemma_name_len(t.drop_first());
        assert forall|j: int| 0 <= j < name_len(t) implies !ends_name(#[trigger] t[j]) by {
            if j > 0 {
                assert(t[j] == t.drop_first()[j - 1]);
            }
        }
        if name_len(t) < t.len() {
            assert(t[name_len(t) as int] == t.drop_first()[name_len(t.drop_first()) as int]);
        }
    }
}

/// Whether `c` ends the package name of a dependency string.
fn is_name_end(c: char) -> (r: bool)
    ensures
        r == ends_name(c),
{
    char_is_whitespace(c) || c == '[' || c == '@' || c == '<' || c == '>' || c == '=' || c == '!' || c == '~'
}

/// The length of the package name at the start of `t`.
fn count_name(t: &str) -> (r: usize)
    ensures
        r == name_len(t@),
{
    proof { lemma_name_len(t@); }
    let n = t.unicode_len();
    let mut i: usize = 0;
    while i < n && !is_name_end(t.get_char(i))
        invariant
            n == t@.len(),
            0 <= i <= n,
            forall|j: int| 0 <= j < i ==> !ends_name(#[trigger] t@[j]),
        decreases n - i,
    {
        i = i + 1;
    }
    proof {
        if i < name_len(t@) {
            assert(!ends_name(t@[i as int]));
        }
        if name_len(t@) < i {
            assert(!ends_name(t@[name_len(t@) as int]));
        }
    }
    i
}

/// The character span of the version specifier of a PEP 508 dependency string; see
/// `specifier_span`.
fn specifier_char_span(dependency: &str) -> (r: Option<(usize, usize)>)
    ensures
        match specifier_span(dependency@) {
            Some((a, b)) => r matches Some(p) && p.0 == a && p.1 == b && 0 <= a < b <= dependency@.len(),
            None => r is None,
        },
{
    let ghost s = dependency@;
    let n = dependency.unicode_len();
    let m = match find_char(dependency, ';') {
        Some(i) => i,
        None => n,
    };
    proof { lemma_first_index(s, ';'); }
    let t = dependency.substring_char(0, m);
    assert(t@ =~= s.take(marker_start(s)));
    let tn = t.unicode_len();
    let c1 = count_name(t);
    if c1 == 0 {
        return None;
    }
    proof { lemma_name_len(t@); }
    let w1 = count_leading_whitespace(t.substring_char(c1, tn));
    assert(t@.subrange(c1 as int, tn as int) =~= t@.skip(c1 as int));
    proof { crate::text::lemma_leading_whitespace(t@.skip(c1 as int)); }
    let c2 = c1 + w1;
    let c3 = if c2 < tn && t.get_char(c2) == '[' {
        let rest = t.substring_char(c2, tn);
        assert(rest@ =~= t@.skip(c2 as int));
        match find_char(rest, ']') {
            Some(k) => {
                proof { lemma_first_index(rest@, ']'); }
                c2 + k + 1
            },
            None => return None,
        }
    } else {
        c2
    };
    let w2 = count_leading_whitespace(t.substring_char(c3, tn));
    assert(t@.subrange(c3 as int, tn as int) =~= t@.skip(c3 as int));
    proof { crate::text::lemma_leading_whitespace(t@.skip(c3 as int)); }
    let c4 = c3 + w2;
    if !(c4 < tn && {
        let c = t.get_char(c4);
        c == '<' || c == '>' || c == '=' || c == '!' || c == '~'
    }) {
        return None;
    }
    let tw = count_trailing_whitespace(t);
    proof { crate::text::lemma_trailing_whitespace(t@); }
    let end = tn - tw;
    if c4 >= end {
        return None;
    }
    Some((c4, end))
}

/// The span of the version specifier of a PEP 508 dependency string, in UTF-8 byte
/// columns of line 0; see `specifier_span`.
pub fn find_version_specifier_range(dependency: &str) -> (r: Option<Range>)
    ensures
        match specifier_span(dependency@) {
            Some((a, b)) => r == Some(
                Range {
                    start: Position { line: 0, column: byte_column(dependency@, a) },
                    end: Position { line: 0, column: byte_column(dependency@, b) },
                },
            ),
            None => r is None,
        },
{
    let ghost s = dependency@;
    match specifier_char_span(dependency) {
        Some((a, b)) => {
            let start_bytes = dependency.substring_char(0, a).len();
            let end_bytes = dependency.substring_char(0, b).len();
            assert(dependency@.subrange(0, a as int) =~= s.take(a as int));
            assert(dependency@.subrange(0, b as int) =~= s.take(b as int));
            Some(Range::new(Position::new(0, start_bytes as u32), Position::new(0, end_bytes as u32)))
        },
        None => None,
    }
}

/// The first requirement named `name` among `entries`.
pub open spec fn first_named(entries: Seq<(Seq<char>, Range, RequirementView)>, name: Seq<char>) -> Option<
    RequirementView,
>
    decreases entries.len(),
{
    if entries.len() == 0 {
        None
    } else if entries[0].2.name == name {
        Some(entries[0].2)
    } else {
        first_named(entries.drop_first(), name)
    }
}

/// The one edit of "Use Workspace Dependency": where the dependency string at `accessors`
/// has a version or URL and the workspace lists a requirement of the same name, the
/// string becomes the dependency's own name and extras, without its version, quoted.
pub open spec fn use_workspace_edit(document: Value, accessors: Seq<Accessor>, workspace: Value) -> Option<
    (Range, Seq<char>),
> {
    if accessors.len() < 3 {
        None
    } else {
        match dig_path(document, accessors) {
            Some(Value::String { value, range }) => match parsed_requirement(value@) {
                Some(req) => if req.version_or_url is None {
                    None
                } else {
                    match first_named(standard_requirements(workspace), req.name) {
                        Some(_) => Some((range, "\""@ + without_version_text(req) + "\""@)),
                        None => None,
                    }
                },
                None => None,
            },
            _ => None,
        }
    }
}

/// "Use Workspace Dependency" on a dependency string of a workspace member.
pub fn use_workspace_dependency_code_action(
    document_tree: &Value,
    accessors: &[Accessor],
    workspace_document_tree: &Value,
) -> (r: Option<CodeAction>)
    ensures
        match use_workspace_edit(*document_tree, accessors@, *workspace_document_tree) {
            Some((range, text)) => r matches Some(a) && a.workspace_edits@.len() == 0 && a.title@ == CodeActionRefactorRewriteName::UseWorkspaceDependency.title()
                && a.edits@.len() == 1 && a.edits@[0].range == range && a.edits@[0].new_text@ == text
                && a.disabled is None,
            None => r is None,
        },
{
    if accessors.len() < 3 {
        return None;
    }
    let (value, range) = match dig_accessors(document_tree, accessors) {
        Some(Value::String { value, range }) => (value, *range),
        _ => return None,
    };
    let requirement = match parse_requirement(value.as_str()) {
        Some(req) => req,
        None => return None,
    };
    if requirement.version_or_url.is_none() {
        return None;
    }
    let workspace_requirements = collect_dependency_requirements_from_document_tree(workspace_document_tree);
    let ghost entries = requirement_entries(workspace_requirements@);
    let n = workspace_requirements.len();
    let mut i: usize = 0;
    assert(entries.skip(0) =~= entries);
    while i < n
        invariant
            n == workspace_requirements@.len(),
            entries == requirement_entries(workspace_requirements@),
            entries == standard_requirements(*workspace_document_tree),
            accessors@.len() >= 3,
            dig_path(*document_tree, accessors@) == Some(Value::String { value: *value, range }),
            parsed_requirement(value@) == Some(requirement.view_requirement()),
            requirement.version_or_url is Some,
            0 <= i <= n,
            first_named(entries, requirement.name@) == first_named(entries.skip(i as int), requirement.name@),
        decreases n - i,
    {
        assert(entries.skip(i as int)[0] == entries[i as int]);
        assert(entries.skip(i as int).drop_first() =~= entries.skip(i + 1));
        let candidate = &workspace_requirements[i].requirement;
        assert(entries[i as int].2 == candidate.view_requirement());
        if str_eq(candidate.name.as_str(), requirement.name.as_str()) {
            assert(requirement.view_requirement().name == requirement.name@);
            let mut text = String::from_str("\"");
            let bare = format_dependency_without_version(&requirement);
            text.append(bare.as_str());
            text.append("\"");
            let mut edits: Vec<TextEdit> = Vec::new();
            edits.push(TextEdit { range, new_text: text });
            proof {
                let w = candidate.view_requirement();
                assert(first_named(entries.skip(i as int), requirement.name@) == Some(w));
                assert(parsed_requirement(value@) == Some(requirement.view_requirement()));
                assert(requirement.view_requirement().version_or_url is Some);
                assert(dig_path(*document_tree, accessors@) == Some(Value::String { value: *value, range }));
                assert(text@ == "\""@ + without_version_text(requirement.view_requirement()) + "\""@);
                assert(use_workspace_edit(*document_tree, accessors@, *workspace_document_tree) == Some(
                    (range, text@),
                ));
            }
            return Some(
                CodeAction {
                    title: CodeActionRefactorRewriteName::UseWorkspaceDependency.to_string(),
                    edits,
                    disabled: None,
                    workspace_edits: Vec::new(),
                },
            );
        }
        i = i + 1;
    }
    assert(entries.skip(n as int).len() == 0);
    None
}

/// The dependency string at `accessors`, where it reads as a requirement with version
/// specifiers: its text, its span and the requirement.
pub open spec fn updatable_dependency_spec(document: Value, accessors: Seq<Accessor>) -> Option<
    (Seq<char>, Range, RequirementView),
> {
    match dig_path(document, accessors) {
        Some(Value::String { value, range }) => match parsed_requirement(value@) {
            Some(req) => if req.version_or_url matches Some(RequirementVersionView::Specifiers(_)) {
                Some((value@, range, req))
            } else {
                None
            },
            None => None,
        },
        _ => None,
    }
}

/// The dependency string at `accessors` that "Update Dependency to Latest Version" can pin,
/// with what it reads as; the latest version is then looked up by the requirement's name.
pub fn updatable_dependency<'a>(document_tree: &'a Value, accessors: &[Accessor]) -> (r: Option<
    (&'a String, Range, Pep508Requirement),
>)
    ensures
        match updatable_dependency_spec(*document_tree, accessors@) {
            Some((text, range, req)) => r matches Some(p) && p.0@ == text && p.1 == range
                && p.2.view_requirement() == req,
            None => r is None,
        },
{
    let (value, range) = match dig_accessors(document_tree, accessors) {
        Some(Value::String { value, range }) => (value, *range),
        _ => return None,
    };
    let requirement = match parse_requirement(value.as_str()) {
        Some(req) => req,
        None => return None,
    };
    match &requirement.version_or_url {
        Some(RequirementVersion::Specifiers(_)) => {},
        _ => return None,
    }
    Some((value, range, requirement))
}

/// A position moved along its line by `columns`.
pub open spec fn shifted(p: Position, columns: u32) -> Position {
    Position { line: p.line, column: (p.column + columns) as u32 }
}

/// The edit of "Update Dependency to Latest Version" on `dependency`, written inside
/// `unquoted`: its version specifier becomes `==` and the latest version; the action is
/// greyed out where the latest version is the specifier as written.
pub open spec fn latest_version_edit(dependency: Seq<char>, unquoted: Range, latest: Seq<char>) -> Option<
    (Range, Seq<char>, bool),
> {
    match specifier_span(dependency) {
        Some((a, b)) => Some(
            (
                Range {
                    start: shifted(unquoted.start, byte_column(dependency, a)),
                    end: shifted(unquoted.start, byte_column(dependency, b)),
                },
                "=="@ + normalized_version(latest),
                latest == dependency.subrange(a, b),
            ),
        ),
        None => None,
    }
}

/// "Update Dependency to Latest Version" on the dependency string `dependency`, whose
/// characters lie from `unquoted_range.start` on, once `latest_version` is known.
pub fn latest_version_code_action(dependency: &str, unquoted_range: Range, latest_version: &str) -> (r: Option<
    CodeAction,
>)
    requires
        specifier_span(dependency@) matches Some((a, b)) ==> unquoted_range.start.column + byte_column(
            dependency@,
            a,
        ) <= u32::MAX && unquoted_range.start.column + byte_column(dependency@, b) <= u32::MAX,
    ensures
        match latest_version_edit(dependency@, unquoted_range, latest_version@) {
            Some((range, text, current)) => r matches Some(a) && a.workspace_edits@.len() == 0 && a.title@
                == CodeActionRefactorRewriteName::UpdateDependencyToLatestVersion.title() && a.edits@.len() == 1
                && a.edits@[0].range == range && a.edits@[0].new_text@ == text && (match a.disabled {
                Some(reason) => current && reason@ == "Already at latest version"@,
                None => !current,
            }),
            None => r is None,
        },
{
    let (a, b) = match specifier_char_span(dependency) {
        Some(span) => span,
        None => return None,
    };
    let columns = match find_version_specifier_range(dependency) {
        Some(range) => range,
        None => return None,
    };
    let start = Position::new(unquoted_range.start.line, unquoted_range.start.column + columns.start.column);
    let end = Position::new(unquoted_range.start.line, unquoted_range.start.column + columns.end.column);
    let current = dependency.substring_char(a, b);
    let disabled = if str_eq(latest_version, current) {
        Some(String::from_str("Already at latest version"))
    } else {
        None
    };
    let mut edits: Vec<TextEdit> = Vec::new();
    edits.push(TextEdit { range: Range::new(start, end), new_text: format_exact_pinned_dependency(latest_version) });
    Some(
        CodeAction {
            title: CodeActionRefactorRewriteName::UpdateDependencyToLatestVersion.to_string(),
            edits,
            disabled,
            workspace_edits: Vec::new(),
        },
    )
}


/// The array of the workspace manifest that a member's dependency is added to: the array
/// at the same path as the one the dependency sits in, where the workspace has a value
/// there; else `project.dependencies`. None where that value is no array.
pub open spec fn workspace_dependency_array_of(workspace: Value, accessors: Seq<Accessor>) -> Option<Value> {
    if accessors.len() == 0 {
        None
    } else {
        let found = match dig_path(workspace, accessors.drop_last()) {
            Some(v) => Some(v),
            None => crate::document::dig_value(workspace, seq!["project"@, "dependencies"@]),
        };
        match found {
            Some(v) => if v is Array {
                Some(v)
            } else {
                None
            },
            None => None,
        }
    }
}

/// The array of the workspace manifest that a member's dependency is added to; see
/// `workspace_dependency_array_of`.
pub fn workspace_dependency_array<'a>(workspace_document_tree: &'a Value, accessors: &[Accessor]) -> (r: Option<
    &'a Value,
>)
    ensures
        match workspace_dependency_array_of(*workspace_document_tree, accessors@) {
            Some(v) => r matches Some(x) && *x == v,
            None => r is None,
        },
{
    if accessors.len() == 0 {
        return None;
    }
    let head = vstd::slice::slice_subrange(accessors, 0, accessors.len() - 1);
    assert(head@ =~= accessors@.drop_last());
    let found = match dig_accessors(workspace_document_tree, head) {
        Some(v) => v,
        None => {
            let keys = ["project", "dependencies"];
            assert(crate::document::key_views(keys@) =~= seq!["project"@, "dependencies"@]);
            match crate::document::dig_keys(workspace_document_tree, &keys) {
                Some((_, v)) => v,
                None => return None,
            }
        },
    };
    match found {
        Value::Array { .. } => Some(found),
        _ => None,
    }
}

/// The names of the requirements that the strings of an array read as, in order: what the
/// version-sort order of the new entry is computed among.
pub open spec fn package_names_of(values: Seq<Value>) -> Seq<Seq<char>>
    decreases values.len(),
{
    if values.len() == 0 {
        Seq::empty()
    } else {
        let rest = package_names_of(values.drop_last());
        match values.last() {
            Value::String { value, .. } => match parsed_requirement(value@) {
                Some(req) => rest.push(req.name),
                None => rest,
            },
            _ => rest,
        }
    }
}

/// The names of the requirements of an array; see `package_names_of`.
pub fn existing_package_names(array: &Value) -> (r: Vec<String>)
    ensures
        r@.map_values(|s: String| s@) == match *array {
            Value::Array { values, .. } => package_names_of(values@),
            _ => Seq::empty(),
        },
{
    let mut out: Vec<String> = Vec::new();
    match array {
        Value::Array { values, .. } => {
            let n = values.len();
            let mut i: usize = 0;
            assert(out@.map_values(|s: String| s@) =~= package_names_of(values@.take(0)));
            while i < n
                invariant
                    n == values@.len(),
                    0 <= i <= n,
                    out@.map_values(|s: String| s@) == package_names_of(values@.take(i as int)),
                decreases n - i,
            {
                assert(values@.take(i + 1).drop_last() =~= values@.take(i as int));
                assert(values@.take(i + 1).last() == values@[i as int]);
                match &values[i] {
                    Value::String { value, .. } => match parse_requirement(value.as_str()) {
                        Some(req) => {
                            let ghost before = out@;
                            out.push(req.name);
                            assert(out@.map_values(|s: String| s@) =~= before.map_values(|s: String| s@).push(
                                req.view_requirement().name,
                            ));
                        },
                        None => {},
                    },
                    _ => {},
                }
                i = i + 1;
            }
            assert(values@.take(n as int) =~= values@);
        },
        _ => {
            assert(out@.map_values(|s: String| s@) =~= Seq::<Seq<char>>::empty());
        },
    }
    out
}

/// The two edits of "Add to Workspace and Use Workspace Dependency" on the dependency
/// string at `accessors` of a member: none unless it reads as a requirement with a version
/// or URL that the workspace does not list by name, and the workspace has an array to add
/// it to (`workspace_dependency_array_of`) whose layout in the source the caller found
/// (`layout`). The workspace edit adds the dependency string as written (`element_text`)
/// at `insertion_index`, the version-sort place that the caller computed among
/// `existing_package_names`, as `insertion_of` places it; the member edit writes the
/// dependency's name and extras without its version, quoted, over the string.
pub open spec fn add_to_workspace_edits(
    document: Value,
    accessors: Seq<Accessor>,
    workspace: Value,
    layout: Option<SequenceLayout>,
    insertion_index: int,
    element_text: Seq<char>,
) -> Option<((Range, Seq<char>), (Range, Seq<char>))> {
    match dig_path(document, accessors) {
        Some(Value::String { value, range }) => match parsed_requirement(value@) {
            Some(req) => if req.version_or_url is None {
                None
            } else if first_named(standard_requirements(workspace), req.name) is Some {
                None
            } else if workspace_dependency_array_of(workspace, accessors) is None {
                None
            } else {
                match layout {
                    Some(l) => match insertion_of(l, insertion_index, element_text) {
                        Some((p, t)) => Some(
                            ((Range { start: p, end: p }, t), (range, "\""@ + without_version_text(req) + "\""@)),
                        ),
                        None => None,
                    },
                    None => None,
                }
            },
            None => None,
        },
        _ => None,
    }
}

/// Whether the workspace lists a requirement named `name`.
fn lists_requirement(workspace_document_tree: &Value, name: &str) -> (r: bool)
    ensures
        r == (first_named(standard_requirements(*workspace_document_tree), name@) is Some),
{
    let requirements = collect_dependency_requirements_from_document_tree(workspace_document_tree);
    let ghost entries = requirement_entries(requirements@);
    let n = requirements.len();
    let mut i: usize = 0;
    assert(entries.skip(0) =~= entries);
    while i < n
        invariant
            n == requirements@.len(),
            entries == requirement_entries(requirements@),
            entries == standard_requirements(*workspace_document_tree),
            0 <= i <= n,
            first_named(entries, name@) == first_named(entries.skip(i as int), name@),
        decreases n - i,
    {
        assert(entries.skip(i as int)[0] == entries[i as int]);
        assert(entries.skip(i as int).drop_first() =~= entries.skip(i + 1));
        assert(entries[i as int].2 == requirements@[i as int].requirement.view_requirement());
        if str_eq(requirements[i].requirement.name.as_str(), name) {
            return true;
        }
        i = i + 1;
    }
    assert(entries.skip(n as int).len() == 0);
    false
}

/// "Add to Workspace and Use Workspace Dependency" on a dependency string of a workspace
/// member; see `add_to_workspace_edits`. `layout` is the layout of the workspace's array
/// in the source, `insertion_index` the version-sort place of the dependency among its
/// packages, and `element_text` the dependency string as written in TOML.
pub fn add_workspace_dependency_code_action(
    document_tree: &Value,
    accessors: &[Accessor],
    workspace_document_tree: &Value,
    layout: Option<&SequenceLayout>,
    insertion_index: usize,
    element_text: &str,
) -> (r: Option<CodeAction>)
    ensures
        match add_to_workspace_edits(
            *document_tree,
            accessors@,
            *workspace_document_tree,
            match layout {
                Some(l) => Some(*l),
                None => None,
            },
            insertion_index as int,
            element_text@,
        ) {
            Some((w, m)) => r matches Some(a) && a.title@
                == CodeActionRefactorRewriteName::AddToWorkspaceAndUseWorkspaceDependency.title()
                && a.workspace_edits@.len() == 1 && a.workspace_edits@[0].range == w.0
                && a.workspace_edits@[0].new_text@ == w.1 && a.edits@.len() == 1 && a.edits@[0].range == m.0
                && a.edits@[0].new_text@ == m.1 && a.disabled is None,
            None => r is None,
        },
{
    let (value, range) = match dig_accessors(document_tree, accessors) {
        Some(Value::String { value, range }) => (value, *range),
        _ => return None,
    };
    let requirement = match parse_requirement(value.as_str()) {
        Some(req) => req,
        None => return None,
    };
    if requirement.version_or_url.is_none() {
        return None;
    }
    if lists_requirement(workspace_document_tree, requirement.name.as_str()) {
        return None;
    }
    if workspace_dependency_array(workspace_document_tree, accessors).is_none() {
        return None;
    }
    let l = match layout {
        Some(l) => l,
        None => return None,
    };
    let (p, t) = match calculate_insertion(l, insertion_index, element_text) {
        Some(x) => x,
        None => return None,
    };
    let mut text = String::from_str("\"");
    let bare = format_dependency_without_version(&requirement);
    text.append(bare.as_str());
    text.append("\"");
    let mut edits: Vec<TextEdit> = Vec::new();
    edits.push(TextEdit { range, new_text: text });
    let mut workspace_edits: Vec<TextEdit> = Vec::new();
    workspace_edits.push(TextEdit { range: Range::at(p), new_text: t });
    Some(
        CodeAction {
            title: CodeActionRefactorRewriteName::AddToWorkspaceAndUseWorkspaceDependency.to_string(),
            edits,
            disabled: None,
            workspace_edits,
        },
    )
}


/// Which code actions of a `pyproject.toml` are switched on; each is on unless switched
/// off.
#[derive(Debug, Clone, Copy, Default)]
pub struct PyprojectCodeActionFeatures {
    pub enabled: Option<bool>,
    pub update_dependency_to_latest_version: Option<bool>,
    pub use_workspace_dependency: Option<bool>,
    pub add_to_workspace_and_use_workspace_dependency: Option<bool>,
}

/// What the code actions on a dependency of a `pyproject.toml` need: the length of the path
/// of the dependency item (a prefix of the path at hand), whether to ask PyPI for the latest version, and, where the manifest is
/// no uv workspace root, that the workspace manifest be found and which of the workspace
/// actions to try on it.
#[derive(Debug, Clone)]
pub struct PyCodeActionPlan {
    pub dependency_path_len: usize,
    pub update_to_latest: bool,
    pub needs_workspace: bool,
    pub use_workspace_dependency: bool,
    pub add_to_workspace: bool,
}

pub open spec fn toggle_on(t: Option<bool>) -> bool {
    t != Some(false)
}

pub open spec fn py_features_view(f: Option<&PyprojectCodeActionFeatures>) -> PyprojectCodeActionFeatures {
    match f {
        Some(x) => *x,
        None => PyprojectCodeActionFeatures {
            enabled: None,
            update_dependency_to_latest_version: None,
            use_workspace_dependency: None,
            add_to_workspace_and_use_workspace_dependency: None,
        },
    }
}

/// The plan of the code actions at `accessors` of the document at `path`: none where the
/// document is no `pyproject.toml`, where its code actions are off, or where the path is in
/// no dependency item; the workspace actions only where the document has no
/// `[tool.uv.workspace]`.
pub open spec fn code_action_plan_of(
    path: Seq<char>,
    features: PyprojectCodeActionFeatures,
    accessors: Seq<Accessor>,
    document: Value,
) -> Option<(int, bool, bool, bool, bool)> {
    if !crate::text::ends_with_text(path, "pyproject.toml"@) || !toggle_on(features.enabled) {
        None
    } else {
        match crate::py_accessor::dependency_item_path(accessors) {
            Some(p) => {
                let needs_workspace = crate::document::dig(document, seq!["tool"@, "uv"@, "workspace"@]) is None;
                Some(
                    (
                        p.len() as int,
                        toggle_on(features.update_dependency_to_latest_version),
                        needs_workspace,
                        needs_workspace && toggle_on(features.use_workspace_dependency),
                        needs_workspace && toggle_on(features.add_to_workspace_and_use_workspace_dependency),
                    ),
                )
            },
            None => None,
        }
    }
}

pub open spec fn plan_view(p: PyCodeActionPlan) -> (int, bool, bool, bool, bool) {
    (p.dependency_path_len as int, p.update_to_latest, p.needs_workspace, p.use_workspace_dependency, p.add_to_workspace)
}

/// The plan of the code actions on a `pyproject.toml`; see `code_action_plan_of`.
pub fn pyproject_code_action_plan(
    path: &str,
    features: Option<&PyprojectCodeActionFeatures>,
    accessors: &[Accessor],
    document_tree: &Value,
) -> (r: Option<PyCodeActionPlan>)
    ensures
        match r {
            Some(p) => code_action_plan_of(path@, py_features_view(features), accessors@, *document_tree) == Some(
                plan_view(p),
            ),
            None => code_action_plan_of(path@, py_features_view(features), accessors@, *document_tree) is None,
        },
{
    let f = match features {
        Some(x) => *x,
        None => PyprojectCodeActionFeatures {
            enabled: None,
            update_dependency_to_latest_version: None,
            use_workspace_dependency: None,
            add_to_workspace_and_use_workspace_dependency: None,
        },
    };
    if !crate::text::ends_with(path, "pyproject.toml") || f.enabled == Some(false) {
        return None;
    }
    let item = match crate::py_accessor::get_dependency_accessors(accessors) {
        Some(p) => p,
        None => return None,
    };
    let keys = ["tool", "uv", "workspace"];
    assert(crate::document::key_views(keys@) =~= seq!["tool"@, "uv"@, "workspace"@]);
    let needs_workspace = crate::document::dig_keys(document_tree, &keys).is_none();
    Some(
        PyCodeActionPlan {
            dependency_path_len: item.len(),
            update_to_latest: f.update_dependency_to_latest_version != Some(false),
            needs_workspace,
            use_workspace_dependency: needs_workspace && f.use_workspace_dependency != Some(false),
            add_to_workspace: needs_workspace && f.add_to_workspace_and_use_workspace_dependency != Some(false),
        },
    )
}

/// The code actions that a plan comes to: the update action where the plan asks for it and
/// one came; then, where the plan needs the workspace, none at all unless the workspace
/// manifest was found, and the workspace actions it asks for that came; none where none
/// came.
pub open spec fn planned_actions_of(
    plan: (int, bool, bool, bool, bool),
    update: Option<CodeAction>,
    workspace_found: bool,
    use_workspace: Option<CodeAction>,
    add_to_workspace: Option<CodeAction>,
) -> Option<Seq<CodeAction>> {
    if plan.2 && !workspace_found {
        None
    } else {
        let first = match update {
            Some(a) => if plan.1 { seq![a] } else { Seq::empty() },
            None => Seq::empty(),
        };
        let second = match use_workspace {
            Some(a) => if plan.3 { seq![a] } else { Seq::empty() },
            None => Seq::empty(),
        };
        let third = match add_to_workspace {
            Some(a) => if plan.4 { seq![a] } else { Seq::empty() },
            None => Seq::empty(),
        };
        let all = first + second + third;
        if all.len() == 0 {
            None
        } else {
            Some(all)
        }
    }
}

/// The code actions that a plan comes to; see `planned_actions_of`. `update` is the update
/// action that the PyPI answer gave, `workspace_found` whether the workspace manifest was
/// found and read, `use_workspace` and `add_to_workspace` the actions computed against it.
pub fn pyproject_code_actions(
    plan: &PyCodeActionPlan,
    update: Option<CodeAction>,
    workspace_found: bool,
    use_workspace: Option<CodeAction>,
    add_to_workspace: Option<CodeAction>,
) -> (r: Option<Vec<CodeAction>>)
    ensures
        match r {
            Some(v) => planned_actions_of(plan_view(*plan), update, workspace_found, use_workspace, add_to_workspace)
                == Some(v@),
            None => planned_actions_of(plan_view(*plan), update, workspace_found, use_workspace, add_to_workspace)
                is None,
        },
{
    if plan.needs_workspace && !workspace_found {
        return None;
    }
    let ghost u = update;
    let ghost w = use_workspace;
    let ghost x = add_to_workspace;
    let mut out: Vec<CodeAction> = Vec::new();
    match update {
        Some(a) => if plan.update_to_latest {
            out.push(a);
        },
        None => {},
    }
    match use_workspace {
        Some(a) => if plan.use_workspace_dependency {
            out.push(a);
        },
        None => {},
    }
    match add_to_workspace {
        Some(a) => if plan.add_to_workspace {
            out.push(a);
        },
        None => {},
    }
    proof {
        let first = match u {
            Some(a) => if plan.update_to_latest { seq![a] } else { Seq::empty() },
            None => Seq::empty(),
        };
        let second = match w {
            Some(a) => if plan.use_workspace_dependency { seq![a] } else { Seq::empty() },
            None => Seq::empty(),
        };
        let third = match x {
            Some(a) => if plan.add_to_workspace { seq![a] } else { Seq::empty() },
            None => Seq::empty(),
        };
        assert(out@ =~= first + second + third);
    }
    if out.len() == 0 {
        None
    } else {
        Some(out)
    }
}


/// "Use Workspace Dependency" and "Add to Workspace and Use Workspace Dependency" are never
/// both offered on one dependency string: the first needs the workspace to list the
/// package, the second needs it not to.
pub proof fn lemma_workspace_actions_exclusive(
    document: Value,
    accessors: Seq<Accessor>,
    workspace: Value,
    layout: Option<SequenceLayout>,
    insertion_index: int,
    element_text: Seq<char>,
)
    ensures
        !(use_workspace_edit(document, accessors, workspace) is Some && add_to_workspace_edits(
            document,
            accessors,
            workspace,
            layout,
            insertion_index,
            element_text,
        ) is Some),
{
}

} // verus!
