//! Document links and path completion of a `tombi.toml`: the schema catalogs and
//! schemas that it names.

use vstd::prelude::*;
use vstd::string::StringExecFns;

use crate::accessor::{matches_accessors, matches_pattern, pattern_view, Accessor};
use crate::dependency_link::{inside_quotes, unquoted_range};
use crate::document::{dig, dig_keys, key_views, table_get, Key, Range, Value};

verus! {

/// What a document link of a `tombi.toml` opens.
#[derive(Debug, Clone, Copy, PartialEq, Eq, Structural)]
pub enum DocumentLinkToolTip {
    Catalog,
    Schema,
}

impl DocumentLinkToolTip {
    /// The tooltip text.
    pub open spec fn text(self) -> Seq<char> {
        match self {
            DocumentLinkToolTip::Catalog => "Open JSON Schema Catalog"@,
            DocumentLinkToolTip::Schema => "Open JSON Schema"@,
        }
    }

    /// The tooltip text.
    pub fn as_str(&self) -> (r: &'static str)
        ensures
            r@ == self.text(),
    {
        match self {
            DocumentLinkToolTip::Catalog => "Open JSON Schema Catalog",
            DocumentLinkToolTip::Schema => "Open JSON Schema",
        }
    }

    /// The tooltip text as a string.
    pub fn to_string(&self) -> (r: String)
        ensures
            r@ == self.text(),
    {
        String::from_str(self.as_str())
    }
}

/// A place of a `tombi.toml` that names a schema file: the path text, the span of the
/// text and what a link there opens. The caller turns the path into a link target.
pub type LinkCandidate = (String, Range, DocumentLinkToolTip);

pub open spec fn candidate_view(c: LinkCandidate) -> (Seq<char>, Range, DocumentLinkToolTip) {
    (c.0@, c.1, c.2)
}

pub open spec fn candidates_view(cs: Seq<LinkCandidate>) -> Seq<(Seq<char>, Range, DocumentLinkToolTip)> {
    cs.map_values(|c: LinkCandidate| candidate_view(c))
}

/// The strings among `values`, as candidates with the tooltip `tooltip`.
pub open spec fn string_candidates(values: Seq<Value>, tooltip: DocumentLinkToolTip) -> Seq<
    (Seq<char>, Range, DocumentLinkToolTip),
>
    decreases values.len(),
{
    if values.len() == 0 {
        Seq::empty()
    } else {
        string_candidates(values.drop_last(), tooltip) + match values.last() {
            Value::String { value, range } => seq![(value@, inside_quotes(range), tooltip)],
            _ => Seq::empty(),
        }
    }
}

/// The `path` strings of the tables among `values` (the entries of `[[schemas]]`).
pub open spec fn schema_candidates(values: Seq<Value>) -> Seq<(Seq<char>, Range, DocumentLinkToolTip)>
    decreases values.len(),
{
    if values.len() == 0 {
        Seq::empty()
    } else {
        schema_candidates(values.drop_last()) + match values.last() {
            Value::Table { .. } => match table_get(values.last(), "path"@) {
                Some(Value::String { value, range }) => seq![
                    (value@, inside_quotes(range), DocumentLinkToolTip::Schema),
                ],
                _ => Seq::empty(),
            },
            _ => Seq::empty(),
        }
    }
}

/// The places of a `tombi.toml` that name schema files, in order: `schema.catalog.path`
/// (a string, or the strings of an array), the strings of `schema.catalog.paths`, then the
/// `path` of each table of `[[schemas]]`.
pub open spec fn link_candidates_of(document: Value) -> Seq<(Seq<char>, Range, DocumentLinkToolTip)> {
    let path = match dig(document, seq!["schema"@, "catalog"@, "path"@]) {
        Some((_, Value::String { value, range })) => seq![(value@, inside_quotes(range), DocumentLinkToolTip::Catalog)],
        Some((_, Value::Array { values, .. })) => string_candidates(values@, DocumentLinkToolTip::Catalog),
        _ => Seq::empty(),
    };
    let paths = match dig(document, seq!["schema"@, "catalog"@, "paths"@]) {
        Some((_, Value::Array { values, .. })) => string_candidates(values@, DocumentLinkToolTip::Catalog),
        _ => Seq::empty(),
    };
    let schemas = match dig(document, seq!["schemas"@]) {
        Some((_, Value::Array { values, .. })) => schema_candidates(values@),
        _ => Seq::empty(),
    };
    path + paths + schemas
}

/// Every string among `values` is a candidate of `string_candidates`, at the span inside
/// its quotes.
proof fn lemma_string_candidates_hold(values: Seq<Value>, tooltip: DocumentLinkToolTip, j: int)
    requires
        0 <= j < values.len(),
        values[j] is String,
    ensures
        string_candidates(values, tooltip).contains(
            (values[j]->String_value@, inside_quotes(values[j]->String_range), tooltip),
        ),
    decreases values.len(),
{
    let c = (values[j]->String_value@, inside_quotes(values[j]->String_range), tooltip);
    let rest = string_candidates(values.drop_last(), tooltip);
    let last = match values.last() {
        Value::String { value, range } => seq![(value@, inside_quotes(range), tooltip)],
        _ => Seq::<(Seq<char>, Range, DocumentLinkToolTip)>::empty(),
    };
    assert(string_candidates(values, tooltip) == rest + last);
    if j == values.len() - 1 {
        assert((rest + last)[rest.len() as int] == c);
    } else {
        lemma_string_candidates_hold(values.drop_last(), tooltip, j);
        assert(values.drop_last()[j] == values[j]);
        let k = choose|k: int| 0 <= k < rest.len() && rest[k] == c;
        assert((rest + last)[k] == c);
    }
}

/// Every string of a `schema.catalog.path` array links to a catalog, as a string
/// `schema.catalog.path` does, at the span inside its quotes.
pub proof fn lemma_catalog_path_strings_are_candidates(document: Value, key: Key, values: Vec<Value>, range: Range, j: int)
    requires
        dig(document, seq!["schema"@, "catalog"@, "path"@]) == Some((key, Value::Array { values, range })),
        0 <= j < values@.len(),
        values@[j] is String,
    ensures
        link_candidates_of(document).contains(
            (values@[j]->String_value@, inside_quotes(values@[j]->String_range), DocumentLinkToolTip::Catalog),
        ),
{
    let c = (values@[j]->String_value@, inside_quotes(values@[j]->String_range), DocumentLinkToolTip::Catalog);
    lemma_string_candidates_hold(values@, DocumentLinkToolTip::Catalog, j);
    let path = string_candidates(values@, DocumentLinkToolTip::Catalog);
    let k = choose|k: int| 0 <= k < path.len() && path[k] == c;
    let all = link_candidates_of(document);
    assert(all[k] == c);
}

/// Appends the strings among `values` as candidates; see `string_candidates`.
fn push_string_candidates(values: &[Value], tooltip: DocumentLinkToolTip, out: &mut Vec<LinkCandidate>)
    ensures
        candidates_view(final(out)@) == candidates_view(old(out)@) + string_candidates(values@, tooltip),
{
    let ghost start = candidates_view(out@);
    let n = values.len();
    let mut i: usize = 0;
    assert(candidates_view(out@) =~= start + string_candidates(values@.take(0), tooltip));
    while i < n
        invariant
            n == values@.len(),
            0 <= i <= n,
            candidates_view(out@) == start + string_candidates(values@.take(i as int), tooltip),
        decreases n - i,
    {
        assert(values@.take(i + 1).drop_last() =~= values@.take(i as int));
        assert(values@.take(i + 1).last() == values@[i as int]);
        let ghost before = candidates_view(out@);
        match &values[i] {
            Value::String { value, range } => {
                let c = (value.clone(), unquoted_range(*range), tooltip);
                let ghost v = candidate_view(c);
                out.push(c);
                assert(candidates_view(out@) =~= before.push(v));
            },
            _ => {},
        }
        assert(candidates_view(out@) =~= start + string_candidates(values@.take(i + 1), tooltip));
        i = i + 1;
    }
    assert(values@.take(n as int) =~= values@);
}

/// The places of a `tombi.toml` that name schema files (see `link_candidates_of`); the
/// caller links those whose path leads somewhere.
pub fn document_link_candidates(document: &Value) -> (r: Vec<LinkCandidate>)
    ensures
        candidates_view(r@) == link_candidates_of(*document),
{
    let mut out: Vec<LinkCandidate> = Vec::new();
    let path_keys = ["schema", "catalog", "path"];
    assert(key_views(path_keys@) =~= seq!["schema"@, "catalog"@, "path"@]);
    match dig_keys(document, &path_keys) {
        Some((_, Value::String { value, range })) => {
            out.push((value.clone(), unquoted_range(*range), DocumentLinkToolTip::Catalog));
        },
        Some((_, Value::Array { values, .. })) => {
            push_string_candidates(values.as_slice(), DocumentLinkToolTip::Catalog, &mut out);
        },
        _ => {},
    }
    let ghost first = candidates_view(out@);
    let paths_keys = ["schema", "catalog", "paths"];
    assert(key_views(paths_keys@) =~= seq!["schema"@, "catalog"@, "paths"@]);
    match dig_keys(document, &paths_keys) {
        Some((_, Value::Array { values, .. })) => {
            push_string_candidates(values.as_slice(), DocumentLinkToolTip::Catalog, &mut out);
        },
        _ => {},
    }
    let ghost second = candidates_view(out@);
    let schema_keys = ["schemas"];
    assert(key_views(schema_keys@) =~= seq!["schemas"@]);
    match dig_keys(document, &schema_keys) {
        Some((_, Value::Array { values, .. })) => {
            let n = values.len();
            let mut i: usize = 0;
            assert(candidates_view(out@) =~= second + schema_candidates(values@.take(0)));
            while i < n
                invariant
                    n == values@.len(),
                    0 <= i <= n,
                    candidates_view(out@) == second + schema_candidates(values@.take(i as int)),
                decreases n - i,
            {
                assert(values@.take(i + 1).drop_last() =~= values@.take(i as int));
                assert(values@.take(i + 1).last() == values@[i as int]);
                let ghost before = candidates_view(out@);
                match &values[i] {
                    Value::Table { .. } => match values[i].get("path") {
                        Some(Value::String { value, range }) => {
                            let c = (value.clone(), unquoted_range(*range), DocumentLinkToolTip::Schema);
                            let ghost v = candidate_view(c);
                            out.push(c);
                            assert(candidates_view(out@) =~= before.push(v));
                        },
                        _ => {},
                    },
                    _ => {},
                }
                assert(candidates_view(out@) =~= second + schema_candidates(values@.take(i + 1)));
                i = i + 1;
            }
            assert(values@.take(n as int) =~= values@);
        },
        _ => {
            assert(candidates_view(out@) =~= second + Seq::<(Seq<char>, Range, DocumentLinkToolTip)>::empty());
        },
    }
    out
}

/// Whether the path at `accessors` of a `tombi.toml` gets file-path completion: a path of
/// `schema.catalog.paths` or the `path` of a schema.
pub open spec fn is_schema_path_of(accessors: Seq<Accessor>) -> bool {
    matches_pattern(accessors, seq![Some("schema"@), Some("catalog"@), Some("paths"@), None]) || matches_pattern(
        accessors,
        seq![Some("schemas"@), None, Some("path"@)],
    )
}

/// The file extensions that path completion offers at `accessors` of a `tombi.toml`: JSON
/// files where the path names a schema file and path completion is on; none elsewhere, in
/// a comment, or where completion is off.
pub fn completion_extensions(
    accessors: &[Accessor],
    in_comment: bool,
    completion_enabled: bool,
    path_completion_enabled: bool,
) -> (r: Option<Vec<&'static str>>)
    ensures
        if !in_comment && completion_enabled && path_completion_enabled && is_schema_path_of(accessors@) {
            r matches Some(v) && v@.len() == 1 && v@[0]@ == "json"@
        } else {
            r is None
        },
{
    if in_comment || !completion_enabled || !path_completion_enabled {
        return None;
    }
    let a = [Some("schema"), Some("catalog"), Some("paths"), None];
    let b = [Some("schemas"), None, Some("path")];
    assert(pattern_view(a@) =~= seq![Some("schema"@), Some("catalog"@), Some("paths"@), None]);
    assert(pattern_view(b@) =~= seq![Some("schemas"@), None, Some("path"@)]);
    if matches_accessors(accessors, &a) || matches_accessors(accessors, &b) {
        let v = vec!["json"];
        proof {
            reveal_strlit("json");
        }
        Some(v)
    } else {
        None
    }
}

} // verus!
