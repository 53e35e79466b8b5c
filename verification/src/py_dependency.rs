//! The dependency strings of a `pyproject.toml` and the dependency groups that include
//! each other.

use vstd::prelude::*;

use crate::document::{dig_value, table_get, Key, Range, Value};
use crate::pep508::{parse_requirement, parsed_requirement, Pep508Requirement, RequirementView};
use crate::py_accessor::{uv_dependency_key_list, uv_dependency_keys};
use crate::text::str_eq;

verus! {

/// A dependency string of the manifest with what it reads as.
#[derive(Debug, Clone)]
pub struct DependencyRequirement<'a> {
    pub dependency: &'a String,
    pub range: Range,
    pub requirement: Pep508Requirement,
}

/// A dependency requirement as plain values: its text, its span and what it reads as.
pub open spec fn requirement_entry(d: DependencyRequirement) -> (Seq<char>, Range, RequirementView) {
    (d.dependency@, d.range, d.requirement.view_requirement())
}

/// The requirements that the strings of an array read as, in order; strings that are no
/// requirement are passed over.
pub open spec fn requirements_of_values(values: Seq<Value>) -> Seq<(Seq<char>, Range, RequirementView)>
    decreases values.len(),
{
    if values.len() == 0 {
        Seq::empty()
    } else {
        let rest = requirements_of_values(values.drop_last());
        match values.last() {
            Value::String { value, range } => match parsed_requirement(value@) {
                Some(req) => rest.push((value@, range, req)),
                None => rest,
            },
            _ => rest,
        }
    }
}

/// The requirements of the array at `value`; none for anything else.
pub open spec fn requirements_of_array(value: Option<Value>) -> Seq<(Seq<char>, Range, RequirementView)> {
    match value {
        Some(Value::Array { values, .. }) => requirements_of_values(values@),
        _ => Seq::empty(),
    }
}

/// The requirements of the arrays of a table's entries, entry after entry.
pub open spec fn requirements_of_groups(entries: Seq<(Key, Value)>) -> Seq<(Seq<char>, Range, RequirementView)>
    decreases entries.len(),
{
    if entries.len() == 0 {
        Seq::empty()
    } else {
        requirements_of_groups(entries.drop_last()) + requirements_of_array(Some(entries.last().1))
    }
}

/// The requirements of the arrays of the table at `value`.
pub open spec fn requirements_of_table(value: Option<Value>) -> Seq<(Seq<char>, Range, RequirementView)> {
    match value {
        Some(Value::Table { entries, .. }) => requirements_of_groups(entries@),
        _ => Seq::empty(),
    }
}

/// The standard dependencies of a manifest: `project.dependencies`, the lists of
/// `project.optional-dependencies`, then the dependency groups.
pub open spec fn standard_requirements(document: Value) -> Seq<(Seq<char>, Range, RequirementView)> {
    requirements_of_array(dig_value(document, seq!["project"@, "dependencies"@])) + requirements_of_table(
        dig_value(document, seq!["project"@, "optional-dependencies"@]),
    ) + requirements_of_table(table_get(document, "dependency-groups"@))
}

/// The requirements of `[tool.uv]`'s lists among `keys`, list after list.
pub open spec fn uv_requirements(document: Value, keys: Seq<Seq<char>>) -> Seq<(Seq<char>, Range, RequirementView)>
    decreases keys.len(),
{
    if keys.len() == 0 {
        Seq::empty()
    } else {
        uv_requirements(document, keys.drop_last()) + requirements_of_array(
            dig_value(document, seq!["tool"@, "uv"@, keys.last()]),
        )
    }
}

/// The views of a list of dependency requirements.
pub open spec fn requirement_entries(v: Seq<DependencyRequirement>) -> Seq<(Seq<char>, Range, RequirementView)> {
    v.map_values(|d: DependencyRequirement| requirement_entry(d))
}

/// Appends the requirements of an array.
fn push_requirements_of_array<'a>(value: Option<&'a Value>, out: &mut Vec<DependencyRequirement<'a>>)
    ensures
        requirement_entries(final(out)@) == requirement_entries(old(out)@) + requirements_of_array(
            match value {
                Some(v) => Some(*v),
                None => None,
            },
        ),
{
    let ghost start = requirement_entries(out@);
    match value {
        Some(Value::Array { values, .. }) => {
            let n = values.len();
            let mut i: usize = 0;
            assert(start + requirements_of_values(values@.take(0)) =~= start);
            while i < n
                invariant
                    n == values@.len(),
                    0 <= i <= n,
                    requirement_entries(out@) == start + requirements_of_values(values@.take(i as int)),
                decreases n - i,
            {
                assert(values@.take(i + 1).drop_last() =~= values@.take(i as int));
                assert(values@.take(i + 1).last() == values@[i as int]);
                match &values[i] {
                    Value::String { value, range } => {
                        match parse_requirement(value.as_str()) {
                            Some(requirement) => {
                                let ghost before = out@;
                                out.push(DependencyRequirement { dependency: value, range: *range, requirement });
                                assert(requirement_entries(out@) =~= requirement_entries(before).push(
                                    requirement_entry(out@.last()),
                                ));
                            },
                            None => {},
                        }
                    },
                    _ => {},
                }
                assert(requirement_entries(out@) =~= start + requirements_of_values(values@.take(i + 1)));
                i = i + 1;
            }
            assert(values@.take(n as int) =~= values@);
        },
        _ => {
            assert(start + Seq::<(Seq<char>, Range, RequirementView)>::empty() =~= start);
        },
    }
}

/// Appends the requirements of the arrays of a table.
fn push_requirements_of_table<'a>(value: Option<&'a Value>, out: &mut Vec<DependencyRequirement<'a>>)
    ensures
        requirement_entries(final(out)@) == requirement_entries(old(out)@) + requirements_of_table(
            match value {
                Some(v) => Some(*v),
                None => None,
            },
        ),
{
    let ghost start = requirement_entries(out@);
    match value {
        Some(Value::Table { entries, .. }) => {
            let n = entries.len();
            let mut i: usize = 0;
            assert(start + requirements_of_groups(entries@.take(0)) =~= start);
            while i < n
                invariant
                    n == entries@.len(),
                    0 <= i <= n,
                    requirement_entries(out@) == start + requirements_of_groups(entries@.take(i as int)),
                decreases n - i,
            {
                assert(entries@.take(i + 1).drop_last() =~= entries@.take(i as int));
                assert(entries@.take(i + 1).last() == entries@[i as int]);
                push_requirements_of_array(Some(&entries[i].1), out);
                assert(requirement_entries(out@) =~= start + requirements_of_groups(entries@.take(i + 1)));
                i = i + 1;
            }
            assert(entries@.take(n as int) =~= entries@);
        },
        _ => {
            assert(start + Seq::<(Seq<char>, Range, RequirementView)>::empty() =~= start);
        },
    }
}

/// The value at a path of keys.
fn value_at<'a>(document: &'a Value, keys: &[&str]) -> (r: Option<&'a Value>)
    ensures
        match dig_value(*document, keys@.map_values(|s: &str| s@)) {
            Some(v) => r matches Some(x) && *x == v,
            None => r is None,
        },
{
    assert(crate::document::key_views(keys@) =~= keys@.map_values(|s: &str| s@));
    match crate::document::dig_keys(document, keys) {
        Some((_, v)) => Some(v),
        None => None,
    }
}

/// The standard dependency requirements of a manifest, in order.
pub fn collect_dependency_requirements_from_document_tree<'a>(document_tree: &'a Value) -> (r: Vec<DependencyRequirement<'a>>)
    ensures
        requirement_entries(r@) == standard_requirements(*document_tree),
{
    let mut out: Vec<DependencyRequirement<'a>> = Vec::new();
    let a = ["project", "dependencies"];
    let b = ["project", "optional-dependencies"];
    assert(a@.map_values(|s: &str| s@) =~= seq!["project"@, "dependencies"@]);
    assert(b@.map_values(|s: &str| s@) =~= seq!["project"@, "optional-dependencies"@]);
    assert(requirement_entries(out@) =~= Seq::<(Seq<char>, Range, RequirementView)>::empty());
    push_requirements_of_array(value_at(document_tree, &a), &mut out);
    push_requirements_of_table(value_at(document_tree, &b), &mut out);
    push_requirements_of_table(document_tree.get("dependency-groups"), &mut out);
    assert(requirement_entries(out@) =~= standard_requirements(*document_tree));
    out
}

/// All dependency requirements of a manifest: the standard ones, then those of the
/// dependency lists of `[tool.uv]`.
pub fn collect_all_dependency_requirements_from_document_tree<'a>(document_tree: &'a Value) -> (r: Vec<DependencyRequirement<'a>>)
    ensures
        requirement_entries(r@) == standard_requirements(*document_tree) + uv_requirements(
            *document_tree,
            uv_dependency_keys(),
        ),
{
    let mut out = collect_dependency_requirements_from_document_tree(document_tree);
    let ghost standard = requirement_entries(out@);
    let keys = uv_dependency_key_list();
    let ghost ks = uv_dependency_keys();
    let n = keys.len();
    let mut i: usize = 0;
    assert(standard + uv_requirements(*document_tree, ks.take(0)) =~= standard);
    while i < n
        invariant
            n == keys@.len(),
            keys@.map_values(|s: &str| s@) == ks,
            0 <= i <= n,
            requirement_entries(out@) == standard + uv_requirements(*document_tree, ks.take(i as int)),
        decreases n - i,
    {
        assert(ks.take(i + 1).drop_last() =~= ks.take(i as int));
        assert(ks.take(i + 1).last() == keys@[i as int]@);
        let path = ["tool", "uv", keys[i]];
        assert(path@.map_values(|s: &str| s@) =~= seq!["tool"@, "uv"@, keys@[i as int]@]);
        push_requirements_of_array(value_at(document_tree, &path), &mut out);
        assert(requirement_entries(out@) =~= standard + uv_requirements(*document_tree, ks.take(i + 1)));
        i = i + 1;
    }
    assert(ks.take(n as int) =~= ks);
    out
}

/// The key of the dependency group `group_name`.
pub fn find_dependency_group_key<'a>(document_tree: &'a Value, group_name: &str) -> (r: Option<&'a Key>)
    ensures
        match table_get(*document_tree, "dependency-groups"@) {
            Some(groups) => match groups {
                Value::Table { .. } => match crate::document::table_entry(groups, group_name@) {
                    Some(entry) => r matches Some(k) && *k == entry.0,
                    None => r is None,
                },
                _ => r is None,
            },
            None => r is None,
        },
{
    let groups = match document_tree.get("dependency-groups") {
        Some(g) => g,
        None => return None,
    };
    match groups {
        Value::Table { .. } => match groups.get_key_value(group_name) {
            Some((k, _)) => Some(k),
            None => None,
        },
        _ => None,
    }
}

/// The `include-group` strings naming `group_name` among the items of an array.
pub open spec fn include_groups_in(values: Seq<Value>, group_name: Seq<char>) -> Seq<(Seq<char>, Range)>
    decreases values.len(),
{
    if values.len() == 0 {
        Seq::empty()
    } else {
        let rest = include_groups_in(values.drop_last(), group_name);
        match values.last() {
            Value::Table { .. } => match table_get(values.last(), "include-group"@) {
                Some(Value::String { value, range }) => if value@ == group_name {
                    rest.push((value@, range))
                } else {
                    rest
                },
                _ => rest,
            },
            _ => rest,
        }
    }
}

/// The `include-group` strings naming `group_name`, group after group.
pub open spec fn include_groups_of(entries: Seq<(Key, Value)>, group_name: Seq<char>) -> Seq<(Seq<char>, Range)>
    decreases entries.len(),
{
    if entries.len() == 0 {
        Seq::empty()
    } else {
        let rest = include_groups_of(entries.drop_last(), group_name);
        match entries.last().1 {
            Value::Array { values, .. } => rest + include_groups_in(values@, group_name),
            _ => rest,
        }
    }
}

/// The `include-group` strings of the dependency groups that name `group_name`, with
/// their spans, in order.
pub fn collect_include_group_values<'a>(document_tree: &'a Value, group_name: &str) -> (r: Vec<(&'a String, Range)>)
    ensures
        r@.map_values(|x: (&'a String, Range)| (x.0@, x.1)) == match table_get(*document_tree, "dependency-groups"@) {
            Some(Value::Table { entries, .. }) => include_groups_of(entries@, group_name@),
            _ => Seq::empty(),
        },
{
    let mut out: Vec<(&'a String, Range)> = Vec::new();
    let entries = match document_tree.get("dependency-groups") {
        Some(Value::Table { entries, .. }) => entries,
        _ => {
            assert(out@.map_values(|x: (&'a String, Range)| (x.0@, x.1)) =~= Seq::<(Seq<char>, Range)>::empty());
            return out;
        },
    };
    let n = entries.len();
    let mut i: usize = 0;
    assert(out@.map_values(|x: (&'a String, Range)| (x.0@, x.1)) =~= include_groups_of(entries@.take(0), group_name@));
    while i < n
        invariant
            n == entries@.len(),
            0 <= i <= n,
            out@.map_values(|x: (&'a String, Range)| (x.0@, x.1)) == include_groups_of(entries@.take(i as int), group_name@),
        decreases n - i,
    {
        assert(entries@.take(i + 1).drop_last() =~= entries@.take(i as int));
        assert(entries@.take(i + 1).last() == entries@[i as int]);
        let ghost start = out@.map_values(|x: (&'a String, Range)| (x.0@, x.1));
        match &entries[i].1 {
            Value::Array { values, .. } => {
                let m = values.len();
                let mut j: usize = 0;
                assert(start + include_groups_in(values@.take(0), group_name@) =~= start);
                while j < m
                    invariant
                        m == values@.len(),
                        0 <= j <= m,
                        out@.map_values(|x: (&'a String, Range)| (x.0@, x.1)) == start + include_groups_in(
                            values@.take(j as int),
                            group_name@,
                        ),
                    decreases m - j,
                {
                    assert(values@.take(j + 1).drop_last() =~= values@.take(j as int));
                    assert(values@.take(j + 1).last() == values@[j as int]);
                    let item = &values[j];
                    match item {
                        Value::Table { .. } => match item.get("include-group") {
                            Some(Value::String { value, range }) => {
                                if str_eq(value.as_str(), group_name) {
                                    let ghost before = out@;
                                    out.push((value, *range));
                                    assert(out@.map_values(|x: (&'a String, Range)| (x.0@, x.1)) =~= before.map_values(
                                        |x: (&'a String, Range)| (x.0@, x.1),
                                    ).push((value@, *range)));
                                }
                            },
                            _ => {},
                        },
                        _ => {},
                    }
                    assert(out@.map_values(|x: (&'a String, Range)| (x.0@, x.1)) =~= start + include_groups_in(
                        values@.take(j + 1),
                        group_name@,
                    ));
                    j = j + 1;
                }
                assert(values@.take(m as int) =~= values@);
            },
            _ => {},
        }
        assert(out@.map_values(|x: (&'a String, Range)| (x.0@, x.1)) =~= include_groups_of(entries@.take(i + 1), group_name@));
        i = i + 1;
    }
    assert(entries@.take(n as int) =~= entries@);
    out
}

} // verus!
