//! What opening a `pyproject.toml` warms up: the PyPI metadata of the registry
//! dependencies that no uv source overrides.

use vstd::prelude::*;
use vstd::string::StringExecFns;

use crate::document::{dig_value, table_entry, Range, Value};
use crate::order::{insert_sorted, strictly_sorted, texts};
use crate::pep508::{RequirementVersionView, RequirementView};
use crate::py_accessor::uv_dependency_keys;
use crate::py_dependency::{
    collect_all_dependency_requirements_from_document_tree, requirement_entries, standard_requirements,
    uv_requirements,
};

verus! {

/// The `[tool.uv.sources]` table of a manifest, where it is a table.
pub open spec fn sources_of(document: Value) -> Option<Value> {
    match dig_value(document, seq!["tool"@, "uv"@, "sources"@]) {
        Some(v) => if v is Table {
            Some(v)
        } else {
            None
        },
        None => None,
    }
}

/// The `[tool.uv.sources]` table of a manifest.
pub fn pyproject_sources(document_tree: &Value) -> (r: Option<&Value>)
    ensures
        match sources_of(*document_tree) {
            Some(v) => r matches Some(x) && *x == v,
            None => r is None,
        },
{
    let keys = ["tool", "uv", "sources"];
    assert(crate::document::key_views(keys@) =~= seq!["tool"@, "uv"@, "sources"@]);
    match crate::document::dig_keys(document_tree, &keys) {
        Some((_, v)) => match v {
            Value::Table { .. } => Some(v),
            _ => None,
        },
        None => None,
    }
}

/// Whether a sources table overrides `package_name`.
pub open spec fn overrides(sources: Option<Value>, package_name: Seq<char>) -> bool {
    match sources {
        Some(s) => table_entry(s, package_name) is Some,
        None => false,
    }
}

/// Whether a sources table overrides `package_name`.
pub fn has_source_override(sources: Option<&Value>, package_name: &str) -> (r: bool)
    ensures
        r == overrides(
            match sources {
                Some(s) => Some(*s),
                None => None,
            },
            package_name@,
        ),
{
    match sources {
        Some(s) => s.contains_key(package_name),
        None => false,
    }
}

/// The sources of the workspace that apply to a member: none where the manifest is itself
/// the workspace root (it has `[tool.uv.workspace]`).
pub open spec fn workspace_sources_for(document: Value, workspace_document: Option<Value>) -> Option<Value> {
    if dig_value(document, seq!["tool"@, "uv"@, "workspace"@]) is Some {
        None
    } else {
        match workspace_document {
            Some(w) => sources_of(w),
            None => None,
        }
    }
}

/// Whether a requirement is fetched from PyPI: it names no URL and no source overrides it.
pub open spec fn fetched_from_pypi(req: RequirementView, sources: Option<Value>, workspace_sources: Option<Value>) -> bool {
    !(req.version_or_url matches Some(RequirementVersionView::Url)) && !overrides(sources, req.name) && !overrides(
        workspace_sources,
        req.name,
    )
}

/// The names of the requirements fetched from PyPI.
pub open spec fn pypi_names(
    entries: Seq<(Seq<char>, Range, RequirementView)>,
    sources: Option<Value>,
    workspace_sources: Option<Value>,
) -> Set<Seq<char>>
    decreases entries.len(),
{
    if entries.len() == 0 {
        Set::empty()
    } else {
        let rest = pypi_names(entries.drop_last(), sources, workspace_sources);
        if fetched_from_pypi(entries.last().2, sources, workspace_sources) {
            rest.insert(entries.last().2.name)
        } else {
            rest
        }
    }
}

/// The PyPI metadata URL of a package.
pub open spec fn pypi_url(name: Seq<char>) -> Seq<char> {
    "https://pypi.org/pypi/"@ + name + "/json"@
}

/// The PyPI metadata URLs to warm for a manifest, in the order of the package names;
/// `workspace_document_tree` is the workspace manifest, where the manifest is a member of
/// another one.
pub fn collect_pypi_prefetch_urls(document_tree: &Value, workspace_document_tree: Option<&Value>) -> (r: Vec<String>)
    ensures
        exists|names: Seq<Seq<char>>|
            #![trigger strictly_sorted(names)]
            strictly_sorted(names) && names.to_set() == pypi_names(
                standard_requirements(*document_tree) + uv_requirements(*document_tree, uv_dependency_keys()),
                sources_of(*document_tree),
                workspace_sources_for(
                    *document_tree,
                    match workspace_document_tree {
                        Some(w) => Some(*w),
                        None => None,
                    },
                ),
            ) && texts(r@) == names.map_values(|n: Seq<char>| pypi_url(n)),
{
    let ghost wd = match workspace_document_tree {
        Some(w) => Some(*w),
        None => None,
    };
    let sources = pyproject_sources(document_tree);
    let ws_keys = ["tool", "uv", "workspace"];
    assert(crate::document::key_views(ws_keys@) =~= seq!["tool"@, "uv"@, "workspace"@]);
    let workspace_sources = if crate::document::dig_keys(document_tree, &ws_keys).is_some() {
        None
    } else {
        match workspace_document_tree {
            Some(w) => pyproject_sources(w),
            None => None,
        }
    };
    let ghost src = sources_of(*document_tree);
    let ghost wsrc = workspace_sources_for(*document_tree, wd);
    assert(match workspace_sources {
        Some(x) => wsrc == Some(*x),
        None => wsrc is None,
    });
    let requirements = collect_all_dependency_requirements_from_document_tree(document_tree);
    let ghost es = requirement_entries(requirements@);
    let mut names: Vec<String> = Vec::new();
    let n = requirements.len();
    let mut i: usize = 0;
    assert(texts(names@).to_set() =~= pypi_names(es.take(0), src, wsrc));
    while i < n
        invariant
            n == es.len(),
            es == requirement_entries(requirements@),
            0 <= i <= n,
            match sources {
                Some(x) => src == Some(*x),
                None => src is None,
            },
            match workspace_sources {
                Some(x) => wsrc == Some(*x),
                None => wsrc is None,
            },
            strictly_sorted(texts(names@)),
            texts(names@).to_set() == pypi_names(es.take(i as int), src, wsrc),
        decreases n - i,
    {
        assert(es.take(i + 1).drop_last() =~= es.take(i as int));
        assert(es.take(i + 1).last() == es[i as int]);
        let req = &requirements[i].requirement;
        let is_url = crate::pep508::is_url_requirement(req);
        if !is_url && !has_source_override(sources, req.name.as_str()) && !has_source_override(
            workspace_sources,
            req.name.as_str(),
        ) {
            insert_sorted(&mut names, req.name.clone());
        }
        assert(texts(names@).to_set() =~= pypi_names(es.take(i + 1), src, wsrc));
        i = i + 1;
    }
    assert(es.take(n as int) =~= es);
    let ghost sorted_names = texts(names@);
    let mut urls: Vec<String> = Vec::new();
    let m = names.len();
    let mut j: usize = 0;
    while j < m
        invariant
            m == names@.len(),
            sorted_names == texts(names@),
            0 <= j <= m,
            texts(urls@) == sorted_names.take(j as int).map_values(|n: Seq<char>| pypi_url(n)),
        decreases m - j,
    {
        let mut url = String::from_str("https://pypi.org/pypi/");
        url.append(names[j].as_str());
        url.append("/json");
        let ghost before = urls@;
        urls.push(url);
        assert(sorted_names.take(j + 1) =~= sorted_names.take(j as int).push(names@[j as int]@));
        assert(texts(urls@) =~= texts(before).push(pypi_url(names@[j as int]@)));
        assert(texts(urls@) =~= sorted_names.take(j + 1).map_values(|n: Seq<char>| pypi_url(n)));
        j = j + 1;
    }
    assert(sorted_names.take(m as int) =~= sorted_names);
    assert(strictly_sorted(sorted_names));
    urls
}

} // verus!
