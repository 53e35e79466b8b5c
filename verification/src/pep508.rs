//! PEP 508 dependency strings as the `pyproject.toml` features read them: the parse is the
//! pep508 crate's; what is done with its parts is this library's.

use vstd::prelude::*;
use vstd::string::StringExecFns;

use crate::text::{ends_with, first_word, first_word_of, holds, holds_text, joined, str_eq};
use crate::uv_lock::{normalize_version, normalized_version};

verus! {

/// What a requirement asks for besides its name: version specifiers, each as printed (such
/// as `>=2.0` or `==2.*`), or a URL (whose text nothing here reads).
#[derive(Debug, Clone)]
pub enum RequirementVersion {
    Specifiers(Vec<String>),
    Url,
}

/// A parsed PEP 508 requirement: its normalized name, its extras and its version
/// specifiers or URL (the environment markers are not kept).
#[derive(Debug, Clone)]
pub struct Pep508Requirement {
    pub name: String,
    pub extras: Vec<String>,
    pub version_or_url: Option<RequirementVersion>,
}

/// The version part of a requirement as plain text.
pub enum RequirementVersionView {
    Specifiers(Seq<Seq<char>>),
    Url,
}

/// A requirement as plain text.
pub struct RequirementView {
    pub name: Seq<char>,
    pub extras: Seq<Seq<char>>,
    pub version_or_url: Option<RequirementVersionView>,
}

impl Pep508Requirement {
    pub open spec fn view_requirement(self) -> RequirementView {
        RequirementView {
            name: self.name@,
            extras: self.extras@.map_values(|e: String| e@),
            version_or_url: match self.version_or_url {
                Some(RequirementVersion::Specifiers(s)) => Some(
                    RequirementVersionView::Specifiers(s@.map_values(|x: String| x@)),
                ),
                Some(RequirementVersion::Url) => Some(RequirementVersionView::Url),
                None => None,
            },
        }
    }
}

/// What `pep508_rs::Requirement::<url::Url>::from_str` reads from a dependency string, its
/// parts as they print (of a URL, only that there is one); nothing where the string is no
/// requirement.
pub uninterp spec fn pep508_requirement(text: Seq<char>) -> Option<RequirementView>;

/// The view of an optional requirement.
pub open spec fn requirement_view(r: Option<Pep508Requirement>) -> Option<RequirementView> {
    match r {
        Some(x) => Some(x.view_requirement()),
        None => None,
    }
}

/// Calls `pep508_rs::Requirement::<url::Url>::from_str` and prints the parts that the
/// features read: the name, each extra, each version specifier, or that there is a URL.
/// The contract names the result by `pep508_requirement`; the PEP 508 grammar and the
/// normal forms are the crate's and are not stated here. With `url::Url` as the URL type
/// a URL is read by `url::Url::parse` as written, so the result depends on the text alone.
/// Strings whose first word holds `${PROJECT_ROOT}` are left out: on some of them the crate
/// looks up the current directory to word its error, and panics where it cannot.
#[verifier::external_body]
fn parse_pep508(text: &str) -> (r: Option<Pep508Requirement>)
    requires
        !names_project_root(text@),
    ensures
        requirement_view(r) == pep508_requirement(text@),
{
    let req = <pep508_rs::Requirement<url::Url> as core::str::FromStr>::from_str(text).ok()?;
    let version_or_url = match &req.version_or_url {
        Some(pep508_rs::VersionOrUrl::VersionSpecifier(s)) => Some(RequirementVersion::Specifiers(s.iter().map(|x| x.to_string()).collect())),
        Some(pep508_rs::VersionOrUrl::Url(_)) => Some(RequirementVersion::Url),
        None => None,
    };
    Some(Pep508Requirement { name: req.name.to_string(), extras: req.extras.iter().map(|e| e.to_string()).collect(), version_or_url })
}

/// Whether the first word of a dependency string holds `${PROJECT_ROOT}`: where such a
/// string is no requirement, the pep508 crate may read the current directory to word its
/// error.
pub open spec fn names_project_root(text: Seq<char>) -> bool {
    holds_text(first_word(text), "${PROJECT_ROOT}"@)
}

/// What a dependency string reads as: nothing where its first word holds
/// `${PROJECT_ROOT}` (see `names_project_root`), else what the pep508 crate reads.
pub open spec fn parsed_requirement(text: Seq<char>) -> Option<RequirementView> {
    if names_project_root(text) {
        None
    } else {
        pep508_requirement(text)
    }
}

/// Reads a PEP 508 dependency string; see `parsed_requirement`.
pub fn parse_requirement(dependency: &str) -> (r: Option<Pep508Requirement>)
    ensures
        requirement_view(r) == parsed_requirement(dependency@),
{
    let word = first_word_of(dependency);
    if holds(word.as_str(), "${PROJECT_ROOT}") {
        return None;
    }
    parse_pep508(dependency)
}

/// The dependency written without its version: the name, with its extras in brackets.
pub open spec fn without_version_text(req: RequirementView) -> Seq<char> {
    if req.extras.len() == 0 {
        req.name
    } else {
        req.name + "["@ + joined(req.extras, ","@) + "]"@
    }
}

/// The dependency written without its version.
pub fn format_dependency_without_version(requirement: &Pep508Requirement) -> (r: String)
    ensures
        r@ == without_version_text(requirement.view_requirement()),
{
    let mut r = String::from_str(requirement.name.as_str());
    let n = requirement.extras.len();
    if n == 0 {
        return r;
    }
    let ghost extras = requirement.extras@.map_values(|e: String| e@);
    r.append("[");
    let mut inner = String::new();
    let mut i: usize = 0;
    assert(extras.take(0) =~= Seq::<Seq<char>>::empty());
    while i < n
        invariant
            n == requirement.extras@.len(),
            extras == requirement.extras@.map_values(|e: String| e@),
            0 <= i <= n,
            inner@ == joined(extras.take(i as int), ","@),
        decreases n - i,
    {
        assert(extras.take(i + 1).drop_last() =~= extras.take(i as int));
        assert(extras.take(i + 1).last() == requirement.extras@[i as int]@);
        if i > 0 {
            inner.append(",");
        } else {
            assert(inner@ =~= Seq::<char>::empty());
        }
        inner.append(requirement.extras[i].as_str());
        i = i + 1;
    }
    assert(extras.take(n as int) =~= extras);
    r.append(inner.as_str());
    r.append("]");
    r
}

/// The version that a printed specifier pins exactly: `==V` (not `==V.*`) or `===V`.
pub open spec fn pinned_by(specifier: Seq<char>) -> Option<Seq<char>> {
    if specifier.len() >= 3 && specifier.take(3) == "==="@ {
        Some(specifier.skip(3))
    } else if specifier.len() >= 2 && specifier.take(2) == "=="@ && !(specifier.len() >= 2 && specifier.skip(
        specifier.len() - 2,
    ) == ".*"@) {
        Some(specifier.skip(2))
    } else {
        None
    }
}

/// The version a requirement pins exactly: it has one specifier, and that one is `==V` or
/// `===V`.
pub open spec fn exact_pinned_of(req: RequirementView) -> Option<Seq<char>> {
    match req.version_or_url {
        Some(RequirementVersionView::Specifiers(s)) => if s.len() == 1 {
            pinned_by(s[0])
        } else {
            None
        },
        _ => None,
    }
}

/// Whether `s` starts with `prefix`.
fn starts_with(s: &str, prefix: &str) -> (r: bool)
    ensures
        r == (s@.len() >= prefix@.len() && s@.take(prefix@.len() as int) == prefix@),
{
    let n = s.unicode_len();
    let m = prefix.unicode_len();
    if n < m {
        return false;
    }
    let head = s.substring_char(0, m);
    assert(head@ =~= s@.take(m as int));
    str_eq(head, prefix)
}

/// The version a requirement pins exactly.
pub fn exact_pinned_version(requirement: &Pep508Requirement) -> (r: Option<String>)
    ensures
        crate::cargo_lock::opt_text(r) == exact_pinned_of(requirement.view_requirement()),
{
    let specifiers = match &requirement.version_or_url {
        Some(RequirementVersion::Specifiers(s)) => s,
        _ => return None,
    };
    if specifiers.len() != 1 {
        return None;
    }
    let s = specifiers[0].as_str();
    let n = s.unicode_len();
    assert("==="@.len() == 3) by {
        reveal_strlit("===");
    }
    assert("=="@.len() == 2) by {
        reveal_strlit("==");
    }
    assert(".*"@.len() == 2) by {
        reveal_strlit(".*");
    }
    if starts_with(s, "===") {
        let v = s.substring_char(3, n);
        assert(v@ =~= s@.skip(3));
        Some(String::from_str(v))
    } else if starts_with(s, "==") && !ends_with(s, ".*") {
        let v = s.substring_char(2, n);
        assert(v@ =~= s@.skip(2));
        Some(String::from_str(v))
    } else {
        None
    }
}

/// The requirement that pins a dependency to `latest_version`: `==` and the version in
/// normal form (as typed where it is no version).
pub fn format_exact_pinned_dependency(latest_version: &str) -> (r: String)
    ensures
        r@ == "=="@ + normalized_version(latest_version@),
{
    let mut r = String::from_str("==");
    let v = normalize_version(latest_version);
    r.append(v.as_str());
    r
}

/// Whether a requirement points at a URL.
pub fn is_url_requirement(requirement: &Pep508Requirement) -> (r: bool)
    ensures
        r == (requirement.view_requirement().version_or_url matches Some(RequirementVersionView::Url)),
{
    match &requirement.version_or_url {
        Some(RequirementVersion::Url) => true,
        _ => false,
    }
}

} // verus!
