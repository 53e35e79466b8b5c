//! The release logic of the Zed extension: which tombi release versions are read from a
//! tag or a directory name, and which artifact of a release fits a platform.

use vstd::prelude::*;
use vstd::string::StringExecFns;

use crate::text::{first_index, lemma_first_index, str_eq};

verus! {

/// A release version: major, minor, patch.
pub type ReleaseVersion = (u64, u64, u64);

/// The operating systems that Zed runs on.
#[derive(Debug, Clone, Copy, PartialEq, Eq, Structural)]
pub enum Os {
    Mac,
    Linux,
    Windows,
}

/// The processor architectures that Zed runs on.
#[derive(Debug, Clone, Copy, PartialEq, Eq, Structural)]
pub enum Architecture {
    Aarch64,
    X86,
    X8664,
}

/// How a downloaded release artifact is packed.
#[derive(Debug, Clone, Copy, PartialEq, Eq, Structural)]
pub enum DownloadedFileType {
    Zip,
    Gzip,
    GzipTar,
}

/// The extension's state: the binary that it resolved last in this process.
#[derive(Debug, Clone)]
pub struct TombiExtension {
    pub cached_binary_path: Option<String>,
}

/// The value of a string of decimal digits.
pub open spec fn digits_value(s: Seq<char>) -> nat
    decreases s.len(),
{
    if s.len() == 0 {
        0
    } else {
        digits_value(s.drop_last()) * 10 + ((s.last() as nat) - ('0' as nat)) as nat
    }
}

/// Whether every character of `s` is a decimal digit.
pub open spec fn all_digits(s: Seq<char>) -> bool {
    forall|i: int| 0 <= i < s.len() ==> '0' <= #[trigger] s[i] <= '9'
}

/// What `u64::from_str` reads from a string without a sign: a non-empty run of digits
/// whose value fits in a `u64`.
pub open spec fn parse_u64(s: Seq<char>) -> Option<u64> {
    if s.len() > 0 && all_digits(s) && digits_value(s) <= u64::MAX {
        Some(digits_value(s) as u64)
    } else {
        None
    }
}

/// The first position of `-` or `+` in `s`, or its length.
pub open spec fn suffix_start(s: Seq<char>) -> int
    decreases s.len(),
{
    if s.len() == 0 {
        0
    } else if s[0] == '-' || s[0] == '+' {
        0
    } else {
        1 + suffix_start(s.drop_first())
    }
}

/// The release version that a version text names: the part before any `-` or `+` must
/// be three dot-separated numbers.
pub open spec fn release_version_of(version: Seq<char>) -> Option<ReleaseVersion> {
    let c = version.take(suffix_start(version));
    let i1 = first_index(c, '.');
    let r1 = c.skip(i1 + 1);
    let i2 = first_index(r1, '.');
    let r2 = r1.skip(i2 + 1);
    if i1 < 0 || i2 < 0 || first_index(r2, '.') >= 0 {
        None
    } else {
        match (parse_u64(c.take(i1)), parse_u64(r1.take(i2)), parse_u64(r2)) {
            (Some(major), Some(minor), Some(patch)) => Some((major, minor, patch)),
            _ => None,
        }
    }
}

/// Whether version `a` comes before version `b`.
pub open spec fn version_lt(a: ReleaseVersion, b: ReleaseVersion) -> bool {
    a.0 < b.0 || (a.0 == b.0 && (a.1 < b.1 || (a.1 == b.1 && a.2 < b.2)))
}

proof fn lemma_digits_value_grows(s: Seq<char>, i: int)
    requires
        0 <= i <= s.len(),
        all_digits(s),
    ensures
        digits_value(s.take(i)) <= digits_value(s),
    decreases s.len() - i,
{
    if i < s.len() {
        assert(s.take(s.len() as int) =~= s);
        lemma_digits_value_grows(s, i + 1);
        assert(s.take(i + 1).drop_last() =~= s.take(i));
        assert('0' <= s[i] <= '9');
    } else {
        assert(s.take(i) =~= s);
    }
}

proof fn lemma_suffix_start(s: Seq<char>)
    ensures
        0 <= suffix_start(s) <= s.len(),
        forall|j: int| 0 <= j < suffix_start(s) ==> #[trigger] s[j] != '-' && s[j] != '+',
        suffix_start(s) < s.len() ==> s[suffix_start(s)] == '-' || s[suffix_start(s)] == '+',
    decreases s.len(),
{
    if s.len() > 0 && s[0] != '-' && s[0] != '+' {
        lemma_suffix_start(s.drop_first());
        assert forall|j: int| 0 <= j < suffix_start(s) implies #[trigger] s[j] != '-' && s[j] != '+' by {
            if j > 0 {
                assert(s[j] == s.drop_first()[j - 1]);
            }
        }
        if suffix_start(s) < s.len() {
            assert(s[suffix_start(s)] == s.drop_first()[suffix_start(s.drop_first())]);
        }
    }
}

/// Reads `s[from..to]` as a `u64` the way `u64::from_str` reads a string without a sign.
fn parse_u64_range(s: &str, from: usize, to: usize) -> (r: Option<u64>)
    requires
        from <= to <= s@.len(),
    ensures
        r == parse_u64(s@.subrange(from as int, to as int)),
{
    let ghost t = s@.subrange(from as int, to as int);
    if from == to {
        return None;
    }
    let mut value: u64 = 0;
    let mut i: usize = from;
    while i < to
        invariant
            from <= i <= to <= s@.len(),
            t == s@.subrange(from as int, to as int),
            all_digits(t.take(i - from)),
            value == digits_value(t.take(i - from)),
        decreases to - i,
    {
        let c = s.get_char(i);
        assert(t[i - from] == c);
        assert(t.take(i - from + 1).drop_last() =~= t.take(i - from));
        if !('0' <= c && c <= '9') {
            return None;
        }
        let d = (c as u32 - '0' as u32) as u64;
        assert(d == (c as nat) - ('0' as nat));
        if value > (u64::MAX - d) / 10 {
            proof {
                assert(value * 10 + d > u64::MAX) by (nonlinear_arith)
                    requires
                        value > (u64::MAX - d) / 10,
                        d <= 9,
                ;
                let k = i - from + 1;
                assert(digits_value(t.take(k)) == value * 10 + d);
                if all_digits(t) {
                    lemma_digits_value_grows(t, k);
                }
            }
            return None;
        }
        proof {
            assert(value * 10 + d <= u64::MAX) by (nonlinear_arith)
                requires
                    value <= (u64::MAX - d) / 10,
                    d <= 9,
            ;
        }
        value = value * 10 + d;
        i = i + 1;
    }
    assert(t.take(to - from) =~= t);
    Some(value)
}

/// The first position of `c` in `s[from..to]`, counted from `from`.
fn find_char_in(s: &str, c: char, from: usize, to: usize) -> (r: Option<usize>)
    requires
        from <= to <= s@.len(),
    ensures
        match r {
            Some(i) => i == first_index(s@.subrange(from as int, to as int), c) && i < to - from,
            None => first_index(s@.subrange(from as int, to as int), c) < 0,
        },
{
    let ghost t = s@.subrange(from as int, to as int);
    proof { lemma_first_index(t, c); }
    let mut i: usize = from;
    while i < to
        invariant
            from <= i <= to <= s@.len(),
            t == s@.subrange(from as int, to as int),
            forall|j: int| 0 <= j < i - from ==> t[j] != c,
            -1 <= first_index(t, c) < t.len(),
            first_index(t, c) >= 0 ==> t[first_index(t, c)] == c,
            forall|j: int| 0 <= j < t.len() && (first_index(t, c) < 0 || j < first_index(t, c)) ==> t[j] != c,
        decreases to - i,
    {
        if s.get_char(i) == c {
            assert(t[i - from] == c);
            return Some(i - from);
        }
        assert(t[i - from] != c);
        i = i + 1;
    }
    None
}

impl TombiExtension {
    /// Reads the release version of a version text such as "0.9.23" or "1.0.0-beta+build":
    /// three dot-separated numbers before any `-` or `+`.
    pub fn parse_release_version(version: &str) -> (r: Option<ReleaseVersion>)
        ensures
            r == release_version_of(version@),
    {
        let ghost v = version@;
        let n = version.unicode_len();
        let mut cut: usize = 0;
        while cut < n && version.get_char(cut) != '-' && version.get_char(cut) != '+'
            invariant
                v == version@,
                n == v.len(),
                0 <= cut <= n,
                forall|j: int| 0 <= j < cut ==> #[trigger] v[j] != '-' && v[j] != '+',
            decreases n - cut,
        {
            cut = cut + 1;
        }
        proof {
            lemma_suffix_start(v);
            if cut < suffix_start(v) {
                assert(v[cut as int] != '-' && v[cut as int] != '+');
            }
            if suffix_start(v) < cut {
                assert(v[suffix_start(v)] != '-' && v[suffix_start(v)] != '+');
            }
        }
        let ghost c = v.take(cut as int);
        assert(c =~= v.subrange(0, cut as int));
        let d1 = match find_char_in(version, '.', 0, cut) {
            Some(d) => d,
            None => return None,
        };
        let ghost r1 = c.skip(d1 + 1);
        assert(r1 =~= v.subrange(d1 + 1, cut as int));
        let d2 = match find_char_in(version, '.', d1 + 1, cut) {
            Some(d) => d1 + 1 + d,
            None => return None,
        };
        let ghost r2 = r1.skip(d2 - d1);
        assert(r2 =~= v.subrange(d2 + 1, cut as int));
        if find_char_in(version, '.', d2 + 1, cut).is_some() {
            return None;
        }
        assert(c.take(d1 as int) =~= v.subrange(0, d1 as int));
        assert(r1.take(d2 - d1 - 1) =~= v.subrange(d1 + 1, d2 as int));
        let major = match parse_u64_range(version, 0, d1) {
            Some(x) => x,
            None => return None,
        };
        let minor = match parse_u64_range(version, d1 + 1, d2) {
            Some(x) => x,
            None => return None,
        };
        let patch = match parse_u64_range(version, d2 + 1, cut) {
            Some(x) => x,
            None => return None,
        };
        Some((major, minor, patch))
    }

    /// Whether a release ships a bare gzip binary in place of a tarball on Unix: releases
    /// before 0.9.23.
    pub fn uses_legacy_unix_artifact(version: &str) -> (r: bool)
        ensures
            r == (release_version_of(version@) matches Some(v) && version_lt(v, (0, 9, 23))),
    {
        match TombiExtension::parse_release_version(version) {
            Some(v) => v.0 == 0 && (v.1 < 9 || (v.1 == 9 && v.2 < 23)),
            None => false,
        }
    }
}

} // verus!

verus! {

/// The name of the tombi binary on an operating system.
pub open spec fn binary_name_on(os: Os) -> Seq<char> {
    match os {
        Os::Windows => "tombi.exe"@,
        _ => "tombi"@,
    }
}

/// The name of the architecture in release artifact names.
pub open spec fn arch_text(arch: Architecture) -> Seq<char> {
    match arch {
        Architecture::Aarch64 => "aarch64"@,
        Architecture::X86 => "x86"@,
        Architecture::X8664 => "x86_64"@,
    }
}

/// The name of the operating system in release artifact names.
pub open spec fn os_text(os: Os) -> Seq<char> {
    match os {
        Os::Mac => "apple-darwin"@,
        Os::Linux => "unknown-linux-musl"@,
        Os::Windows => "pc-windows-msvc"@,
    }
}

/// How the artifact of a release for an operating system is packed: a zip on Windows, a
/// bare gzip binary for releases before 0.9.23, else a gzip tarball.
pub open spec fn file_type_for(os: Os, version: Seq<char>) -> DownloadedFileType {
    match os {
        Os::Windows => DownloadedFileType::Zip,
        _ => if release_version_of(version) matches Some(v) && version_lt(v, (0, 9, 23)) {
            DownloadedFileType::Gzip
        } else {
            DownloadedFileType::GzipTar
        },
    }
}

/// The file name suffix of a packing.
pub open spec fn suffix_text(kind: DownloadedFileType) -> Seq<char> {
    match kind {
        DownloadedFileType::Zip => "zip"@,
        DownloadedFileType::Gzip => "gz"@,
        DownloadedFileType::GzipTar => "tar.gz"@,
    }
}

/// The stem of the release artifact of a version for a platform.
pub open spec fn asset_stem_text(version: Seq<char>, arch: Architecture, os: Os) -> Seq<char> {
    "tombi-cli-"@ + version + "-"@ + arch_text(arch) + "-"@ + os_text(os)
}

impl TombiExtension {
    /// The name of the tombi binary on an operating system.
    pub fn binary_name(os: Os) -> (r: &'static str)
        ensures
            r@ == binary_name_on(os),
    {
        match os {
            Os::Windows => "tombi.exe",
            _ => "tombi",
        }
    }

    /// The version that a release tag names: the tag without a leading `v`.
    pub fn release_tag_version(tag: &str) -> (r: &str)
        ensures
            r@ == if tag@.len() > 0 && tag@[0] == 'v' {
                tag@.skip(1)
            } else {
                tag@
            },
    {
        let n = tag.unicode_len();
        if n > 0 && tag.get_char(0) == 'v' {
            let r = tag.substring_char(1, n);
            assert(r@ =~= tag@.skip(1));
            r
        } else {
            tag
        }
    }

    /// How the artifact of a release for an operating system is packed.
    pub fn downloaded_file_type(os: Os, version: &str) -> (r: DownloadedFileType)
        ensures
            r == file_type_for(os, version@),
    {
        match os {
            Os::Windows => DownloadedFileType::Zip,
            _ => if TombiExtension::uses_legacy_unix_artifact(version) {
                DownloadedFileType::Gzip
            } else {
                DownloadedFileType::GzipTar
            },
        }
    }

    /// The stem of the release artifact of a version for a platform, such as
    /// "tombi-cli-0.9.23-x86_64-unknown-linux-musl".
    pub fn asset_stem(version: &str, arch: Architecture, os: Os) -> (r: String)
        ensures
            r@ == asset_stem_text(version@, arch, os),
    {
        let mut stem = String::from_str("tombi-cli-");
        stem.append(version);
        stem.append("-");
        stem.append(match arch {
            Architecture::Aarch64 => "aarch64",
            Architecture::X86 => "x86",
            Architecture::X8664 => "x86_64",
        });
        stem.append("-");
        stem.append(match os {
            Os::Mac => "apple-darwin",
            Os::Linux => "unknown-linux-musl",
            Os::Windows => "pc-windows-msvc",
        });
        stem
    }

    /// The file name of the release artifact of a version for a platform.
    pub fn asset_name(version: &str, arch: Architecture, os: Os) -> (r: String)
        ensures
            r@ == asset_stem_text(version@, arch, os) + "."@ + suffix_text(file_type_for(os, version@)),
    {
        let mut name = TombiExtension::asset_stem(version, arch, os);
        name.append(".");
        name.append(match TombiExtension::downloaded_file_type(os, version) {
            DownloadedFileType::Zip => "zip",
            DownloadedFileType::Gzip => "gz",
            DownloadedFileType::GzipTar => "tar.gz",
        });
        name
    }

    /// The directory that holds the binary of a version.
    pub fn version_dir(version: &str) -> (r: String)
        ensures
            r@ == "tombi-"@ + version@,
    {
        let mut dir = String::from_str("tombi-");
        dir.append(version);
        dir
    }

    /// The release version of a directory that holds an installed binary: a name that
    /// starts with "tombi-" followed by a release version.
    pub fn installed_version(dir_name: &str) -> (r: Option<ReleaseVersion>)
        ensures
            r == if dir_name@.len() >= 6 && dir_name@.take(6) == "tombi-"@ {
                release_version_of(dir_name@.skip(6))
            } else {
                None
            },
    {
        let n = dir_name.unicode_len();
        if n < 6 {
            return None;
        }
        let head = dir_name.substring_char(0, 6);
        if !str_eq(head, "tombi-") {
            assert(head@ =~= dir_name@.take(6));
            return None;
        }
        assert(head@ =~= dir_name@.take(6));
        let rest = dir_name.substring_char(6, n);
        assert(rest@ =~= dir_name@.skip(6));
        TombiExtension::parse_release_version(rest)
    }

    /// The binary of the newest installed version among `(version, path)` candidates; of
    /// equal versions, the last one.
    pub fn newest_installed(candidates: &Vec<(ReleaseVersion, String)>) -> (r: Option<String>)
        ensures
            candidates@.len() == 0 ==> r is None,
            candidates@.len() > 0 ==> exists|i: int|
                0 <= i < candidates@.len() && r == Some(candidates@[i].1) && (forall|j: int|
                    0 <= j < candidates@.len() ==> !version_lt(candidates@[i].0, #[trigger] candidates@[j].0))
                    && (forall|j: int| i < j < candidates@.len() ==> version_lt(#[trigger] candidates@[j].0, candidates@[i].0)),
    {
        let n = candidates.len();
        if n == 0 {
            return None;
        }
        let mut best: usize = 0;
        let mut i: usize = 1;
        while i < n
            invariant
                n == candidates@.len(),
                1 <= i <= n,
                best < i,
                forall|j: int| 0 <= j < i ==> !version_lt(candidates@[best as int].0, #[trigger] candidates@[j].0),
                forall|j: int| best < j < i ==> version_lt(#[trigger] candidates@[j].0, candidates@[best as int].0),
            decreases n - i,
        {
            let v = candidates[i].0;
            let b = candidates[best].0;
            let lt = v.0 < b.0 || (v.0 == b.0 && (v.1 < b.1 || (v.1 == b.1 && v.2 < b.2)));
            if !lt {
                best = i;
            }
            i = i + 1;
        }
        let r = candidates[best].1.clone();
        Some(r)
    }
}

/// The texts of a list of strings.
pub open spec fn string_texts(v: Seq<String>) -> Seq<Seq<char>> {
    v.map_values(|s: String| s@)
}

/// The directory of a Python virtual environment that holds its scripts.
pub open spec fn venv_script_dir_on(os: Os) -> Seq<char> {
    match os {
        Os::Windows => "Scripts"@,
        _ => "bin"@,
    }
}

/// The names under `node_modules/.bin` that may launch tombi.
pub open spec fn node_modules_names(os: Os, binary_name: Seq<char>) -> Seq<Seq<char>> {
    match os {
        Os::Windows => seq!["tombi.cmd"@, "tombi.ps1"@, binary_name],
        _ => seq![binary_name],
    }
}

/// The names other than `name`, in order.
pub open spec fn names_other_than(names: Seq<Seq<char>>, name: Seq<char>) -> Seq<Seq<char>>
    decreases names.len(),
{
    if names.len() == 0 {
        Seq::empty()
    } else {
        let rest = names_other_than(names.drop_last(), name);
        if names.last() == name {
            rest
        } else {
            rest.push(names.last())
        }
    }
}

/// The index of the first of `names` that equals `name`.
pub open spec fn first_named(names: Seq<Seq<char>>, name: Seq<char>) -> Option<int> {
    if exists|i: int| 0 <= i < names.len() && names[i] == name {
        Some(choose|i: int| 0 <= i < names.len() && names[i] == name && forall|j: int| 0 <= j < i ==> names[j] != name)
    } else {
        None
    }
}

impl TombiExtension {
    /// The arguments that start the language server: those the user configured, else
    /// `lsp`.
    pub fn server_arguments(configured: Option<&Vec<String>>) -> (r: Vec<String>)
        ensures
            string_texts(r@) == match configured {
                Some(args) => string_texts(args@),
                None => seq!["lsp"@],
            },
    {
        let mut r: Vec<String> = Vec::new();
        match configured {
            Some(args) => {
                let n = args.len();
                let mut i: usize = 0;
                while i < n
                    invariant
                        n == args@.len(),
                        0 <= i <= n,
                        string_texts(r@) == string_texts(args@).take(i as int),
                    decreases n - i,
                {
                    let ghost before = r@;
                    r.push(args[i].clone());
                    assert(string_texts(r@) =~= string_texts(before).push(args@[i as int]@));
                    assert(string_texts(args@).take(i + 1) =~= string_texts(args@).take(i as int).push(args@[i as int]@));
                    i = i + 1;
                }
                assert(string_texts(args@).take(n as int) =~= string_texts(args@));
            },
            None => {
                r.push(String::from_str("lsp"));
                assert(string_texts(r@) =~= seq!["lsp"@]);
            },
        }
        r
    }

    /// Where a project's Python virtual environment keeps the tombi binary, relative to
    /// the worktree root.
    pub fn venv_binary_path(os: Os, binary_name: &str) -> (r: String)
        ensures
            r@ == ".venv/"@ + venv_script_dir_on(os) + "/"@ + binary_name@,
    {
        let mut path = String::from_str(".venv/");
        path.append(match os {
            Os::Windows => "Scripts",
            _ => "bin",
        });
        path.append("/");
        path.append(binary_name);
        path
    }

    /// Where `node_modules/.bin` may keep a launcher of tombi, relative to the worktree
    /// root, in the order they are tried.
    pub fn node_modules_binary_paths(os: Os, binary_name: &str) -> (r: Vec<String>)
        ensures
            string_texts(r@) == node_modules_names(os, binary_name@).map_values(
                |name: Seq<char>| "node_modules/.bin/"@ + name,
            ),
    {
        let names: Vec<&str> = match os {
            Os::Windows => vec!["tombi.cmd", "tombi.ps1", binary_name],
            _ => vec![binary_name],
        };
        let ghost ns = node_modules_names(os, binary_name@);
        assert(names@.map_values(|s: &str| s@) =~= ns);
        let mut r: Vec<String> = Vec::new();
        let n = names.len();
        let mut i: usize = 0;
        while i < n
            invariant
                n == names@.len(),
                names@.map_values(|s: &str| s@) == ns,
                0 <= i <= n,
                string_texts(r@) == ns.take(i as int).map_values(|name: Seq<char>| "node_modules/.bin/"@ + name),
            decreases n - i,
        {
            let ghost before = r@;
            let mut path = String::from_str("node_modules/.bin/");
            path.append(names[i]);
            r.push(path);
            assert(ns[i as int] == names@[i as int]@);
            assert(string_texts(r@) =~= string_texts(before).push("node_modules/.bin/"@ + ns[i as int]));
            assert(ns.take(i + 1).map_values(|name: Seq<char>| "node_modules/.bin/"@ + name) =~= ns.take(
                i as int,
            ).map_values(|name: Seq<char>| "node_modules/.bin/"@ + name).push("node_modules/.bin/"@ + ns[i as int]));
            i = i + 1;
        }
        assert(ns.take(n as int) =~= ns);
        r
    }

    /// The download URL of the first release asset (name and URL) named `asset_name`.
    pub fn find_asset<'a>(assets: &'a [(String, String)], asset_name: &str) -> (r: Option<&'a String>)
        ensures
            match first_named(assets@.map_values(|a: (String, String)| a.0@), asset_name@) {
                Some(i) => r matches Some(url) && *url == assets@[i].1,
                None => r is None,
            },
    {
        let ghost names = assets@.map_values(|a: (String, String)| a.0@);
        let n = assets.len();
        let mut i: usize = 0;
        while i < n
            invariant
                n == assets@.len(),
                names == assets@.map_values(|a: (String, String)| a.0@),
                0 <= i <= n,
                forall|j: int| 0 <= j < i ==> names[j] != asset_name@,
            decreases n - i,
        {
            if str_eq(assets[i].0.as_str(), asset_name) {
                assert(names[i as int] == asset_name@);
                let ghost k = first_named(names, asset_name@)->0;
                assert(k == i) by {
                    if k < i {
                        assert(names[k] == asset_name@);
                    } else if k > i {
                        assert(names[i as int] != asset_name@);
                    }
                };
                return Some(&assets[i].1);
            }
            i = i + 1;
        }
        assert(!(exists|j: int| 0 <= j < names.len() && names[j] == asset_name@));
        None
    }

    /// Where the binary of a version is kept: in its version directory.
    pub fn installed_binary_path(version_dir: &str, binary_name: &str) -> (r: String)
        ensures
            r@ == version_dir@ + "/"@ + binary_name@,
    {
        let mut path = String::from_str(version_dir);
        path.append("/");
        path.append(binary_name);
        path
    }

    /// Where a `.tar.gz` artifact unpacks the binary: under a directory named after the
    /// artifact's stem.
    pub fn extracted_binary_path(version_dir: &str, asset_stem: &str, binary_name: &str) -> (r: String)
        ensures
            r@ == version_dir@ + "/"@ + asset_stem@ + "/"@ + binary_name@,
    {
        let mut path = String::from_str(version_dir);
        path.append("/");
        path.append(asset_stem);
        path.append("/");
        path.append(binary_name);
        path
    }

    /// The entries of the extension's directory to remove after a download: all but the
    /// directory of the version just installed, in order.
    pub fn stale_entries(names: &[String], version_dir: &str) -> (r: Vec<String>)
        ensures
            string_texts(r@) == names_other_than(string_texts(names@), version_dir@),
    {
        let ghost ns = string_texts(names@);
        let mut r: Vec<String> = Vec::new();
        let n = names.len();
        let mut i: usize = 0;
        assert(names_other_than(ns.take(0), version_dir@) =~= Seq::<Seq<char>>::empty());
        while i < n
            invariant
                n == names@.len(),
                ns == string_texts(names@),
                0 <= i <= n,
                string_texts(r@) == names_other_than(ns.take(i as int), version_dir@),
            decreases n - i,
        {
            let ghost before = r@;
            assert(ns.take(i + 1).drop_last() =~= ns.take(i as int));
            assert(ns.take(i + 1).last() == ns[i as int]);
            if !str_eq(names[i].as_str(), version_dir) {
                r.push(names[i].clone());
                assert(string_texts(r@) =~= string_texts(before).push(ns[i as int]));
            }
            i = i + 1;
        }
        assert(ns.take(n as int) =~= ns);
        r
    }
}

/// What installing a release takes, decided before anything is fetched.
#[derive(Debug, Clone)]
pub struct DownloadPlan {
    /// The release version, the tag without its leading `v`.
    pub version: String,
    /// The name of the release artifact for the platform.
    pub asset_name: String,
    /// Where that artifact is downloaded from.
    pub download_url: String,
    /// The directory that holds the binary of this version.
    pub version_dir: String,
    /// Where the binary ends up.
    pub binary_path: String,
    /// How the artifact is packed.
    pub file_type: DownloadedFileType,
    /// Where the download is unpacked to: the version directory for an archive, the
    /// binary itself for a gzipped binary.
    pub download_target: String,
    /// For a `.tar.gz` artifact, where it unpacks the binary, to be moved to
    /// `binary_path`.
    pub extracted_binary: Option<String>,
    /// Whether the binary is made executable after the download.
    pub make_executable: bool,
}

impl TombiExtension {
    /// What installing the release tagged `tag` takes on a platform, given the release's
    /// assets (name and download URL): the error names the artifact where the release has
    /// none for the platform.
    pub fn plan_github_download(
        tag: &str,
        assets: &[(String, String)],
        os: Os,
        arch: Architecture,
        binary_name: &str,
    ) -> (r: Result<DownloadPlan, String>)
        ensures
            ({
                let version = if tag@.len() > 0 && tag@[0] == 'v' {
                    tag@.skip(1)
                } else {
                    tag@
                };
                let kind = file_type_for(os, version);
                let stem = asset_stem_text(version, arch, os);
                let name = stem + "."@ + suffix_text(kind);
                let dir = "tombi-"@ + version;
                let binary = dir + "/"@ + binary_name@;
                match first_named(assets@.map_values(|a: (String, String)| a.0@), name) {
                    None => r matches Err(e) && e@ == "no asset found matching "@ + crate::text::debug_quoted(name),
                    Some(i) => (r matches Ok(p) && p.version@ == version && p.asset_name@ == name && p.download_url
                        == assets@[i].1 && p.version_dir@ == dir && p.binary_path@ == binary && p.file_type == kind
                        && match kind {
                        DownloadedFileType::Zip => p.download_target@ == dir && p.extracted_binary is None
                            && !p.make_executable,
                        DownloadedFileType::GzipTar => p.download_target@ == dir && p.make_executable
                            && (p.extracted_binary matches Some(e) && e@ == dir + "/"@ + stem + "/"@ + binary_name@),
                        DownloadedFileType::Gzip => p.download_target@ == binary && p.extracted_binary is None
                            && p.make_executable,
                    }),
                }
            }),
    {
        let version = TombiExtension::release_tag_version(tag);
        let stem = TombiExtension::asset_stem(version, arch, os);
        let asset_name = TombiExtension::asset_name(version, arch, os);
        let url = match TombiExtension::find_asset(assets, asset_name.as_str()) {
            Some(u) => u.clone(),
            None => {
                let mut message = String::from_str("no asset found matching ");
                let quoted = crate::text::debug_format(asset_name.as_str());
                message.append(quoted.as_str());
                return Err(message);
            },
        };
        let version_dir = TombiExtension::version_dir(version);
        let binary_path = TombiExtension::installed_binary_path(version_dir.as_str(), binary_name);
        let file_type = TombiExtension::downloaded_file_type(os, version);
        let (download_target, extracted_binary, make_executable) = match file_type {
            DownloadedFileType::Zip => (version_dir.clone(), None, false),
            DownloadedFileType::GzipTar => (
                version_dir.clone(),
                Some(TombiExtension::extracted_binary_path(version_dir.as_str(), stem.as_str(), binary_name)),
                true,
            ),
            DownloadedFileType::Gzip => (binary_path.clone(), None, true),
        };
        Ok(
            DownloadPlan {
                version: String::from_str(version),
                asset_name,
                download_url: url,
                version_dir,
                binary_path,
                file_type,
                download_target,
                extracted_binary,
                make_executable,
            },
        )
    }
}


/// Where the language server's binary is looked for, in this order: the path the user
/// configured, a Python virtual environment of the project, the project's
/// `node_modules/.bin`, the search path, the path found earlier in this process, a fresh
/// download of the latest release, and the newest install already on disk.
#[derive(Debug, Clone, Copy, PartialEq, Eq, Structural)]
pub enum ServerSource {
    Configured,
    VirtualEnv,
    NodeModules,
    SearchPath,
    MemoryCache,
    Download,
    FileCache,
}

/// The place of a source in the order of `ServerSource`.
pub open spec fn source_rank(s: ServerSource) -> int {
    match s {
        ServerSource::Configured => 0,
        ServerSource::VirtualEnv => 1,
        ServerSource::NodeModules => 2,
        ServerSource::SearchPath => 3,
        ServerSource::MemoryCache => 4,
        ServerSource::Download => 5,
        ServerSource::FileCache => 6,
    }
}

impl TombiExtension {
    /// The source to try first.
    pub fn first_server_source() -> (r: ServerSource)
        ensures
            source_rank(r) == 0,
    {
        ServerSource::Configured
    }

    /// The source to try where `source` found nothing: the next in order; none after the
    /// last, where the command fails with the error of the download.
    pub fn next_server_source(source: ServerSource) -> (r: Option<ServerSource>)
        ensures
            match r {
                Some(n) => source_rank(n) == source_rank(source) + 1,
                None => source_rank(source) == 6,
            },
    {
        match source {
            ServerSource::Configured => Some(ServerSource::VirtualEnv),
            ServerSource::VirtualEnv => Some(ServerSource::NodeModules),
            ServerSource::NodeModules => Some(ServerSource::SearchPath),
            ServerSource::SearchPath => Some(ServerSource::MemoryCache),
            ServerSource::MemoryCache => Some(ServerSource::Download),
            ServerSource::Download => Some(ServerSource::FileCache),
            ServerSource::FileCache => None,
        }
    }

    /// Whether a binary found at `source` is remembered for the rest of the process: those
    /// the extension manages (the remembered path, a download, an install on disk), not
    /// those of the user or of the project.
    pub fn remembers_server_path(source: ServerSource) -> (r: bool)
        ensures
            r == (source_rank(source) >= 4),
    {
        match source {
            ServerSource::MemoryCache | ServerSource::Download | ServerSource::FileCache => true,
            _ => false,
        }
    }
}

} // verus!
