//! Document links of a `Cargo.toml`: their tooltips, which kinds of link are switched on,
//! and where a crates.io link leads.

use vstd::prelude::*;
use vstd::string::StringExecFns;

use crate::document::{table_entry, Value};
use crate::inlay::{dependency_package_name, package_name_of};
use crate::text::str_eq;

verus! {

/// What a document link of a `Cargo.toml` opens.
#[derive(Debug, Clone, Copy, PartialEq, Eq, Structural)]
pub enum DocumentLinkToolTip {
    GitRepository,
    Registry,
    CrateIo,
    CargoToml,
    CargoTomlFirstMember,
    WorkspaceCargoToml,
    PathFile,
}

impl DocumentLinkToolTip {
    /// The tooltip text.
    pub open spec fn text(self) -> Seq<char> {
        match self {
            DocumentLinkToolTip::GitRepository => "Open Git Repository"@,
            DocumentLinkToolTip::Registry => "Open Registry"@,
            DocumentLinkToolTip::CrateIo => "Open crate.io"@,
            DocumentLinkToolTip::CargoToml => "Open Cargo.toml"@,
            DocumentLinkToolTip::CargoTomlFirstMember => "Open first Cargo.toml in members"@,
            DocumentLinkToolTip::WorkspaceCargoToml => "Open Workspace Cargo.toml"@,
            DocumentLinkToolTip::PathFile => "Open Path File"@,
        }
    }

    /// The tooltip text.
    pub fn as_str(&self) -> (r: &'static str)
        ensures
            r@ == self.text(),
    {
        match self {
            DocumentLinkToolTip::GitRepository => "Open Git Repository",
            DocumentLinkToolTip::Registry => "Open Registry",
            DocumentLinkToolTip::CrateIo => "Open crate.io",
            DocumentLinkToolTip::CargoToml => "Open Cargo.toml",
            DocumentLinkToolTip::CargoTomlFirstMember => "Open first Cargo.toml in members",
            DocumentLinkToolTip::WorkspaceCargoToml => "Open Workspace Cargo.toml",
            DocumentLinkToolTip::PathFile => "Open Path File",
        }
    }

    /// The tooltip text as a string.
    pub fn to_string(&self) -> (r: String)
        ensures
            r@ == self.text(),
    {
        String::from_str(self.as_str())
    }
}

/// Whether a tooltip text is that of `expected`.
pub fn tooltip_matches(tooltip: &str, expected: DocumentLinkToolTip) -> (r: bool)
    ensures
        r == (tooltip@ == expected.text()),
{
    str_eq(tooltip, expected.as_str())
}

/// Which kinds of document link the user switched on or off; `None` where the setting is
/// not given.
#[derive(Debug, Clone, Copy, Default)]
pub struct DocumentLinkFeatures {
    pub cargo_toml: Option<bool>,
    pub workspace: Option<bool>,
    pub git: Option<bool>,
    pub path: Option<bool>,
    pub crates_io: Option<bool>,
}

/// A setting that is off unless given.
pub open spec fn enabled_default_off(setting: Option<bool>) -> bool {
    setting == Some(true)
}

/// Links to other `Cargo.toml` files: off unless switched on.
pub fn cargo_toml_document_link_enabled(features: Option<&DocumentLinkFeatures>) -> (r: bool)
    ensures
        r == (features matches Some(f) && enabled_default_off(f.cargo_toml)),
{
    match features {
        Some(f) => f.cargo_toml == Some(true),
        None => false,
    }
}

/// Links to the workspace `Cargo.toml`: off unless switched on.
pub fn workspace_document_link_enabled(features: Option<&DocumentLinkFeatures>) -> (r: bool)
    ensures
        r == (features matches Some(f) && enabled_default_off(f.workspace)),
{
    match features {
        Some(f) => f.workspace == Some(true),
        None => false,
    }
}

/// Links to git repositories: off unless switched on.
pub fn git_document_link_enabled(features: Option<&DocumentLinkFeatures>) -> (r: bool)
    ensures
        r == (features matches Some(f) && enabled_default_off(f.git)),
{
    match features {
        Some(f) => f.git == Some(true),
        None => false,
    }
}

/// Links to path dependencies: off unless switched on.
pub fn path_document_link_enabled(features: Option<&DocumentLinkFeatures>) -> (r: bool)
    ensures
        r == (features matches Some(f) && enabled_default_off(f.path)),
{
    match features {
        Some(f) => f.path == Some(true),
        None => false,
    }
}

/// Links to crates.io: on unless switched off.
pub fn crates_io_document_link_enabled(features: Option<&DocumentLinkFeatures>) -> (r: bool)
    ensures
        r == !(features matches Some(f) && f.crates_io == Some(false)),
{
    match features {
        Some(f) => f.crates_io != Some(false),
        None => true,
    }
}

/// The tooltip of the link on a dependency's key: a path dependency's key opens its
/// `Cargo.toml`, and only where such links are on; other tooltips stay.
pub fn dependency_key_tooltip(tooltip: &str, features: Option<&DocumentLinkFeatures>) -> (r: Option<String>)
    ensures
        if tooltip@ == DocumentLinkToolTip::PathFile.text() {
            if features matches Some(f) && enabled_default_off(f.cargo_toml) {
                r matches Some(t) && t@ == DocumentLinkToolTip::CargoToml.text()
            } else {
                r is None
            }
        } else {
            r matches Some(t) && t@ == tooltip@
        },
{
    if tooltip_matches(tooltip, DocumentLinkToolTip::PathFile) {
        if cargo_toml_document_link_enabled(features) {
            Some(DocumentLinkToolTip::CargoToml.to_string())
        } else {
            None
        }
    } else {
        Some(String::from_str(tooltip))
    }
}

/// Whether a dependency entry is a table with a `path`.
pub open spec fn uses_local_path(value: Value) -> bool {
    value is Table && table_entry(value, "path"@) is Some
}

/// The tooltip of a dependency table's link: its path file, or its `Cargo.toml`.
pub fn dependency_table_tooltip(table: &Value) -> (r: DocumentLinkToolTip)
    ensures
        r == if table_entry(*table, "path"@) is Some {
            DocumentLinkToolTip::PathFile
        } else {
            DocumentLinkToolTip::CargoToml
        },
{
    if table.contains_key("path") {
        DocumentLinkToolTip::PathFile
    } else {
        DocumentLinkToolTip::CargoToml
    }
}

/// Whether a dependency is given by a local path.
pub fn dependency_uses_local_path(crate_value: &Value) -> (r: bool)
    ensures
        r == uses_local_path(*crate_value),
{
    match crate_value {
        Value::Table { .. } => crate_value.contains_key("path"),
        _ => false,
    }
}

/// The crates.io page of a dependency: that of its `package` where it names one.
pub fn crates_io_crate_url(crate_key: &str, crate_value: &Value) -> (r: String)
    ensures
        r@ == "https://crates.io/crates/"@ + package_name_of(crate_key@, *crate_value),
{
    let mut url = String::from_str("https://crates.io/crates/");
    url.append(dependency_package_name(crate_key, crate_value));
    url
}

} // verus!
