//! The names and source locators that a crate gets in the package graph.

use vstd::prelude::*;
use vstd::string::*;
use crate::text::concatenate;

verus! {

/// The kebab-case form of `text`, as `heck` computes it: the words of the
/// text in lower case, joined by hyphens.
pub uninterp spec fn kebab_case(text: Seq<char>) -> Seq<char>;

/// Calls `heck::KebabCase::to_kebab_case` on `text`. The result is a function
/// of the text alone and is known here only by its name, `kebab_case`.
#[verifier::external_body]
pub(crate) fn to_kebab_case(text: &str) -> (kebab: String)
    ensures
        kebab@ == kebab_case(text@),
{
    heck::KebabCase::to_kebab_case(text)
}

/// A kebab-case name and a version, joined by a hyphen.
pub open spec fn spec_versioned_name(kebab_name: Seq<char>, version: Seq<char>) -> Seq<char> {
    kebab_name + "-"@ + version
}

/// A kebab-case name behind the prefix that every package definition carries.
pub open spec fn spec_prefixed_name(kebab_name: Seq<char>) -> Seq<char> {
    "rust-"@ + kebab_name
}

/// The package name of a crate at a version: the crate's name in kebab case,
/// a hyphen, and the version.
pub open spec fn spec_package_name(crate_name: Seq<char>, version: Seq<char>) -> Seq<char> {
    spec_versioned_name(kebab_case(crate_name), version)
}

/// The definition name of a crate: `rust-` and the crate's name in kebab case.
pub open spec fn spec_definition_name(crate_name: Seq<char>) -> Seq<char> {
    spec_prefixed_name(kebab_case(crate_name))
}

/// Where the registry serves the archive of a crate at a version.
pub open spec fn spec_registry_locator(crate_name: Seq<char>, version: Seq<char>) -> Seq<char> {
    "https://crates.io/api/v1/crates/"@ + crate_name + "/"@ + version + "/download"@
}

/// The locator of a directory or file of the local file system.
pub open spec fn spec_file_locator(path: Seq<char>) -> Seq<char> {
    "file://"@ + path
}

/// Joins a name that is already in kebab case and a version with a hyphen.
pub fn versioned_name(kebab_name: &str, version: &str) -> (name: String)
    ensures
        name@ == spec_versioned_name(kebab_name@, version@),
{
    let mut name = concatenate(kebab_name, "-");
    name.append(version);
    name
}

/// Puts `rust-` before a name that is already in kebab case.
pub fn prefixed_name(kebab_name: &str) -> (name: String)
    ensures
        name@ == spec_prefixed_name(kebab_name@),
{
    concatenate("rust-", kebab_name)
}

/// The package name of the crate `crate_name` at `version`.
pub fn package_name(crate_name: &str, version: &str) -> (name: String)
    ensures
        name@ == spec_package_name(crate_name@, version@),
{
    let kebab = to_kebab_case(crate_name);
    versioned_name(kebab.as_str(), version)
}

/// The definition name of the crate `crate_name`.
pub fn definition_name(crate_name: &str) -> (name: String)
    ensures
        name@ == spec_definition_name(crate_name@),
{
    let kebab = to_kebab_case(crate_name);
    prefixed_name(kebab.as_str())
}

/// The download locator of the crate `crate_name` at `version` in the registry.
pub fn registry_locator(crate_name: &str, version: &str) -> (locator: String)
    ensures
        locator@ == spec_registry_locator(crate_name@, version@),
{
    let mut locator = concatenate("https://crates.io/api/v1/crates/", crate_name);
    locator.append("/");
    locator.append(version);
    locator.append("/download");
    locator
}

/// The locator of the local path `path`.
pub fn file_locator(path: &str) -> (locator: String)
    ensures
        locator@ == spec_file_locator(path@),
{
    concatenate("file://", path)
}

} // verus!
