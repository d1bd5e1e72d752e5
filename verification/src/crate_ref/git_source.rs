//! Crates that come from a git repository. The variant completes the set of
//! sources: it answers for its name, version and locator, and its
//! dependencies cannot be enumerated.

use vstd::prelude::*;
use crate::crate_ref::{resolution_view, Resolution, ResolutionView};
use crate::errors::{CarguixError, ErrorView};
use crate::naming::{package_name, spec_package_name};

verus! {

/// A crate of a git repository.
#[derive(Debug, PartialEq, Eq)]
pub struct GitSource {
    crate_name: String,
    version: String,
    source: String,
}

/// A git source over character sequences.
pub struct GitSourceView {
    pub crate_name: Seq<char>,
    pub version: Seq<char>,
    pub source: Seq<char>,
}

impl GitSourceView {
    /// The package name: the crate's name in kebab case, a hyphen, the
    /// version.
    pub open spec fn package_name(self) -> Seq<char> {
        spec_package_name(self.crate_name, self.version)
    }
}

impl View for GitSource {
    type V = GitSourceView;

    closed spec fn view(&self) -> GitSourceView {
        GitSourceView {
            crate_name: self.crate_name@,
            version: self.version@,
            source: self.source@,
        }
    }
}

impl Clone for GitSource {
    fn clone(&self) -> (copy: GitSource)
        ensures
            copy@ == self@,
    {
        GitSource {
            crate_name: self.crate_name.clone(),
            version: self.version.clone(),
            source: self.source.clone(),
        }
    }
}

impl GitSource {
    /// The crate `crate_name` at `version`, from the repository at `source`.
    pub fn new(crate_name: &str, version: &str, source: &str) -> (git: GitSource)
        ensures
            git@ == (GitSourceView {
                crate_name: crate_name@,
                version: version@,
                source: source@,
            }),
    {
        GitSource {
            crate_name: crate_name.to_string(),
            version: version.to_string(),
            source: source.to_string(),
        }
    }

    /// The dependencies of a crate of a git repository cannot be enumerated:
    /// this fails with `GitSourceUnsupported`, naming the crate.
    pub fn dependencies(&self) -> (outcome: Result<Resolution, CarguixError>)
        ensures
            resolution_view(outcome) == Err::<ResolutionView, ErrorView>(
                ErrorView::GitSourceUnsupported(self@.crate_name),
            ),
    {
        Err(CarguixError::GitSourceUnsupported(self.crate_name.clone()))
    }

    /// The crate's name.
    pub fn crate_name(&self) -> (name: String)
        ensures
            name@ == self@.crate_name,
    {
        self.crate_name.clone()
    }

    /// The crate's package name.
    pub fn package_name(&self) -> (name: String)
        ensures
            name@ == self@.package_name(),
    {
        package_name(self.crate_name.as_str(), self.version.as_str())
    }

    /// The crate's version.
    pub fn version(&self) -> (version: String)
        ensures
            version@ == self@.version,
    {
        self.version.clone()
    }

    /// The crate's source locator.
    pub fn source(&self) -> (locator: String)
        ensures
            locator@ == self@.source,
    {
        self.source.clone()
    }
}

} // verus!
