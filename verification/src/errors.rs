//! The failures that resolving a crate graph can end in.

use vstd::prelude::*;
use vstd::string::*;
use crate::text::concatenate;

verus! {

/// Why a resolution was given up.
///
/// Every variant names the crate, requirement, path or locator that the
/// failure is about. `DependencyProcessingFailed` wraps the failure met while
/// resolving a dependency together with the crate that owns the dependency, so
/// that a chain of them leads from the root crate to the failing leaf.
#[derive(Debug, PartialEq, Eq)]
pub enum CarguixError {
    /// The index holds no crate of this name.
    CrateNotFound(String),
    /// The crate has no published version with exactly this version string.
    NoMatchingVersion { name: String, version: String },
    /// No published version of the crate satisfies the requirement.
    NoVersionMatchingRequirement { name: String, requirement: String },
    /// None of the crate's published version strings is a semantic version;
    /// the fields are the crate's name and the requirement being resolved.
    VersionParsingError(String, String),
    /// The requirement is no semantic-version requirement; the fields are the
    /// crate's name and the requirement.
    RequirementParsingError(String, String),
    /// Resolving a dependency of the crate with this name and version failed.
    DependencyProcessingFailed(Box<CarguixError>, String, String),
    /// The manifest at this path could not be read or parsed; the first field
    /// describes the cause.
    ManifestParsingError(String, String),
    /// The manifest at this path declares no package.
    NoPackageInManifest(String),
    /// The locator is not a URL.
    UrlParsingError(String),
    /// The locator has the `file` scheme but names no local path.
    UrlNotAFilePath(String),
    /// A dependency entry of a lock file has neither two nor three parts.
    BadLockFileDependency(String),
    /// The lock file has no record for this crate name and version.
    PackageNotFoundInLock(String, String),
    /// The lock file could not be read; the field describes the cause.
    LockFileReadError(String),
    /// The lock file could not be parsed; the field describes the cause.
    LockFileParsingError(String),
    /// The path could not be made canonical; the first field describes the
    /// cause.
    CanonicalizationFailed(String, String),
    /// A lock file names a local dependency for which no path is known.
    CratePathNotFound { dependency: String, owner: String },
    /// The dependency is declared by path or by git repository in a manifest
    /// that has no lock file beside it.
    UnlockedDependency { dependency: String, owner: String },
    /// The crate comes from a git repository, whose dependencies cannot be
    /// enumerated.
    GitSourceUnsupported(String),
}

/// A failure with each string replaced by the characters it holds.
pub enum ErrorView {
    CrateNotFound(Seq<char>),
    NoMatchingVersion { name: Seq<char>, version: Seq<char> },
    NoVersionMatchingRequirement { name: Seq<char>, requirement: Seq<char> },
    VersionParsingError(Seq<char>, Seq<char>),
    RequirementParsingError(Seq<char>, Seq<char>),
    DependencyProcessingFailed(Box<ErrorView>, Seq<char>, Seq<char>),
    ManifestParsingError(Seq<char>, Seq<char>),
    NoPackageInManifest(Seq<char>),
    UrlParsingError(Seq<char>),
    UrlNotAFilePath(Seq<char>),
    BadLockFileDependency(Seq<char>),
    PackageNotFoundInLock(Seq<char>, Seq<char>),
    LockFileReadError(Seq<char>),
    LockFileParsingError(Seq<char>),
    CanonicalizationFailed(Seq<char>, Seq<char>),
    CratePathNotFound { dependency: Seq<char>, owner: Seq<char> },
    UnlockedDependency { dependency: Seq<char>, owner: Seq<char> },
    GitSourceUnsupported(Seq<char>),
}

/// The view of a failure: the same variant over character sequences, the
/// wrapped cause viewed in the same way.
pub open spec fn error_view(error: CarguixError) -> ErrorView
    decreases error,
{
    match error {
            CarguixError::CrateNotFound(name) => ErrorView::CrateNotFound(name@),
            CarguixError::NoMatchingVersion { name, version } => ErrorView::NoMatchingVersion {
                name: name@,
                version: version@,
            },
            CarguixError::NoVersionMatchingRequirement {
                name,
                requirement,
            } => ErrorView::NoVersionMatchingRequirement { name: name@, requirement: requirement@ },
            CarguixError::VersionParsingError(name, requirement) => ErrorView::VersionParsingError(
                name@,
                requirement@,
            ),
            CarguixError::RequirementParsingError(
                name,
                requirement,
            ) => ErrorView::RequirementParsingError(name@, requirement@),
            CarguixError::DependencyProcessingFailed(
                cause,
                name,
                version,
            ) => ErrorView::DependencyProcessingFailed(Box::new(error_view(*cause)), name@, version@),
            CarguixError::ManifestParsingError(cause, path) => ErrorView::ManifestParsingError(
                cause@,
                path@,
            ),
            CarguixError::NoPackageInManifest(path) => ErrorView::NoPackageInManifest(path@),
            CarguixError::UrlParsingError(locator) => ErrorView::UrlParsingError(locator@),
            CarguixError::UrlNotAFilePath(locator) => ErrorView::UrlNotAFilePath(locator@),
            CarguixError::BadLockFileDependency(entry) => ErrorView::BadLockFileDependency(entry@),
            CarguixError::PackageNotFoundInLock(name, version) => ErrorView::PackageNotFoundInLock(
                name@,
                version@,
            ),
            CarguixError::LockFileReadError(cause) => ErrorView::LockFileReadError(cause@),
            CarguixError::LockFileParsingError(cause) => ErrorView::LockFileParsingError(cause@),
            CarguixError::CanonicalizationFailed(cause, path) => ErrorView::CanonicalizationFailed(
                cause@,
                path@,
            ),
            CarguixError::CratePathNotFound { dependency, owner } => ErrorView::CratePathNotFound {
                dependency: dependency@,
                owner: owner@,
            },
            CarguixError::UnlockedDependency {
                dependency,
                owner,
            } => ErrorView::UnlockedDependency { dependency: dependency@, owner: owner@ },
        CarguixError::GitSourceUnsupported(name) => ErrorView::GitSourceUnsupported(name@),
    }
}

impl View for CarguixError {
    type V = ErrorView;

    open spec fn view(&self) -> ErrorView {
        error_view(*self)
    }
}

/// What a failure says of itself, without its cause.
pub open spec fn spec_message(error: ErrorView) -> Seq<char> {
    match error {
        ErrorView::CrateNotFound(name) => "could not find crate "@ + name,
        ErrorView::NoMatchingVersion { name, version } => "no version of crate "@ + name
            + " matching "@ + version + " found"@,
        ErrorView::NoVersionMatchingRequirement { name, requirement } => "no version of crate "@
            + name + " matching requirement "@ + requirement + " found"@,
        ErrorView::VersionParsingError(name, requirement) => "no version of crate "@ + name
            + " could be parsed while resolving requirement "@ + requirement,
        ErrorView::RequirementParsingError(name, requirement) => "parsing of requirement "@
            + requirement + " for crate "@ + name + " failed"@,
        ErrorView::DependencyProcessingFailed(_, name, version) =>
            "could not process a dependency of crate "@ + name + " in version "@ + version,
        ErrorView::ManifestParsingError(_, path) => "error while parsing crate at path "@ + path,
        ErrorView::NoPackageInManifest(path) => path + " does not define a package"@,
        ErrorView::UrlParsingError(locator) => "error while parsing URL "@ + locator,
        ErrorView::UrlNotAFilePath(locator) => "URL is not a file path: "@ + locator,
        ErrorView::BadLockFileDependency(entry) => "Dependency found in lock file is ill-formed: "@
            + entry,
        ErrorView::PackageNotFoundInLock(name, version) => "Crate "@ + name + " in version "@
            + version + " not found in lock file"@,
        ErrorView::LockFileReadError(_) => "cannot read Cargo.lock"@,
        ErrorView::LockFileParsingError(_) => "cannot parse Cargo.lock"@,
        ErrorView::CanonicalizationFailed(_, path) => "cannot canonicalize path: "@ + path,
        ErrorView::CratePathNotFound { dependency, owner } => "dependency "@ + dependency + " of "@
            + owner + " path not found"@,
        ErrorView::UnlockedDependency { dependency, owner } => "dependency "@ + dependency
            + " of "@ + owner + " is declared by path or git without a lock file"@,
        ErrorView::GitSourceUnsupported(name) => "cannot enumerate the dependencies of git crate "@
            + name,
    }
}

/// The failure that a failure wraps, if it wraps one.
pub open spec fn spec_cause(error: ErrorView) -> Option<ErrorView> {
    match error {
        ErrorView::DependencyProcessingFailed(cause, _, _) => Some(*cause),
        _ => None,
    }
}

impl Clone for CarguixError {
    fn clone(&self) -> (copy: CarguixError)
        ensures
            copy@ == self@,
    {
        self.duplicate()
    }
}

impl CarguixError {
    /// Wraps `cause` as the failure of a dependency of the crate `name` at
    /// `version`.
    pub fn dependency_of(cause: CarguixError, name: &str, version: &str) -> (wrapped: CarguixError)
        ensures
            wrapped@ == ErrorView::DependencyProcessingFailed(Box::new(cause@), name@, version@),
    {
        CarguixError::DependencyProcessingFailed(
            Box::new(cause),
            name.to_string(),
            version.to_string(),
        )
    }

    /// The failure that this failure wraps, if it wraps one. Following the
    /// causes from a failure leads to the dependency that failed first.
    pub fn cause(&self) -> (cause: Option<&CarguixError>)
        ensures
            match cause {
                Some(cause) => spec_cause(self@) == Some(cause@),
                None => spec_cause(self@) is None,
            },
    {
        match self {
            CarguixError::DependencyProcessingFailed(cause, _, _) => Some(&**cause),
            _ => None,
        }
    }

    /// What this failure says of itself, without its cause.
    pub fn message(&self) -> (message: String)
        ensures
            message@ == spec_message(self@),
    {
        match self {
            CarguixError::CrateNotFound(name) => concatenate("could not find crate ", name.as_str()),
            CarguixError::NoMatchingVersion { name, version } => {
                let mut message = concatenate("no version of crate ", name.as_str());
                message.append(" matching ");
                message.append(version.as_str());
                message.append(" found");
                message
            },
            CarguixError::NoVersionMatchingRequirement { name, requirement } => {
                let mut message = concatenate("no version of crate ", name.as_str());
                message.append(" matching requirement ");
                message.append(requirement.as_str());
                message.append(" found");
                message
            },
            CarguixError::VersionParsingError(name, requirement) => {
                let mut message = concatenate("no version of crate ", name.as_str());
                message.append(" could be parsed while resolving requirement ");
                message.append(requirement.as_str());
                message
            },
            CarguixError::RequirementParsingError(name, requirement) => {
                let mut message = concatenate("parsing of requirement ", requirement.as_str());
                message.append(" for crate ");
                message.append(name.as_str());
                message.append(" failed");
                message
            },
            CarguixError::DependencyProcessingFailed(_, name, version) => {
                let mut message = concatenate("could not process a dependency of crate ", name.as_str());
                message.append(" in version ");
                message.append(version.as_str());
                message
            },
            CarguixError::ManifestParsingError(_, path) => concatenate(
                "error while parsing crate at path ",
                path.as_str(),
            ),
            CarguixError::NoPackageInManifest(path) => concatenate(
                path.as_str(),
                " does not define a package",
            ),
            CarguixError::UrlParsingError(locator) => concatenate(
                "error while parsing URL ",
                locator.as_str(),
            ),
            CarguixError::UrlNotAFilePath(locator) => concatenate(
                "URL is not a file path: ",
                locator.as_str(),
            ),
            CarguixError::BadLockFileDependency(entry) => concatenate(
                "Dependency found in lock file is ill-formed: ",
                entry.as_str(),
            ),
            CarguixError::PackageNotFoundInLock(name, version) => {
                let mut message = concatenate("Crate ", name.as_str());
                message.append(" in version ");
                message.append(version.as_str());
                message.append(" not found in lock file");
                message
            },
            CarguixError::LockFileReadError(_) => "cannot read Cargo.lock".to_string(),
            CarguixError::LockFileParsingError(_) => "cannot parse Cargo.lock".to_string(),
            CarguixError::CanonicalizationFailed(_, path) => concatenate(
                "cannot canonicalize path: ",
                path.as_str(),
            ),
            CarguixError::CratePathNotFound { dependency, owner } => {
                let mut message = concatenate("dependency ", dependency.as_str());
                message.append(" of ");
                message.append(owner.as_str());
                message.append(" path not found");
                message
            },
            CarguixError::UnlockedDependency { dependency, owner } => {
                let mut message = concatenate("dependency ", dependency.as_str());
                message.append(" of ");
                message.append(owner.as_str());
                message.append(" is declared by path or git without a lock file");
                message
            },
            CarguixError::GitSourceUnsupported(name) => concatenate(
                "cannot enumerate the dependencies of git crate ",
                name.as_str(),
            ),
        }
    }

    /// A copy of this failure.
    pub fn duplicate(&self) -> (copy: CarguixError)
        ensures
            copy@ == self@,
        decreases self,
    {
        match self {
            CarguixError::CrateNotFound(name) => CarguixError::CrateNotFound(name.clone()),
            CarguixError::NoMatchingVersion { name, version } => CarguixError::NoMatchingVersion {
                name: name.clone(),
                version: version.clone(),
            },
            CarguixError::NoVersionMatchingRequirement {
                name,
                requirement,
            } => CarguixError::NoVersionMatchingRequirement {
                name: name.clone(),
                requirement: requirement.clone(),
            },
            CarguixError::VersionParsingError(name, requirement) => {
                CarguixError::VersionParsingError(name.clone(), requirement.clone())
            },
            CarguixError::RequirementParsingError(name, requirement) => {
                CarguixError::RequirementParsingError(name.clone(), requirement.clone())
            },
            CarguixError::DependencyProcessingFailed(cause, name, version) => {
                CarguixError::DependencyProcessingFailed(
                    Box::new(cause.duplicate()),
                    name.clone(),
                    version.clone(),
                )
            },
            CarguixError::ManifestParsingError(cause, path) => CarguixError::ManifestParsingError(
                cause.clone(),
                path.clone(),
            ),
            CarguixError::NoPackageInManifest(path) => CarguixError::NoPackageInManifest(
                path.clone(),
            ),
            CarguixError::UrlParsingError(locator) => CarguixError::UrlParsingError(
                locator.clone(),
            ),
            CarguixError::UrlNotAFilePath(locator) => CarguixError::UrlNotAFilePath(
                locator.clone(),
            ),
            CarguixError::BadLockFileDependency(entry) => CarguixError::BadLockFileDependency(
                entry.clone(),
            ),
            CarguixError::PackageNotFoundInLock(name, version) => {
                CarguixError::PackageNotFoundInLock(name.clone(), version.clone())
            },
            CarguixError::LockFileReadError(cause) => CarguixError::LockFileReadError(
                cause.clone(),
            ),
            CarguixError::LockFileParsingError(cause) => CarguixError::LockFileParsingError(
                cause.clone(),
            ),
            CarguixError::CanonicalizationFailed(cause, path) => {
                CarguixError::CanonicalizationFailed(cause.clone(), path.clone())
            },
            CarguixError::CratePathNotFound { dependency, owner } => {
                CarguixError::CratePathNotFound {
                    dependency: dependency.clone(),
                    owner: owner.clone(),
                }
            },
            CarguixError::UnlockedDependency { dependency, owner } => {
                CarguixError::UnlockedDependency {
                    dependency: dependency.clone(),
                    owner: owner.clone(),
                }
            },
            CarguixError::GitSourceUnsupported(name) => CarguixError::GitSourceUnsupported(
                name.clone(),
            ),
        }
    }
}

} // verus!
