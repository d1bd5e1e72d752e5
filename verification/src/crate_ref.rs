//! Crate sources: the ways in which a crate's version and dependencies are
//! obtained, and the reference to a crate that the graph walk works on.

pub mod git_source;
pub mod lock_source;
pub mod path_source;
pub mod registry_source;
pub mod simple_source;

use vstd::prelude::*;
use crate::context::{ContextView, LocalCrate, Lookup, LookupView, ResolutionContext};
use crate::crate_ref::git_source::GitSourceView;
use crate::crate_ref::lock_source::{spec_lock_source, LockSourceView};
use crate::crate_ref::path_source::{spec_path_source, PathSourceView};
use crate::crate_ref::registry_source::{spec_registry_source, RegistrySourceView};
use crate::crate_ref::simple_source::SimpleSourceView;
pub use crate::crate_ref::git_source::GitSource;
pub use crate::crate_ref::lock_source::{CargoLock, CargoLockPackage, LockSource};
pub use crate::crate_ref::path_source::PathSource;
pub use crate::crate_ref::registry_source::RegistrySource;
pub use crate::crate_ref::simple_source::SimpleSource;
use crate::errors::{CarguixError, ErrorView};
use crate::naming::{definition_name, spec_definition_name};
use crate::paths::PathTable;
use crate::text::optional_text;

verus! {

/// Where a crate comes from.
#[derive(Debug, PartialEq, Eq)]
pub enum CrateSource {
    Path(PathSource),
    Lock(LockSource),
    Git(GitSource),
    Registry(RegistrySource),
    Simple(SimpleSource),
}

/// A crate source over character sequences.
pub enum CrateSourceView {
    Path(PathSourceView),
    Lock(LockSourceView),
    Git(GitSourceView),
    Registry(RegistrySourceView),
    Simple(SimpleSourceView),
}

impl CrateSourceView {
    /// The crate's name.
    pub open spec fn crate_name(self) -> Seq<char> {
        match self {
            CrateSourceView::Path(source) => source.package.name,
            CrateSourceView::Lock(source) => source.crate_name,
            CrateSourceView::Git(source) => source.crate_name,
            CrateSourceView::Registry(source) => source.crate_version.name,
            CrateSourceView::Simple(source) => source.crate_name,
        }
    }

    /// The crate's exact version.
    pub open spec fn version(self) -> Seq<char> {
        match self {
            CrateSourceView::Path(source) => source.package.version,
            CrateSourceView::Lock(source) => source.package.version,
            CrateSourceView::Git(source) => source.version,
            CrateSourceView::Registry(source) => source.crate_version.version,
            CrateSourceView::Simple(source) => source.version,
        }
    }

    /// The crate's package name.
    pub open spec fn package_name(self) -> Seq<char> {
        match self {
            CrateSourceView::Path(source) => source.package_name(),
            CrateSourceView::Lock(source) => source.package_name(),
            CrateSourceView::Git(source) => source.package_name(),
            CrateSourceView::Registry(source) => source.package_name(),
            CrateSourceView::Simple(source) => source.package_name(),
        }
    }

    /// The crate's source locator.
    pub open spec fn source(self) -> Seq<char> {
        match self {
            CrateSourceView::Path(source) => source.source(),
            CrateSourceView::Lock(source) => source.source(),
            CrateSourceView::Git(source) => source.source,
            CrateSourceView::Registry(source) => source.source(),
            CrateSourceView::Simple(source) => source.source,
        }
    }
}

impl View for CrateSource {
    type V = CrateSourceView;

    open spec fn view(&self) -> CrateSourceView {
        match self {
            CrateSource::Path(source) => CrateSourceView::Path(source@),
            CrateSource::Lock(source) => CrateSourceView::Lock(source@),
            CrateSource::Git(source) => CrateSourceView::Git(source@),
            CrateSource::Registry(source) => CrateSourceView::Registry(source@),
            CrateSource::Simple(source) => CrateSourceView::Simple(source@),
        }
    }
}

impl Clone for CrateSource {
    fn clone(&self) -> (copy: CrateSource)
        ensures
            copy@ == self@,
    {
        match self {
            CrateSource::Path(source) => CrateSource::Path(source.clone()),
            CrateSource::Lock(source) => CrateSource::Lock(source.clone()),
            CrateSource::Git(source) => CrateSource::Git(source.clone()),
            CrateSource::Registry(source) => CrateSource::Registry(source.clone()),
            CrateSource::Simple(source) => CrateSource::Simple(source.clone()),
        }
    }
}

/// A crate to resolve: the name it was asked for by, and its source.
#[derive(Debug, PartialEq, Eq)]
pub struct CrateRef {
    crate_name: String,
    source: CrateSource,
}

/// A crate reference over character sequences.
pub struct CrateRefView {
    pub crate_name: Seq<char>,
    pub source: CrateSourceView,
}

impl CrateRefView {
    /// The crate's name, as its source gives it.
    pub open spec fn crate_name(self) -> Seq<char> {
        self.source.crate_name()
    }

    /// The crate's exact version.
    pub open spec fn version(self) -> Seq<char> {
        self.source.version()
    }

    /// The key under which the crate stands in the package graph: its name and
    /// its version.
    pub open spec fn identity(self) -> (Seq<char>, Seq<char>) {
        (self.source.crate_name(), self.source.version())
    }

    /// The name of the crate's package definition.
    pub open spec fn definition_name(self) -> Seq<char> {
        spec_definition_name(self.source.crate_name())
    }

    /// The crate's package name.
    pub open spec fn package_name(self) -> Seq<char> {
        self.source.package_name()
    }

    /// The crate's source locator.
    pub open spec fn source(self) -> Seq<char> {
        self.source.source()
    }

    /// What enumerating the dependencies gives for what `context` knows,
    /// before a failure is attributed to the crate.
    pub open spec fn own_dependencies(self, context: ContextView) -> Result<
        ResolutionView,
        ErrorView,
    > {
        match self.source {
            CrateSourceView::Path(source) => source.dependencies(context.index, context.locals),
            CrateSourceView::Lock(source) => source.dependencies(context.locals),
            CrateSourceView::Git(source) => Err(ErrorView::GitSourceUnsupported(source.crate_name)),
            CrateSourceView::Registry(source) => source.dependencies(context.index),
            CrateSourceView::Simple(source) => Ok(ResolutionView::Resolved(source.children())),
        }
    }

    /// What enumerating the dependencies gives for what `context` knows: a
    /// failure is wrapped with the name and the version of this crate, which
    /// owns the dependency that failed.
    pub open spec fn dependencies(self, context: ContextView) -> Result<
        ResolutionView,
        ErrorView,
    > {
        match self.own_dependencies(context) {
            Ok(resolution) => Ok(resolution),
            Err(error) => Err(
                ErrorView::DependencyProcessingFailed(
                    Box::new(error),
                    self.crate_name(),
                    self.version(),
                ),
            ),
        }
    }
}

/// The view of the outcome of making a crate reference.
pub open spec fn crate_outcome_view(outcome: Result<CrateRef, CarguixError>) -> Result<
    CrateRefView,
    ErrorView,
> {
    match outcome {
        Ok(crate_ref) => Ok(crate_ref@),
        Err(error) => Err(error@),
    }
}

impl View for CrateRef {
    type V = CrateRefView;

    closed spec fn view(&self) -> CrateRefView {
        CrateRefView { crate_name: self.crate_name@, source: self.source@ }
    }
}

impl Clone for CrateRef {
    fn clone(&self) -> (copy: CrateRef)
        ensures
            copy@ == self@,
    {
        CrateRef { crate_name: self.crate_name.clone(), source: self.source.clone() }
    }
}

/// The views of a sequence of crate references.
pub open spec fn crate_views(crates: Seq<CrateRef>) -> Seq<CrateRefView> {
    crates.map_values(|crate_ref: CrateRef| crate_ref@)
}

/// What enumerating the dependencies of a crate gave: the crates it depends
/// on, or the first lookup whose answer is needed and not known yet.
#[derive(Debug, PartialEq, Eq)]
pub enum Resolution {
    Resolved(Vec<CrateRef>),
    Missing(Lookup),
}

/// A resolution over character sequences.
pub enum ResolutionView {
    Resolved(Seq<CrateRefView>),
    Missing(LookupView),
}

impl View for Resolution {
    type V = ResolutionView;

    open spec fn view(&self) -> ResolutionView {
        match self {
            Resolution::Resolved(children) => ResolutionView::Resolved(crate_views(children@)),
            Resolution::Missing(lookup) => ResolutionView::Missing(lookup@),
        }
    }
}

/// The view of the outcome of an enumeration.
pub open spec fn resolution_view(outcome: Result<Resolution, CarguixError>) -> Result<
    ResolutionView,
    ErrorView,
> {
    match outcome {
        Ok(resolution) => Ok(resolution@),
        Err(error) => Err(error@),
    }
}

/// What resolving one dependency gave: the crate depended on, or the lookup
/// whose answer is missing.
pub enum StepView {
    Child(CrateRefView),
    Missing(LookupView),
}

/// What resolving one dependency gave.
#[derive(Debug, PartialEq, Eq)]
pub enum Step {
    Child(CrateRef),
    Missing(Lookup),
}

impl View for Step {
    type V = StepView;

    open spec fn view(&self) -> StepView {
        match self {
            Step::Child(child) => StepView::Child(child@),
            Step::Missing(lookup) => StepView::Missing(lookup@),
        }
    }
}

/// The view of the outcome of resolving one dependency.
pub open spec fn step_view(outcome: Result<Step, CarguixError>) -> Result<StepView, ErrorView> {
    match outcome {
        Ok(step) => Ok(step@),
        Err(error) => Err(error@),
    }
}

/// The outcome of resolving dependencies one after another: all the crates
/// depended on, in order, unless a dependency fails or needs a lookup that is
/// not known; then the first such dependency decides.
pub open spec fn collect_steps(steps: Seq<Result<StepView, ErrorView>>) -> Result<
    ResolutionView,
    ErrorView,
>
    decreases steps.len(),
{
    if steps.len() == 0 {
        Ok(ResolutionView::Resolved(Seq::empty()))
    } else {
        match collect_steps(steps.drop_last()) {
            Ok(ResolutionView::Resolved(children)) => match steps.last() {
                Ok(StepView::Child(child)) => Ok(ResolutionView::Resolved(children.push(child))),
                Ok(StepView::Missing(lookup)) => Ok(ResolutionView::Missing(lookup)),
                Err(error) => Err(error),
            },
            decided => decided,
        }
    }
}

/// Once a dependency has decided the outcome, the dependencies behind it
/// change nothing.
pub proof fn lemma_collect_decided(steps: Seq<Result<StepView, ErrorView>>, length: int)
    requires
        0 <= length <= steps.len(),
        !(collect_steps(steps.subrange(0, length)) matches Ok(ResolutionView::Resolved(_))),
    ensures
        collect_steps(steps) == collect_steps(steps.subrange(0, length)),
    decreases steps.len() - length,
{
    if length < steps.len() {
        let longer = steps.subrange(0, length + 1);
        assert(longer.drop_last() =~= steps.subrange(0, length));
        lemma_collect_decided(steps, length + 1);
    } else {
        assert(steps.subrange(0, length) =~= steps);
    }
}

/// While every dependency resolves to a crate, the outcome so far is the list
/// of those crates.
pub proof fn lemma_collect_children(steps: Seq<Result<StepView, ErrorView>>, length: int)
    requires
        0 <= length <= steps.len(),
        forall|i: int| 0 <= i < length ==> (#[trigger] steps[i]) matches Ok(StepView::Child(_)),
    ensures
        collect_steps(steps.subrange(0, length)) matches Ok(ResolutionView::Resolved(children))
            && children.len() == length,
    decreases length,
{
    if length > 0 {
        lemma_collect_children(steps, length - 1);
        let prefix = steps.subrange(0, length);
        assert(prefix.drop_last() =~= steps.subrange(0, length - 1));
        assert(prefix.last() == steps[length - 1]);
    }
}

/// The first dependency that does not resolve to a crate decides the outcome:
/// where it fails, the enumeration fails with its failure.
pub proof fn lemma_collect_first_failure(
    steps: Seq<Result<StepView, ErrorView>>,
    at: int,
    error: ErrorView,
)
    requires
        0 <= at < steps.len(),
        forall|i: int| 0 <= i < at ==> (#[trigger] steps[i]) matches Ok(StepView::Child(_)),
        steps[at] == Err::<StepView, ErrorView>(error),
    ensures
        collect_steps(steps) == Err::<ResolutionView, ErrorView>(error),
{
    lemma_collect_children(steps, at);
    let longer = steps.subrange(0, at + 1);
    assert(longer.drop_last() =~= steps.subrange(0, at));
    assert(longer.last() == steps[at]);
    lemma_collect_decided(steps, at + 1);
}

impl CrateRef {
    /// A reference to the crate asked for as `crate_name`, with its source.
    pub fn new(crate_name: &str, source: CrateSource) -> (crate_ref: CrateRef)
        ensures
            crate_ref@ == (CrateRefView { crate_name: crate_name@, source: source@ }),
    {
        CrateRef { crate_name: crate_name.to_string(), source }
    }

    /// A reference to the local crate that was loaded as `local`.
    pub fn path(local: &LocalCrate, working_dir: &str) -> (outcome: Result<CrateRef, CarguixError>)
        ensures
            crate_outcome_view(outcome) == match spec_path_source(
                local@.path,
                local@.manifest,
                local@.lock,
                Map::empty(),
                working_dir@,
            ) {
                Ok(source) => Ok(
                    CrateRefView {
                        crate_name: source.package.name,
                        source: CrateSourceView::Path(source),
                    },
                ),
                Err(error) => Err(error),
            },
    {
        let crate_paths = PathTable::new();
        match PathSource::new(local, &crate_paths, working_dir) {
            Ok(source) => {
                let crate_name = source.crate_name();
                Ok(CrateRef::new(crate_name.as_str(), CrateSource::Path(source)))
            },
            Err(error) => Err(error),
        }
    }

    /// A reference to the crate `crate_name` as the lock file `manifest` pins
    /// it: at `version`, or at the version of its first record where
    /// `version` is `None`.
    pub fn lock(
        crate_name: &str,
        version: &Option<String>,
        manifest: CargoLock,
        working_dir: &str,
    ) -> (outcome: Result<CrateRef, CarguixError>)
        ensures
            crate_outcome_view(outcome) == match spec_lock_source(
                crate_name@,
                optional_text(*version),
                manifest@,
                Map::empty(),
                working_dir@,
            ) {
                Ok(source) => Ok(
                    CrateRefView { crate_name: crate_name@, source: CrateSourceView::Lock(source) },
                ),
                Err(error) => Err(error),
            },
    {
        match LockSource::new(crate_name, version, Box::new(manifest), working_dir) {
            Ok(source) => Ok(CrateRef::new(crate_name, CrateSource::Lock(source))),
            Err(error) => Err(error),
        }
    }

    /// A reference to the crate `crate_name` of the registry: at exactly
    /// `version`, or at its latest version where `version` is `None`.
    pub fn registry(crate_name: &str, version: &Option<String>, context: &ResolutionContext) -> (outcome:
        Result<CrateRef, CarguixError>)
        ensures
            crate_outcome_view(outcome) == match spec_registry_source(
                context@.index,
                crate_name@,
                optional_text(*version),
            ) {
                Ok(source) => Ok(
                    CrateRefView {
                        crate_name: crate_name@,
                        source: CrateSourceView::Registry(source),
                    },
                ),
                Err(error) => Err(error),
            },
    {
        match RegistrySource::new(crate_name, version, context) {
            Ok(source) => Ok(CrateRef::new(crate_name, CrateSource::Registry(source))),
            Err(error) => Err(error),
        }
    }

    /// The crates that this crate depends on, for what `context` knows.
    ///
    /// A failure comes back wrapped as `DependencyProcessingFailed` with this
    /// crate's name and version.
    pub fn dependencies(&self, context: &ResolutionContext) -> (outcome: Result<
        Resolution,
        CarguixError,
    >)
        ensures
            resolution_view(outcome) == self@.dependencies(context@),
    {
        let own = match &self.source {
            CrateSource::Path(source) => source.dependencies(context),
            CrateSource::Lock(source) => source.dependencies(context),
            CrateSource::Simple(source) => source.dependencies(),
            CrateSource::Git(source) => source.dependencies(),
            CrateSource::Registry(source) => source.dependencies(context),
        };
        match own {
            Ok(resolution) => Ok(resolution),
            Err(error) => {
                let crate_name = self.crate_name();
                let version = self.version();
                Err(CarguixError::dependency_of(error, crate_name.as_str(), version.as_str()))
            },
        }
    }

    /// The crate's source.
    pub fn crate_source(&self) -> (source: &CrateSource)
        ensures
            source@ == self@.source,
    {
        &self.source
    }

    /// The crate's name, as its source gives it.
    pub fn crate_name(&self) -> (name: String)
        ensures
            name@ == self@.crate_name(),
    {
        match &self.source {
            CrateSource::Path(source) => source.crate_name(),
            CrateSource::Lock(source) => source.crate_name(),
            CrateSource::Simple(source) => source.crate_name(),
            CrateSource::Git(source) => source.crate_name(),
            CrateSource::Registry(source) => source.crate_name(),
        }
    }

    /// The name of the crate's package definition: `rust-` and the crate's
    /// name in kebab case.
    pub fn definition_name(&self) -> (name: String)
        ensures
            name@ == self@.definition_name(),
    {
        let crate_name = self.crate_name();
        definition_name(crate_name.as_str())
    }

    /// The crate's package name: its name in kebab case, a hyphen, and its
    /// version.
    pub fn package_name(&self) -> (name: String)
        ensures
            name@ == self@.package_name(),
    {
        match &self.source {
            CrateSource::Path(source) => source.package_name(),
            CrateSource::Lock(source) => source.package_name(),
            CrateSource::Simple(source) => source.package_name(),
            CrateSource::Git(source) => source.package_name(),
            CrateSource::Registry(source) => source.package_name(),
        }
    }

    /// The crate's exact version.
    pub fn version(&self) -> (version: String)
        ensures
            version@ == self@.version(),
    {
        match &self.source {
            CrateSource::Path(source) => source.version(),
            CrateSource::Lock(source) => source.version(),
            CrateSource::Simple(source) => source.version(),
            CrateSource::Git(source) => source.version(),
            CrateSource::Registry(source) => source.version(),
        }
    }

    /// The crate's source locator.
    pub fn source(&self) -> (locator: String)
        ensures
            locator@ == self@.source(),
    {
        match &self.source {
            CrateSource::Path(source) => source.source(),
            CrateSource::Lock(source) => source.source(),
            CrateSource::Simple(source) => source.source(),
            CrateSource::Git(source) => source.source(),
            CrateSource::Registry(source) => source.source(),
        }
    }
}

} // verus!
