//! Crates of the local file system: a parsed manifest in a directory, the
//! lock file that governs it where there is one, and the table of local paths
//! that the manifest declares.

use vstd::prelude::*;
use crate::context::{IndexedCrateView, LocalCrate, LocalCrateView, ResolutionContext};
use crate::crate_ref::lock_source::{
    resolve_lock_entries, spec_lock_source, spec_lock_steps, CargoLock, CargoLockView, LockSource,
    LockSourceView,
};
use crate::crate_ref::registry_source::{
    is_selected_from, known_entry, registry_selects, resolve_requirement, spec_requirement_step,
};
use crate::crate_ref::{
    collect_steps, crate_views, lemma_collect_decided, resolution_view, step_view, CrateRef,
    CrateRefView, CrateSourceView, Resolution, ResolutionView, Step, StepView,
};
use crate::errors::{CarguixError, ErrorView};
use crate::manifest::{
    dependency_views, manifest_dependencies, manifest_paths, Manifest, ManifestDependency,
    ManifestDependencyView, ManifestPackage, ManifestPackageView, ManifestView,
};
use crate::naming::{file_locator, package_name, spec_file_locator, spec_package_name};
use crate::paths::{spec_extend, LocalPathView, PathTable};

verus! {

/// A local crate.
#[derive(Debug, PartialEq, Eq)]
pub struct PathSource {
    path: String,
    package: ManifestPackage,
    manifest: Manifest,
    lock_source: Option<LockSource>,
    crate_paths: PathTable,
}

/// A local crate over character sequences.
pub struct PathSourceView {
    pub path: Seq<char>,
    pub package: ManifestPackageView,
    pub manifest: ManifestView,
    pub lock_source: Option<LockSourceView>,
    pub crate_paths: Map<Seq<char>, LocalPathView>,
}

impl PathSourceView {
    /// What enumerating the crate's dependencies gives, for what is known.
    ///
    /// Where a lock file governs the crate, the requirements of the manifest
    /// are not read: the dependencies are the entries of the crate's lock
    /// record, resolved against the lock file with the crate's table of local
    /// paths. Without a lock file they are the dependencies that the manifest
    /// declares, each resolved in the registry.
    pub open spec fn dependencies(
        self,
        index: Map<Seq<char>, Option<IndexedCrateView>>,
        locals: Map<LocalPathView, Result<LocalCrateView, ErrorView>>,
    ) -> Result<ResolutionView, ErrorView> {
        match self.lock_source {
            Some(lock_source) => collect_steps(
                spec_lock_steps(
                    lock_source.package.dependencies,
                    self.package.name,
                    lock_source.manifest,
                    self.crate_paths,
                    lock_source.working_dir,
                    locals,
                ),
            ),
            None => collect_steps(
                spec_declared_steps(index, manifest_dependencies(self.manifest), self.package.name),
            ),
        }
    }

    /// The package name: the declared name in kebab case, a hyphen, the
    /// declared version.
    pub open spec fn package_name(self) -> Seq<char> {
        spec_package_name(self.package.name, self.package.version)
    }

    /// The source locator: the crate's directory as a `file` locator.
    pub open spec fn source(self) -> Seq<char> {
        spec_file_locator(self.path)
    }
}

impl View for PathSource {
    type V = PathSourceView;

    closed spec fn view(&self) -> PathSourceView {
        PathSourceView {
            path: self.path@,
            package: self.package@,
            manifest: self.manifest@,
            lock_source: match self.lock_source {
                Some(lock_source) => Some(lock_source@),
                None => None,
            },
            crate_paths: self.crate_paths@,
        }
    }
}

/// What a dependency declared in the manifest of the crate `owner` resolves to
/// where no lock file governs the crate: a dependency declared by path or by
/// git repository is a failure, any other is resolved in the registry by its
/// requirement.
pub open spec fn spec_declared_step(
    index: Map<Seq<char>, Option<IndexedCrateView>>,
    dependency: ManifestDependencyView,
    owner: Seq<char>,
) -> Result<StepView, ErrorView> {
    if dependency.path is Some || dependency.git is Some {
        Err(ErrorView::UnlockedDependency { dependency: dependency.name, owner })
    } else {
        spec_requirement_step(index, dependency.name, dependency.requirement)
    }
}

/// What each declared dependency resolves to where no lock file governs the
/// crate.
pub open spec fn spec_declared_steps(
    index: Map<Seq<char>, Option<IndexedCrateView>>,
    dependencies: Seq<ManifestDependencyView>,
    owner: Seq<char>,
) -> Seq<Result<StepView, ErrorView>> {
    dependencies.map_values(
        |dependency: ManifestDependencyView| spec_declared_step(index, dependency, owner),
    )
}

/// Resolves one dependency declared in the manifest of the crate `owner`,
/// which no lock file governs.
///
/// The dependency resolves to a crate exactly where it is declared neither by
/// path nor by git repository, the registry is known to hold the crate, and
/// the requirement selects one of its versions; the crate is then the
/// registry source at the selected version.
pub fn resolve_declared(dependency: &ManifestDependency, owner: &str, context: &ResolutionContext) -> (outcome:
    Result<Step, CarguixError>)
    ensures
        step_view(outcome) == spec_declared_step(context@.index, dependency@, owner@),
        outcome matches Ok(Step::Child(_)) <==> dependency@.path is None && dependency@.git is None
            && registry_selects(context@.index, dependency@.name, dependency@.requirement),
        outcome matches Ok(Step::Child(child)) ==> child@.source matches CrateSourceView::Registry(
            source,
        ) && known_entry(context@.index, dependency@.name) matches Some(entry) && is_selected_from(
            entry,
            dependency@.requirement,
            source,
        ),
{
    if dependency.path.is_some() || dependency.git.is_some() {
        Err(
            CarguixError::UnlockedDependency {
                dependency: dependency.name.clone(),
                owner: owner.to_string(),
            },
        )
    } else {
        resolve_requirement(dependency.name.as_str(), dependency.requirement.as_str(), context)
    }
}

impl Clone for PathSource {
    fn clone(&self) -> (copy: PathSource)
        ensures
            copy@ == self@,
    {
        PathSource {
            path: self.path.clone(),
            package: self.package.clone(),
            manifest: self.manifest.clone(),
            lock_source: match &self.lock_source {
                Some(lock_source) => Some(lock_source.clone()),
                None => None,
            },
            crate_paths: self.crate_paths.clone(),
        }
    }
}

/// The lock source of a local crate: none without a lock file, else the lock
/// file's record for the declared package, whatever its version.
pub open spec fn spec_own_lock_source(
    package: ManifestPackageView,
    lock: Option<CargoLockView>,
    working_dir: Seq<char>,
) -> Result<Option<LockSourceView>, ErrorView> {
    match lock {
        None => Ok(None),
        Some(lock) => match spec_lock_source(package.name, None, lock, Map::empty(), working_dir) {
            Ok(lock_source) => Ok(Some(lock_source)),
            Err(error) => Err(error),
        },
    }
}

/// The local crate in the directory `path` with the given manifest and lock
/// file. Its table of local paths is the inherited one with the paths that
/// the manifest declares written over it.
pub open spec fn spec_path_source(
    path: Seq<char>,
    manifest: ManifestView,
    lock: Option<CargoLockView>,
    crate_paths: Map<Seq<char>, LocalPathView>,
    working_dir: Seq<char>,
) -> Result<PathSourceView, ErrorView> {
    match manifest.package {
        None => Err(ErrorView::NoPackageInManifest(path)),
        Some(package) => match spec_own_lock_source(package, lock, working_dir) {
            Err(error) => Err(error),
            Ok(lock_source) => Ok(
                PathSourceView {
                    path,
                    package,
                    manifest,
                    lock_source,
                    crate_paths: spec_extend(crate_paths, manifest_paths(manifest, path)),
                },
            ),
        },
    }
}

/// The view of a constructor's outcome.
pub open spec fn path_outcome_view(outcome: Result<PathSource, CarguixError>) -> Result<
    PathSourceView,
    ErrorView,
> {
    match outcome {
        Ok(source) => Ok(source@),
        Err(error) => Err(error@),
    }
}

impl PathSource {
    /// The local crate that was loaded as `local`, with the inherited table
    /// of local paths `crate_paths`.
    pub fn new(local: &LocalCrate, crate_paths: &PathTable, working_dir: &str) -> (outcome: Result<
        PathSource,
        CarguixError,
    >)
        ensures
            path_outcome_view(outcome) == spec_path_source(
                local@.path,
                local@.manifest,
                local@.lock,
                crate_paths@,
                working_dir@,
            ),
    {
        let lock = match &local.lock {
            Some(lock) => Some(lock.clone()),
            None => None,
        };
        PathSource::new_with_manifest(
            local.path.as_str(),
            &local.manifest,
            lock,
            crate_paths,
            working_dir,
        )
    }

    /// The local crate in the directory `path`, with its parsed manifest and
    /// the lock file that governs it, if there is one.
    ///
    /// It fails with `NoPackageInManifest` where the manifest declares no
    /// package, and with `PackageNotFoundInLock` where the lock file has no
    /// record of the declared package.
    pub fn new_with_manifest(
        path: &str,
        manifest: &Manifest,
        lock: Option<CargoLock>,
        crate_paths: &PathTable,
        working_dir: &str,
    ) -> (outcome: Result<PathSource, CarguixError>)
        ensures
            path_outcome_view(outcome) == spec_path_source(
                path@,
                manifest@,
                match lock {
                    Some(lock) => Some(lock@),
                    None => None,
                },
                crate_paths@,
                working_dir@,
            ),
    {
        let package = match &manifest.package {
            Some(package) => package.clone(),
            None => {
                return Err(CarguixError::NoPackageInManifest(path.to_string()));
            },
        };
        let lock_source = match lock {
            Some(lock) => {
                let any_version: Option<String> = None;
                match LockSource::new(
                    package.name.as_str(),
                    &any_version,
                    Box::new(lock),
                    working_dir,
                ) {
                    Ok(lock_source) => Some(lock_source),
                    Err(error) => {
                        return Err(error);
                    },
                }
            },
            None => None,
        };
        let mut table = crate_paths.clone();
        let declared = manifest.declared_paths(path);
        table.extend(&declared);
        Ok(
            PathSource {
                path: path.to_string(),
                package,
                manifest: manifest.clone(),
                lock_source,
                crate_paths: table,
            },
        )
    }

    /// The crates that this crate depends on.
    ///
    /// The first dependency that fails, or that needs an answer that the
    /// context does not hold yet, decides the outcome.
    pub fn dependencies(&self, context: &ResolutionContext) -> (outcome: Result<
        Resolution,
        CarguixError,
    >)
        ensures
            resolution_view(outcome) == self@.dependencies(context@.index, context@.locals),
    {
        match &self.lock_source {
            Some(lock_source) => resolve_lock_entries(
                &lock_source.package.dependencies,
                self.package.name.as_str(),
                &*lock_source.manifest,
                &self.crate_paths,
                lock_source.working_dir.as_str(),
                context,
            ),
            None => {
                let declared = self.manifest.declared_dependencies();
                let ghost steps = spec_declared_steps(
                    context@.index,
                    dependency_views(declared@),
                    self.package.name@,
                );
                let mut children: Vec<CrateRef> = Vec::new();
                assert(steps.subrange(0, 0) =~= Seq::<Result<StepView, ErrorView>>::empty());
                assert(crate_views(children@) =~= Seq::<CrateRefView>::empty());
                for i in 0..declared.len()
                    invariant
                        self.lock_source is None,
                        dependency_views(declared@) == manifest_dependencies(self@.manifest),
                        steps == spec_declared_steps(
                            context@.index,
                            dependency_views(declared@),
                            self.package.name@,
                        ),
                        collect_steps(steps.subrange(0, i as int)) == Ok::<
                            ResolutionView,
                            ErrorView,
                        >(ResolutionView::Resolved(crate_views(children@))),
                {
                    let step = resolve_declared(&declared[i], self.package.name.as_str(), context);
                    proof {
                        let longer = steps.subrange(0, i + 1);
                        assert(longer.drop_last() =~= steps.subrange(0, i as int));
                        assert(dependency_views(declared@)[i as int] == declared@[i as int]@);
                        assert(longer.last() == step_view(step));
                    }
                    match step {
                        Ok(Step::Child(child)) => {
                            let ghost before = crate_views(children@);
                            children.push(child);
                            assert(crate_views(children@) =~= before.push(child@));
                        },
                        Ok(Step::Missing(lookup)) => {
                            proof {
                                lemma_collect_decided(steps, i + 1);
                            }
                            return Ok(Resolution::Missing(lookup));
                        },
                        Err(error) => {
                            proof {
                                lemma_collect_decided(steps, i + 1);
                            }
                            return Err(error);
                        },
                    }
                }
                assert(steps.subrange(0, steps.len() as int) =~= steps);
                Ok(Resolution::Resolved(children))
            },
        }
    }

    /// The crate's name, as the manifest declares it.
    pub fn crate_name(&self) -> (name: String)
        ensures
            name@ == self@.package.name,
    {
        self.package.name.clone()
    }

    /// The crate's package name.
    pub fn package_name(&self) -> (name: String)
        ensures
            name@ == self@.package_name(),
    {
        package_name(self.package.name.as_str(), self.package.version.as_str())
    }

    /// The crate's version, as the manifest declares it.
    pub fn version(&self) -> (version: String)
        ensures
            version@ == self@.package.version,
    {
        self.package.version.clone()
    }

    /// The crate's source locator.
    pub fn source(&self) -> (locator: String)
        ensures
            locator@ == self@.source(),
    {
        file_locator(self.path.as_str())
    }
}

} // verus!
