//! Crates pinned by a lock file: the lock file's records, and the source that
//! stands for one record together with the whole lock file.

use vstd::prelude::*;
use crate::context::{ContextView, LocalCrateView, Lookup, LookupView, ResolutionContext};
use crate::crate_ref::path_source::{spec_path_source, PathSource};
use crate::crate_ref::{
    collect_steps, crate_views, lemma_collect_decided, lemma_collect_first_failure,
    resolution_view, step_view, CrateRef, CrateRefView, CrateSource, CrateSourceView, Resolution,
    ResolutionView, Step, StepView,
};
use crate::errors::{CarguixError, ErrorView};
use crate::naming::{
    file_locator, package_name, registry_locator, spec_file_locator, spec_package_name,
    spec_registry_locator,
};
use crate::paths::{LocalPathView, PathTable};
use crate::text::{copy_optional, copy_strings, optional_text, spec_tokens, texts, tokens};

verus! {

/// One record of a lock file: a crate at an exact version, the tag of the
/// source it was locked from, where it has one, and its dependency entries as
/// the lock file writes them.
#[derive(Debug, PartialEq, Eq)]
pub struct CargoLockPackage {
    pub name: String,
    pub version: String,
    pub source: Option<String>,
    pub dependencies: Vec<String>,
}

/// A lock record over character sequences.
pub struct CargoLockPackageView {
    pub name: Seq<char>,
    pub version: Seq<char>,
    pub source: Option<Seq<char>>,
    pub dependencies: Seq<Seq<char>>,
}

impl View for CargoLockPackage {
    type V = CargoLockPackageView;

    open spec fn view(&self) -> CargoLockPackageView {
        CargoLockPackageView {
            name: self.name@,
            version: self.version@,
            source: optional_text(self.source),
            dependencies: texts(self.dependencies@),
        }
    }
}

impl Clone for CargoLockPackage {
    fn clone(&self) -> (copy: CargoLockPackage)
        ensures
            copy@ == self@,
    {
        CargoLockPackage {
            name: self.name.clone(),
            version: self.version.clone(),
            source: copy_optional(&self.source),
            dependencies: copy_strings(&self.dependencies),
        }
    }
}

/// The views of a sequence of lock records.
pub open spec fn record_views(records: Seq<CargoLockPackage>) -> Seq<CargoLockPackageView> {
    records.map_values(|record: CargoLockPackage| record@)
}

/// A parsed lock file: its records, in the file's order.
#[derive(Debug, PartialEq, Eq)]
pub struct CargoLock {
    pub package: Vec<CargoLockPackage>,
}

/// A lock file over character sequences.
pub struct CargoLockView {
    pub package: Seq<CargoLockPackageView>,
}

impl View for CargoLock {
    type V = CargoLockView;

    open spec fn view(&self) -> CargoLockView {
        CargoLockView { package: record_views(self.package@) }
    }
}

impl Clone for CargoLock {
    fn clone(&self) -> (copy: CargoLock)
        ensures
            copy@ == self@,
    {
        let mut package: Vec<CargoLockPackage> = Vec::new();
        for i in 0..self.package.len()
            invariant
                package@.len() == i,
                forall|j: int| 0 <= j < i ==> package@[j]@ == self.package@[j]@,
        {
            package.push(self.package[i].clone());
        }
        assert(record_views(package@) =~= record_views(self.package@));
        CargoLock { package }
    }
}

/// Whether a lock record is the one asked for: it has the name, and the
/// version where one is asked for.
pub open spec fn record_matches(
    record: CargoLockPackageView,
    crate_name: Seq<char>,
    version: Option<Seq<char>>,
) -> bool {
    &&& record.name == crate_name
    &&& match version {
        Some(version) => record.version == version,
        None => true,
    }
}

/// The position of the first record asked for, if the lock file has one.
pub open spec fn first_record(
    records: Seq<CargoLockPackageView>,
    crate_name: Seq<char>,
    version: Option<Seq<char>>,
) -> Option<int>
    decreases records.len(),
{
    if records.len() == 0 {
        None
    } else {
        match first_record(records.drop_last(), crate_name, version) {
            Some(i) => Some(i),
            None => if record_matches(records.last(), crate_name, version) {
                Some(records.len() - 1)
            } else {
                None
            },
        }
    }
}

/// `first_record` finds a record that is asked for and that no such record
/// precedes, and finds none only where no record is asked for.
pub proof fn lemma_first_record(
    records: Seq<CargoLockPackageView>,
    crate_name: Seq<char>,
    version: Option<Seq<char>>,
)
    ensures
        match first_record(records, crate_name, version) {
            Some(i) => {
                &&& 0 <= i < records.len()
                &&& record_matches(records[i], crate_name, version)
                &&& forall|j: int|
                    0 <= j < i ==> !record_matches(#[trigger] records[j], crate_name, version)
            },
            None => forall|j: int|
                0 <= j < records.len() ==> !record_matches(
                    #[trigger] records[j],
                    crate_name,
                    version,
                ),
        },
    decreases records.len(),
{
    if records.len() > 0 {
        let shorter = records.drop_last();
        lemma_first_record(shorter, crate_name, version);
        assert forall|j: int| 0 <= j < shorter.len() implies shorter[j] == records[j] by {}
        match first_record(shorter, crate_name, version) {
            Some(i) => {
                assert forall|j: int| 0 <= j < i implies !record_matches(
                    #[trigger] records[j],
                    crate_name,
                    version,
                ) by {
                    assert(shorter[j] == records[j]);
                }
            },
            None => {
                assert forall|j: int| 0 <= j < shorter.len() implies !record_matches(
                    #[trigger] records[j],
                    crate_name,
                    version,
                ) by {
                    assert(shorter[j] == records[j]);
                }
            },
        }
    }
}

/// The version named where the lock file has no record: the version asked
/// for, or `any version`.
pub open spec fn asked_version(version: Option<Seq<char>>) -> Seq<char> {
    match version {
        Some(version) => version,
        None => "any version"@,
    }
}

/// One record of a lock file, with the lock file it belongs to, which its
/// dependencies are resolved against, and the table of local paths for the
/// dependencies that the registry does not hold.
#[derive(Debug, PartialEq, Eq)]
pub struct LockSource {
    pub crate_name: String,
    pub version: String,
    pub package: CargoLockPackage,
    pub manifest: Box<CargoLock>,
    pub crate_paths: PathTable,
    /// The directory that stands for the record's source where the lock file
    /// names none.
    pub working_dir: String,
}

/// A lock source over character sequences.
pub struct LockSourceView {
    pub crate_name: Seq<char>,
    pub version: Seq<char>,
    pub package: CargoLockPackageView,
    pub manifest: CargoLockView,
    pub crate_paths: Map<Seq<char>, LocalPathView>,
    pub working_dir: Seq<char>,
}

impl LockSourceView {
    /// The package name: the crate's name in kebab case, a hyphen, the
    /// record's version.
    pub open spec fn package_name(self) -> Seq<char> {
        spec_package_name(self.crate_name, self.package.version)
    }

    /// What enumerating the record's dependencies gives, for the local crates
    /// that are known. The crates depended on inherit the working directory.
    pub open spec fn dependencies(
        self,
        locals: Map<LocalPathView, Result<LocalCrateView, ErrorView>>,
    ) -> Result<ResolutionView, ErrorView> {
        collect_steps(
            spec_lock_steps(
                self.package.dependencies,
                self.crate_name,
                self.manifest,
                self.crate_paths,
                self.working_dir,
                locals,
            ),
        )
    }

    /// The source locator: the registry's download address where the record
    /// has a source tag, the working directory where it has none.
    pub open spec fn source(self) -> Seq<char> {
        if self.package.source is Some {
            spec_registry_locator(self.crate_name, self.package.version)
        } else {
            spec_file_locator(self.working_dir)
        }
    }
}

impl View for LockSource {
    type V = LockSourceView;

    open spec fn view(&self) -> LockSourceView {
        LockSourceView {
            crate_name: self.crate_name@,
            version: self.version@,
            package: self.package@,
            manifest: self.manifest@,
            crate_paths: self.crate_paths@,
            working_dir: self.working_dir@,
        }
    }
}

impl Clone for LockSource {
    fn clone(&self) -> (copy: LockSource)
        ensures
            copy@ == self@,
    {
        LockSource {
            crate_name: self.crate_name.clone(),
            version: self.version.clone(),
            package: self.package.clone(),
            manifest: Box::new((*self.manifest).clone()),
            crate_paths: self.crate_paths.clone(),
            working_dir: self.working_dir.clone(),
        }
    }
}

/// The lock source for a crate name and an optional version, or the failure
/// that names what the lock file lacks.
pub open spec fn spec_lock_source(
    crate_name: Seq<char>,
    version: Option<Seq<char>>,
    manifest: CargoLockView,
    crate_paths: Map<Seq<char>, LocalPathView>,
    working_dir: Seq<char>,
) -> Result<LockSourceView, ErrorView> {
    match first_record(manifest.package, crate_name, version) {
        Some(i) => Ok(
            LockSourceView {
                crate_name,
                version: manifest.package[i].version,
                package: manifest.package[i],
                manifest,
                crate_paths,
                working_dir,
            },
        ),
        None => Err(ErrorView::PackageNotFoundInLock(crate_name, asked_version(version))),
    }
}

/// A found record stays the first one when records are added behind it.
pub proof fn lemma_first_record_of_prefix(
    records: Seq<CargoLockPackageView>,
    crate_name: Seq<char>,
    version: Option<Seq<char>>,
    length: int,
)
    requires
        0 <= length <= records.len(),
        first_record(records.subrange(0, length), crate_name, version) is Some,
    ensures
        first_record(records, crate_name, version) == first_record(
            records.subrange(0, length),
            crate_name,
            version,
        ),
    decreases records.len() - length,
{
    if length < records.len() {
        let longer = records.subrange(0, length + 1);
        assert(longer.drop_last() =~= records.subrange(0, length));
        lemma_first_record_of_prefix(records, crate_name, version, length + 1);
    } else {
        assert(records.subrange(0, length) =~= records);
    }
}

/// What one dependency entry of a lock record resolves to.
///
/// An entry is read as its tokens, the runs of characters between white
/// space. Three tokens (a name, a version and a source tag) stand for the
/// record of the same lock file with that name and version. Two tokens (a
/// name and a version) stand for a local crate, found through the table of
/// local paths; a name without a line in the table is a failure. Any other
/// number of tokens is a malformed entry.
pub open spec fn spec_lock_step(
    entry: Seq<char>,
    owner: Seq<char>,
    manifest: CargoLockView,
    crate_paths: Map<Seq<char>, LocalPathView>,
    working_dir: Seq<char>,
    locals: Map<LocalPathView, Result<LocalCrateView, ErrorView>>,
) -> Result<StepView, ErrorView> {
    let pieces = spec_tokens(entry);
    if pieces.len() == 3 {
        match spec_lock_source(pieces[0], Some(pieces[1]), manifest, crate_paths, working_dir) {
            Ok(source) => Ok(
                StepView::Child(
                    CrateRefView { crate_name: pieces[0], source: CrateSourceView::Lock(source) },
                ),
            ),
            Err(error) => Err(error),
        }
    } else if pieces.len() == 2 {
        if !crate_paths.contains_key(pieces[0]) {
            Err(ErrorView::CratePathNotFound { dependency: pieces[0], owner })
        } else if !locals.contains_key(crate_paths[pieces[0]]) {
            Ok(StepView::Missing(LookupView::LocalCrate(crate_paths[pieces[0]])))
        } else {
            match locals[crate_paths[pieces[0]]] {
                Err(error) => Err(error),
                Ok(local) => match spec_path_source(
                    local.path,
                    local.manifest,
                    local.lock,
                    crate_paths,
                    working_dir,
                ) {
                    Ok(source) => Ok(
                        StepView::Child(
                            CrateRefView {
                                crate_name: source.package.name,
                                source: CrateSourceView::Path(source),
                            },
                        ),
                    ),
                    Err(error) => Err(error),
                },
            }
        }
    } else {
        Err(ErrorView::BadLockFileDependency(entry))
    }
}

/// What each of the dependency entries of a lock record resolves to.
pub open spec fn spec_lock_steps(
    entries: Seq<Seq<char>>,
    owner: Seq<char>,
    manifest: CargoLockView,
    crate_paths: Map<Seq<char>, LocalPathView>,
    working_dir: Seq<char>,
    locals: Map<LocalPathView, Result<LocalCrateView, ErrorView>>,
) -> Seq<Result<StepView, ErrorView>> {
    entries.map_values(
        |entry: Seq<char>| spec_lock_step(entry, owner, manifest, crate_paths, working_dir, locals),
    )
}

/// An entry of three tokens, for which the lock file has a record, resolves
/// to a lock source of the crate and at the version that the entry names.
pub proof fn lemma_tagged_entry_resolves_in_the_lock_file(
    entry: Seq<char>,
    owner: Seq<char>,
    manifest: CargoLockView,
    crate_paths: Map<Seq<char>, LocalPathView>,
    working_dir: Seq<char>,
    locals: Map<LocalPathView, Result<LocalCrateView, ErrorView>>,
)
    requires
        spec_tokens(entry).len() == 3,
        first_record(
            manifest.package,
            spec_tokens(entry)[0],
            Some(spec_tokens(entry)[1]),
        ) is Some,
    ensures
        spec_lock_step(entry, owner, manifest, crate_paths, working_dir, locals) matches Ok(
            StepView::Child(child),
        ) && child.source is Lock && child.crate_name() == spec_tokens(entry)[0]
            && child.version() == spec_tokens(entry)[1],
{
    let pieces = spec_tokens(entry);
    lemma_first_record(manifest.package, pieces[0], Some(pieces[1]));
}

/// An entry of two tokens is resolved through the table of local paths and
/// the local crates alone: the lock file has no part in it.
pub proof fn lemma_untagged_entry_ignores_the_lock_file(
    entry: Seq<char>,
    owner: Seq<char>,
    manifest: CargoLockView,
    other_manifest: CargoLockView,
    crate_paths: Map<Seq<char>, LocalPathView>,
    working_dir: Seq<char>,
    locals: Map<LocalPathView, Result<LocalCrateView, ErrorView>>,
)
    requires
        spec_tokens(entry).len() == 2,
    ensures
        spec_lock_step(entry, owner, manifest, crate_paths, working_dir, locals) == spec_lock_step(
            entry,
            owner,
            other_manifest,
            crate_paths,
            working_dir,
            locals,
        ),
{
}

/// A malformed entry, one of neither two nor three tokens, makes the
/// enumeration of a lock source's dependencies fail where every entry before
/// it resolves to a crate; and the failure that the reference to the crate
/// hands on names the crate and its version as the owner of the entry.
pub proof fn lemma_malformed_entry_fails(source: LockSourceView, context: ContextView, at: int)
    requires
        0 <= at < source.package.dependencies.len(),
        spec_tokens(source.package.dependencies[at]).len() != 2,
        spec_tokens(source.package.dependencies[at]).len() != 3,
        forall|i: int|
            0 <= i < at ==> spec_lock_step(
                #[trigger] source.package.dependencies[i],
                source.crate_name,
                source.manifest,
                source.crate_paths,
                source.working_dir,
                context.locals,
            ) matches Ok(StepView::Child(_)),
    ensures
        source.dependencies(context.locals) == Err::<ResolutionView, ErrorView>(
            ErrorView::BadLockFileDependency(source.package.dependencies[at]),
        ),
        (CrateRefView {
            crate_name: source.crate_name,
            source: CrateSourceView::Lock(source),
        }).dependencies(context) == Err::<ResolutionView, ErrorView>(
            ErrorView::DependencyProcessingFailed(
                Box::new(ErrorView::BadLockFileDependency(source.package.dependencies[at])),
                source.crate_name,
                source.package.version,
            ),
        ),
{
    let entries = source.package.dependencies;
    let steps = spec_lock_steps(
        entries,
        source.crate_name,
        source.manifest,
        source.crate_paths,
        source.working_dir,
        context.locals,
    );
    assert forall|i: int| 0 <= i < at implies (#[trigger] steps[i]) matches Ok(
        StepView::Child(_),
    ) by {
        assert(steps[i] == spec_lock_step(
            entries[i],
            source.crate_name,
            source.manifest,
            source.crate_paths,
            source.working_dir,
            context.locals,
        ));
    }
    lemma_collect_first_failure(steps, at, ErrorView::BadLockFileDependency(entries[at]));
}

/// Resolves one dependency entry of a lock record of the crate `owner`.
pub fn resolve_lock_entry(
    entry: &str,
    owner: &str,
    manifest: &CargoLock,
    crate_paths: &PathTable,
    working_dir: &str,
    context: &ResolutionContext,
) -> (outcome: Result<Step, CarguixError>)
    ensures
        step_view(outcome) == spec_lock_step(
            entry@,
            owner@,
            manifest@,
            crate_paths@,
            working_dir@,
            context@.locals,
        ),
{
    let pieces = tokens(entry);
    if pieces.len() == 3 {
        let name = pieces[0].as_str();
        let version = Some(pieces[1].clone());
        match LockSource::new_with_manifest(
            name,
            &version,
            Box::new(manifest.clone()),
            crate_paths,
            working_dir,
        ) {
            Ok(source) => Ok(Step::Child(CrateRef::new(name, CrateSource::Lock(source)))),
            Err(error) => Err(error),
        }
    } else if pieces.len() == 2 {
        let name = pieces[0].as_str();
        match crate_paths.get(name) {
            None => Err(
                CarguixError::CratePathNotFound {
                    dependency: name.to_string(),
                    owner: owner.to_string(),
                },
            ),
            Some(path) => match context.local_crate(&path) {
                None => Ok(Step::Missing(Lookup::LocalCrate(path))),
                Some(Err(error)) => Err(error.clone()),
                Some(Ok(local)) => match PathSource::new(local, crate_paths, working_dir) {
                    Ok(source) => {
                        let crate_name = source.crate_name();
                        Ok(
                            Step::Child(
                                CrateRef::new(crate_name.as_str(), CrateSource::Path(source)),
                            ),
                        )
                    },
                    Err(error) => Err(error),
                },
            },
        }
    } else {
        Err(CarguixError::BadLockFileDependency(entry.to_string()))
    }
}

/// Resolves the dependency entries of a lock record of the crate `owner`, one
/// after another, against the lock file `manifest`.
pub fn resolve_lock_entries(
    entries: &Vec<String>,
    owner: &str,
    manifest: &CargoLock,
    crate_paths: &PathTable,
    working_dir: &str,
    context: &ResolutionContext,
) -> (outcome: Result<Resolution, CarguixError>)
    ensures
        resolution_view(outcome) == collect_steps(
            spec_lock_steps(
                texts(entries@),
                owner@,
                manifest@,
                crate_paths@,
                working_dir@,
                context@.locals,
            ),
        ),
{
    let ghost steps = spec_lock_steps(
        texts(entries@),
        owner@,
        manifest@,
        crate_paths@,
        working_dir@,
        context@.locals,
    );
    let mut children: Vec<CrateRef> = Vec::new();
    assert(steps.subrange(0, 0) =~= Seq::<Result<StepView, ErrorView>>::empty());
    assert(crate_views(children@) =~= Seq::<CrateRefView>::empty());
    for i in 0..entries.len()
        invariant
            steps == spec_lock_steps(
                texts(entries@),
                owner@,
                manifest@,
                crate_paths@,
                working_dir@,
                context@.locals,
            ),
            collect_steps(steps.subrange(0, i as int)) == Ok::<ResolutionView, ErrorView>(
                ResolutionView::Resolved(crate_views(children@)),
            ),
    {
        let step = resolve_lock_entry(
            entries[i].as_str(),
            owner,
            manifest,
            crate_paths,
            working_dir,
            context,
        );
        proof {
            let longer = steps.subrange(0, i + 1);
            assert(longer.drop_last() =~= steps.subrange(0, i as int));
            assert(longer.last() == step_view(step));
        }
        match step {
            Ok(Step::Child(child)) => {
                let ghost before = crate_views(children@);
                children.push(child);
                assert(crate_views(children@) =~= before.push(child@));
            },
            Ok(Step::Missing(lookup)) => {
                proof {
                    lemma_collect_decided(steps, i + 1);
                }
                return Ok(Resolution::Missing(lookup));
            },
            Err(error) => {
                proof {
                    lemma_collect_decided(steps, i + 1);
                }
                return Err(error);
            },
        }
    }
    assert(steps.subrange(0, entries@.len() as int) =~= steps);
    Ok(Resolution::Resolved(children))
}

impl LockSource {
    /// The crates that the record depends on.
    ///
    /// Every dependency entry of the record is resolved, in order; the first
    /// entry that fails, or that needs a local crate that the context does
    /// not know, decides the outcome.
    pub fn dependencies(&self, context: &ResolutionContext) -> (outcome: Result<
        Resolution,
        CarguixError,
    >)
        ensures
            resolution_view(outcome) == self@.dependencies(context@.locals),
    {
        resolve_lock_entries(
            &self.package.dependencies,
            self.crate_name.as_str(),
            &*self.manifest,
            &self.crate_paths,
            self.working_dir.as_str(),
            context,
        )
    }

    /// The source for the first record of `manifest` that has the name
    /// `crate_name`, with no table of local paths.
    pub fn new(
        crate_name: &str,
        version: &Option<String>,
        manifest: Box<CargoLock>,
        working_dir: &str,
    ) -> (outcome: Result<LockSource, CarguixError>)
        ensures
            match outcome {
                Ok(source) => spec_lock_source(
                    crate_name@,
                    optional_text(*version),
                    manifest@,
                    Map::empty(),
                    working_dir@,
                ) == Ok::<LockSourceView, ErrorView>(source@),
                Err(error) => spec_lock_source(
                    crate_name@,
                    optional_text(*version),
                    manifest@,
                    Map::empty(),
                    working_dir@,
                ) == Err::<LockSourceView, ErrorView>(error@),
            },
    {
        let crate_paths = PathTable::new();
        LockSource::new_with_manifest(crate_name, version, manifest, &crate_paths, working_dir)
    }

    /// The source for the first record of `manifest` that has the name
    /// `crate_name` and, where `version` is given, that version.
    ///
    /// It fails with `PackageNotFoundInLock` exactly where the lock file has
    /// no such record.
    pub fn new_with_manifest(
        crate_name: &str,
        version: &Option<String>,
        manifest: Box<CargoLock>,
        crate_paths: &PathTable,
        working_dir: &str,
    ) -> (outcome: Result<LockSource, CarguixError>)
        ensures
            match outcome {
                Ok(source) => spec_lock_source(
                    crate_name@,
                    optional_text(*version),
                    manifest@,
                    crate_paths@,
                    working_dir@,
                ) == Ok::<LockSourceView, ErrorView>(source@),
                Err(error) => spec_lock_source(
                    crate_name@,
                    optional_text(*version),
                    manifest@,
                    crate_paths@,
                    working_dir@,
                ) == Err::<LockSourceView, ErrorView>(error@),
            },
    {
        let ghost records = manifest@.package;
        let ghost asked = optional_text(*version);
        let wanted_name = crate_name.to_string();
        assert(records.subrange(0, 0) =~= Seq::<CargoLockPackageView>::empty());
        for i in 0..manifest.package.len()
            invariant
                records == manifest@.package,
                asked == optional_text(*version),
                wanted_name@ == crate_name@,
                first_record(records.subrange(0, i as int), crate_name@, asked) is None,
        {
            let record = &manifest.package[i];
            let matches = record.name == wanted_name && match version {
                Some(version) => record.version == *version,
                None => true,
            };
            proof {
                let longer = records.subrange(0, i + 1);
                assert(longer.drop_last() =~= records.subrange(0, i as int));
                assert(longer.last() == record@);
            }
            if matches {
                proof {
                    lemma_first_record_of_prefix(records, crate_name@, asked, i + 1);
                }
                let package = record.clone();
                return Ok(
                    LockSource {
                        crate_name: wanted_name,
                        version: package.version.clone(),
                        package,
                        manifest,
                        crate_paths: crate_paths.clone(),
                        working_dir: working_dir.to_string(),
                    },
                );
            }
        }
        assert(records.subrange(0, records.len() as int) =~= records);
        let asked_for = match version {
            Some(version) => version.clone(),
            None => "any version".to_string(),
        };
        Err(CarguixError::PackageNotFoundInLock(wanted_name, asked_for))
    }

    /// The crate's name.
    pub fn crate_name(&self) -> (name: String)
        ensures
            name@ == self@.crate_name,
    {
        self.crate_name.clone()
    }

    /// The crate's package name.
    pub fn package_name(&self) -> (name: String)
        ensures
            name@ == self@.package_name(),
    {
        package_name(self.crate_name.as_str(), self.package.version.as_str())
    }

    /// The version that the record pins.
    pub fn version(&self) -> (version: String)
        ensures
            version@ == self@.package.version,
    {
        self.package.version.clone()
    }

    /// The crate's source locator.
    pub fn source(&self) -> (locator: String)
        ensures
            locator@ == self@.source(),
    {
        if self.package.source.is_some() {
            registry_locator(self.crate_name.as_str(), self.package.version.as_str())
        } else {
            file_locator(self.working_dir.as_str())
        }
    }
}

} // verus!
