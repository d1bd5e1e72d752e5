//! What a resolution knows of the world outside: the registry entries and
//! the local crates that were looked up so far, each with what the lookup
//! found. A resolution never reads the world itself; where it needs an entry
//! that is not known yet it names the lookup, and goes on once the entry has
//! been recorded.

use vstd::prelude::*;
use crate::crate_ref::lock_source::{CargoLock, CargoLockView};
use crate::errors::{CarguixError, ErrorView};
use crate::manifest::{Manifest, ManifestView};
use crate::paths::{LocalPath, LocalPathView};
use crate::text::{same_text, texts};

verus! {

/// A dependency of a published version: the crate's name and the version
/// requirement.
#[derive(Debug, PartialEq, Eq)]
pub struct IndexedDependency {
    pub crate_name: String,
    pub requirement: String,
}

/// An indexed dependency over character sequences.
pub struct IndexedDependencyView {
    pub crate_name: Seq<char>,
    pub requirement: Seq<char>,
}

impl View for IndexedDependency {
    type V = IndexedDependencyView;

    open spec fn view(&self) -> IndexedDependencyView {
        IndexedDependencyView { crate_name: self.crate_name@, requirement: self.requirement@ }
    }
}

impl Clone for IndexedDependency {
    fn clone(&self) -> (copy: IndexedDependency)
        ensures
            copy@ == self@,
    {
        IndexedDependency {
            crate_name: self.crate_name.clone(),
            requirement: self.requirement.clone(),
        }
    }
}

/// One published version of a crate, with its dependencies.
#[derive(Debug, PartialEq, Eq)]
pub struct IndexedVersion {
    pub name: String,
    pub version: String,
    pub dependencies: Vec<IndexedDependency>,
}

/// A published version over character sequences.
pub struct IndexedVersionView {
    pub name: Seq<char>,
    pub version: Seq<char>,
    pub dependencies: Seq<IndexedDependencyView>,
}

impl View for IndexedVersion {
    type V = IndexedVersionView;

    open spec fn view(&self) -> IndexedVersionView {
        IndexedVersionView {
            name: self.name@,
            version: self.version@,
            dependencies: self.dependencies@.map_values(
                |dependency: IndexedDependency| dependency@,
            ),
        }
    }
}

impl Clone for IndexedVersion {
    fn clone(&self) -> (copy: IndexedVersion)
        ensures
            copy@ == self@,
    {
        let mut dependencies: Vec<IndexedDependency> = Vec::new();
        for i in 0..self.dependencies.len()
            invariant
                dependencies@.len() == i,
                forall|j: int| 0 <= j < i ==> dependencies@[j]@ == self.dependencies@[j]@,
        {
            dependencies.push(self.dependencies[i].clone());
        }
        let copy = IndexedVersion {
            name: self.name.clone(),
            version: self.version.clone(),
            dependencies,
        };
        assert(copy@.dependencies =~= self@.dependencies);
        copy
    }
}

/// The registry's entry for one crate: its published versions in the order of
/// publication, the most recent one last.
#[derive(Debug, PartialEq, Eq)]
pub struct IndexedCrate {
    pub name: String,
    pub versions: Vec<IndexedVersion>,
}

/// A registry entry over character sequences.
pub struct IndexedCrateView {
    pub name: Seq<char>,
    pub versions: Seq<IndexedVersionView>,
}

impl IndexedCrateView {
    /// The version strings of the entry, in its order.
    pub open spec fn version_texts(self) -> Seq<Seq<char>> {
        self.versions.map_values(|version: IndexedVersionView| version.version)
    }
}

impl View for IndexedCrate {
    type V = IndexedCrateView;

    open spec fn view(&self) -> IndexedCrateView {
        IndexedCrateView {
            name: self.name@,
            versions: self.versions@.map_values(|version: IndexedVersion| version@),
        }
    }
}

impl IndexedCrate {
    /// The version strings of the entry, in its order.
    pub fn version_texts(&self) -> (versions: Vec<String>)
        ensures
            texts(versions@) == self@.version_texts(),
    {
        let mut versions: Vec<String> = Vec::new();
        for i in 0..self.versions.len()
            invariant
                versions@.len() == i,
                forall|j: int| 0 <= j < i ==> versions@[j]@ == self.versions@[j].version@,
        {
            versions.push(self.versions[i].version.clone());
        }
        assert(texts(versions@) =~= self@.version_texts());
        versions
    }
}

/// A crate of the local file system, as it was loaded: its directory in
/// canonical form, its manifest, and the lock file found in that directory or
/// the nearest directory above it that has one.
#[derive(Debug, PartialEq, Eq)]
pub struct LocalCrate {
    pub path: String,
    pub manifest: Manifest,
    pub lock: Option<CargoLock>,
}

/// A loaded local crate over character sequences.
pub struct LocalCrateView {
    pub path: Seq<char>,
    pub manifest: ManifestView,
    pub lock: Option<CargoLockView>,
}

impl View for LocalCrate {
    type V = LocalCrateView;

    open spec fn view(&self) -> LocalCrateView {
        LocalCrateView {
            path: self.path@,
            manifest: self.manifest@,
            lock: match self.lock {
                Some(lock) => Some(lock@),
                None => None,
            },
        }
    }
}

/// The view of what loading a local crate gave.
pub open spec fn loaded_view(loaded: Result<LocalCrate, CarguixError>) -> Result<
    LocalCrateView,
    ErrorView,
> {
    match loaded {
        Ok(local) => Ok(local@),
        Err(error) => Err(error@),
    }
}

/// The view of what a registry lookup gave.
pub open spec fn found_view(found: Option<IndexedCrate>) -> Option<IndexedCrateView> {
    match found {
        Some(entry) => Some(entry@),
        None => None,
    }
}

/// Something a resolution needs to know and does not know yet.
#[derive(Debug, PartialEq, Eq)]
pub enum Lookup {
    /// The registry's entry for the crate of this name.
    IndexedCrate(String),
    /// The local crate at this declared path.
    LocalCrate(LocalPath),
    /// The content hash of what this locator refers to.
    Hash(String),
}

/// A lookup over character sequences.
pub enum LookupView {
    IndexedCrate(Seq<char>),
    LocalCrate(LocalPathView),
    Hash(Seq<char>),
}

impl View for Lookup {
    type V = LookupView;

    open spec fn view(&self) -> LookupView {
        match self {
            Lookup::IndexedCrate(name) => LookupView::IndexedCrate(name@),
            Lookup::LocalCrate(path) => LookupView::LocalCrate(path@),
            Lookup::Hash(locator) => LookupView::Hash(locator@),
        }
    }
}

/// The recorded answer of one registry lookup.
#[derive(Debug, PartialEq, Eq)]
pub struct IndexRecord {
    pub name: String,
    pub found: Option<IndexedCrate>,
}

/// The recorded answer of one lookup of a local crate.
#[derive(Debug, PartialEq, Eq)]
pub struct LocalRecord {
    pub path: LocalPath,
    pub loaded: Result<LocalCrate, CarguixError>,
}

/// What the records of registry lookups say, a later record for a name
/// replacing an earlier one.
pub open spec fn index_of_records(records: Seq<IndexRecord>) -> Map<
    Seq<char>,
    Option<IndexedCrateView>,
>
    decreases records.len(),
{
    if records.len() == 0 {
        Map::empty()
    } else {
        index_of_records(records.drop_last()).insert(
            records.last().name@,
            found_view(records.last().found),
        )
    }
}

/// What the records of local lookups say, a later record for a path replacing
/// an earlier one.
pub open spec fn locals_of_records(records: Seq<LocalRecord>) -> Map<
    LocalPathView,
    Result<LocalCrateView, ErrorView>,
>
    decreases records.len(),
{
    if records.len() == 0 {
        Map::empty()
    } else {
        locals_of_records(records.drop_last()).insert(
            records.last().path@,
            loaded_view(records.last().loaded),
        )
    }
}

/// What is known so far.
#[derive(Debug, PartialEq, Eq)]
pub struct ResolutionContext {
    index: Vec<IndexRecord>,
    locals: Vec<LocalRecord>,
}

/// The knowledge of a context: for each crate name that was looked up in the
/// registry the entry found or `None`, and for each declared path that was
/// loaded the crate found there or the failure.
pub struct ContextView {
    pub index: Map<Seq<char>, Option<IndexedCrateView>>,
    pub locals: Map<LocalPathView, Result<LocalCrateView, ErrorView>>,
}

impl View for ResolutionContext {
    type V = ContextView;

    closed spec fn view(&self) -> ContextView {
        ContextView {
            index: index_of_records(self.index@),
            locals: locals_of_records(self.locals@),
        }
    }
}

impl ResolutionContext {
    /// A context that knows nothing yet.
    pub fn new() -> (context: ResolutionContext)
        ensures
            context@ == (ContextView { index: Map::empty(), locals: Map::empty() }),
    {
        ResolutionContext { index: Vec::new(), locals: Vec::new() }
    }

    /// Records what the registry holds for the crate `name`: its entry, or
    /// `None` where it has no crate of that name.
    pub fn record_indexed_crate(&mut self, name: &str, found: Option<IndexedCrate>)
        ensures
            final(self)@ == (ContextView {
                index: old(self)@.index.insert(name@, found_view(found)),
                ..old(self)@
            }),
    {
        let ghost before = self.index@;
        self.index.push(IndexRecord { name: name.to_string(), found });
        assert(self.index@.drop_last() =~= before);
    }

    /// Records what loading the local crate at `path` gave.
    pub fn record_local_crate(&mut self, path: LocalPath, loaded: Result<LocalCrate, CarguixError>)
        ensures
            final(self)@ == (ContextView {
                locals: old(self)@.locals.insert(path@, loaded_view(loaded)),
                ..old(self)@
            }),
    {
        let ghost before = self.locals@;
        self.locals.push(LocalRecord { path, loaded });
        assert(self.locals@.drop_last() =~= before);
    }

    /// The recorded answer of the registry lookup for `name`, if there is one.
    pub fn indexed_crate(&self, name: &str) -> (record: Option<&Option<IndexedCrate>>)
        ensures
            match record {
                Some(found) => self@.index.contains_key(name@) && self@.index[name@] == found_view(
                    *found,
                ),
                None => !self@.index.contains_key(name@),
            },
    {
        let ghost all = self.index@;
        let mut i = self.index.len();
        assert(all.subrange(0, i as int) =~= all);
        while i > 0
            invariant
                i <= self.index@.len(),
                all == self.index@,
                self@.index.contains_key(name@) == index_of_records(
                    all.subrange(0, i as int),
                ).contains_key(name@),
                self@.index.contains_key(name@) ==> self@.index[name@] == index_of_records(
                    all.subrange(0, i as int),
                )[name@],
            decreases i,
        {
            proof {
                let prefix = all.subrange(0, i as int);
                assert(prefix.drop_last() =~= all.subrange(0, i - 1));
                assert(prefix.last() == all[i - 1]);
            }
            i -= 1;
            if same_text(self.index[i].name.as_str(), name) {
                return Some(&self.index[i].found);
            }
        }
        assert(all.subrange(0, 0) =~= Seq::<IndexRecord>::empty());
        None
    }

    /// The recorded answer of the lookup of the local crate at `path`, if there
    /// is one.
    pub fn local_crate(&self, path: &LocalPath) -> (record: Option<
        &Result<LocalCrate, CarguixError>,
    >)
        ensures
            match record {
                Some(loaded) => self@.locals.contains_key(path@) && self@.locals[path@]
                    == loaded_view(*loaded),
                None => !self@.locals.contains_key(path@),
            },
    {
        let ghost all = self.locals@;
        let mut i = self.locals.len();
        assert(all.subrange(0, i as int) =~= all);
        while i > 0
            invariant
                i <= self.locals@.len(),
                all == self.locals@,
                self@.locals.contains_key(path@) == locals_of_records(
                    all.subrange(0, i as int),
                ).contains_key(path@),
                self@.locals.contains_key(path@) ==> self@.locals[path@] == locals_of_records(
                    all.subrange(0, i as int),
                )[path@],
            decreases i,
        {
            proof {
                let prefix = all.subrange(0, i as int);
                assert(prefix.drop_last() =~= all.subrange(0, i - 1));
                assert(prefix.last() == all[i - 1]);
            }
            i -= 1;
            if self.locals[i].path.same_as(path) {
                return Some(&self.locals[i].loaded);
            }
        }
        assert(all.subrange(0, 0) =~= Seq::<LocalRecord>::empty());
        None
    }
}

} // verus!
