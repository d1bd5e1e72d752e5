//! Crates that were resolved beforehand: a name, a version, a locator and the
//! list of the crates they depend on, with nothing left to look up.

use vstd::prelude::*;
use crate::crate_ref::{
    crate_views, resolution_view, CrateRef, CrateRefView, CrateSource, CrateSourceView, Resolution,
    ResolutionView,
};
use crate::errors::{CarguixError, ErrorView};
use crate::naming::{package_name, spec_package_name};

verus! {

/// A crate resolved beforehand, with its dependencies resolved likewise.
#[derive(Debug, PartialEq, Eq)]
pub struct SimpleSource {
    crate_name: String,
    version: String,
    source: String,
    dependencies: Vec<SimpleSource>,
}

/// A resolved crate over character sequences.
pub struct SimpleSourceView {
    pub crate_name: Seq<char>,
    pub version: Seq<char>,
    pub source: Seq<char>,
    pub dependencies: Seq<SimpleSourceView>,
}

impl SimpleSourceView {
    /// The package name: the crate's name in kebab case, a hyphen, the
    /// version.
    pub open spec fn package_name(self) -> Seq<char> {
        spec_package_name(self.crate_name, self.version)
    }

    /// The crates depended on, each as a reference to a resolved crate.
    pub open spec fn children(self) -> Seq<CrateRefView> {
        self.dependencies.map_values(
            |dependency: SimpleSourceView|
                CrateRefView {
                    crate_name: dependency.crate_name,
                    source: CrateSourceView::Simple(dependency),
                },
        )
    }
}

/// The view of a resolved crate: its strings as character sequences, its
/// dependencies viewed in the same way.
pub closed spec fn simple_view(source: SimpleSource) -> SimpleSourceView
    decreases source,
{
    SimpleSourceView {
        crate_name: source.crate_name@,
        version: source.version@,
        source: source.source@,
        dependencies: Seq::new(
            source.dependencies@.len(),
            |i: int|
                if 0 <= i < source.dependencies@.len() {
                    simple_view(source.dependencies@[i])
                } else {
                    arbitrary()
                },
        ),
    }
}

/// The views of a sequence of resolved crates.
pub open spec fn simple_views(sources: Seq<SimpleSource>) -> Seq<SimpleSourceView> {
    sources.map_values(|source: SimpleSource| simple_view(source))
}

impl View for SimpleSource {
    type V = SimpleSourceView;

    open spec fn view(&self) -> SimpleSourceView {
        simple_view(*self)
    }
}

impl Clone for SimpleSource {
    fn clone(&self) -> (copy: SimpleSource)
        ensures
            copy@ == self@,
    {
        self.duplicate()
    }
}

impl SimpleSource {
    /// The crate `crate_name` at `version`, found at `source`, with the given
    /// dependencies.
    pub fn new(
        crate_name: &str,
        version: &str,
        source: &str,
        dependencies: Vec<SimpleSource>,
    ) -> (simple: SimpleSource)
        ensures
            simple@ == (SimpleSourceView {
                crate_name: crate_name@,
                version: version@,
                source: source@,
                dependencies: simple_views(dependencies@),
            }),
    {
        let simple = SimpleSource {
            crate_name: crate_name.to_string(),
            version: version.to_string(),
            source: source.to_string(),
            dependencies,
        };
        assert(simple@.dependencies =~= simple_views(dependencies@));
        simple
    }

    /// A copy of this crate and of all it depends on.
    pub fn duplicate(&self) -> (copy: SimpleSource)
        ensures
            copy@ == self@,
        decreases self,
    {
        let mut dependencies: Vec<SimpleSource> = Vec::new();
        for i in 0..self.dependencies.len()
            invariant
                dependencies@.len() == i,
                forall|j: int|
                    0 <= j < i ==> simple_view(dependencies@[j]) == simple_view(
                        self.dependencies@[j],
                    ),
        {
            dependencies.push(self.dependencies[i].duplicate());
        }
        let copy = SimpleSource {
            crate_name: self.crate_name.clone(),
            version: self.version.clone(),
            source: self.source.clone(),
            dependencies,
        };
        assert(copy@.dependencies =~= self@.dependencies);
        copy
    }

    /// The crate's name.
    pub fn crate_name(&self) -> (name: String)
        ensures
            name@ == self@.crate_name,
    {
        self.crate_name.clone()
    }

    /// The crate's package name.
    pub fn package_name(&self) -> (name: String)
        ensures
            name@ == self@.package_name(),
    {
        package_name(self.crate_name.as_str(), self.version.as_str())
    }

    /// The crate's version.
    pub fn version(&self) -> (version: String)
        ensures
            version@ == self@.version,
    {
        self.version.clone()
    }

    /// The crate's source locator.
    pub fn source(&self) -> (locator: String)
        ensures
            locator@ == self@.source,
    {
        self.source.clone()
    }

    /// The crates that this crate depends on: the stored ones, in their
    /// order. This never fails and needs no lookup.
    pub fn dependencies(&self) -> (outcome: Result<Resolution, CarguixError>)
        ensures
            resolution_view(outcome) == Ok::<ResolutionView, ErrorView>(
                ResolutionView::Resolved(self@.children()),
            ),
    {
        let mut children: Vec<CrateRef> = Vec::new();
        for i in 0..self.dependencies.len()
            invariant
                children@.len() == i,
                forall|j: int| 0 <= j < i ==> (#[trigger] children@[j])@ == self@.children()[j],
        {
            let dependency = self.dependencies[i].duplicate();
            let name = dependency.crate_name();
            let child = CrateRef::new(name.as_str(), CrateSource::Simple(dependency));
            children.push(child);
        }
        assert(crate_views(children@) =~= self@.children());
        Ok(Resolution::Resolved(children))
    }

    /// The crates this crate depends on, in their order.
    pub fn children(&self) -> (children: Vec<SimpleSource>)
        ensures
            simple_views(children@) == self@.dependencies,
    {
        let mut children: Vec<SimpleSource> = Vec::new();
        for i in 0..self.dependencies.len()
            invariant
                children@.len() == i,
                forall|j: int|
                    0 <= j < i ==> simple_view(children@[j]) == simple_view(self.dependencies@[j]),
        {
            children.push(self.dependencies[i].duplicate());
        }
        assert(simple_views(children@) =~= self@.dependencies);
        children
    }
}

} // verus!
