//! A crate manifest, as far as resolution reads it: the package it declares
//! and the dependency tables, each dependency with its requirement and with
//! the local path or git repository it may be declared by.

use vstd::prelude::*;
use crate::paths::{entry_views, LocalPath, LocalPathView, PathEntry, PathEntryView};
use crate::text::{copy_optional, optional_text};

verus! {

/// The package that a manifest declares.
#[derive(Debug, PartialEq, Eq)]
pub struct ManifestPackage {
    pub name: String,
    pub version: String,
}

/// A declared package over character sequences.
pub struct ManifestPackageView {
    pub name: Seq<char>,
    pub version: Seq<char>,
}

impl View for ManifestPackage {
    type V = ManifestPackageView;

    open spec fn view(&self) -> ManifestPackageView {
        ManifestPackageView { name: self.name@, version: self.version@ }
    }
}

impl Clone for ManifestPackage {
    fn clone(&self) -> (copy: ManifestPackage)
        ensures
            copy@ == self@,
    {
        ManifestPackage { name: self.name.clone(), version: self.version.clone() }
    }
}

/// One dependency of a manifest.
#[derive(Debug, PartialEq, Eq)]
pub struct ManifestDependency {
    /// The name under which the manifest lists the dependency.
    pub name: String,
    /// The version requirement; `*` where the manifest gives none.
    pub requirement: String,
    /// The local path, where the manifest declares one.
    pub path: Option<String>,
    /// The git repository, where the manifest declares one.
    pub git: Option<String>,
}

/// A dependency over character sequences.
pub struct ManifestDependencyView {
    pub name: Seq<char>,
    pub requirement: Seq<char>,
    pub path: Option<Seq<char>>,
    pub git: Option<Seq<char>>,
}

impl View for ManifestDependency {
    type V = ManifestDependencyView;

    open spec fn view(&self) -> ManifestDependencyView {
        ManifestDependencyView {
            name: self.name@,
            requirement: self.requirement@,
            path: optional_text(self.path),
            git: optional_text(self.git),
        }
    }
}

impl Clone for ManifestDependency {
    fn clone(&self) -> (copy: ManifestDependency)
        ensures
            copy@ == self@,
    {
        ManifestDependency {
            name: self.name.clone(),
            requirement: self.requirement.clone(),
            path: copy_optional(&self.path),
            git: copy_optional(&self.git),
        }
    }
}

/// The views of the dependencies of one table.
pub open spec fn dependency_views(table: Seq<ManifestDependency>) -> Seq<ManifestDependencyView> {
    table.map_values(|dependency: ManifestDependency| dependency@)
}

/// A copy of a dependency table.
pub fn copy_dependencies(table: &Vec<ManifestDependency>) -> (copy: Vec<ManifestDependency>)
    ensures
        dependency_views(copy@) == dependency_views(table@),
{
    let mut copy: Vec<ManifestDependency> = Vec::new();
    for i in 0..table.len()
        invariant
            copy@.len() == i,
            forall|j: int| 0 <= j < i ==> copy@[j]@ == table@[j]@,
    {
        copy.push(table[i].clone());
    }
    assert(dependency_views(copy@) =~= dependency_views(table@));
    copy
}

/// The dependency tables of one target section.
#[derive(Debug, PartialEq, Eq)]
pub struct ManifestTarget {
    pub dependencies: Vec<ManifestDependency>,
    pub build_dependencies: Vec<ManifestDependency>,
}

/// A target section over character sequences.
pub struct ManifestTargetView {
    pub dependencies: Seq<ManifestDependencyView>,
    pub build_dependencies: Seq<ManifestDependencyView>,
}

impl View for ManifestTarget {
    type V = ManifestTargetView;

    open spec fn view(&self) -> ManifestTargetView {
        ManifestTargetView {
            dependencies: dependency_views(self.dependencies@),
            build_dependencies: dependency_views(self.build_dependencies@),
        }
    }
}

impl Clone for ManifestTarget {
    fn clone(&self) -> (copy: ManifestTarget)
        ensures
            copy@ == self@,
    {
        ManifestTarget {
            dependencies: copy_dependencies(&self.dependencies),
            build_dependencies: copy_dependencies(&self.build_dependencies),
        }
    }
}

/// A parsed manifest. The tables list their dependencies in the manifest
/// parser's order; `patch` has one table per patched registry.
#[derive(Debug, PartialEq, Eq)]
pub struct Manifest {
    pub package: Option<ManifestPackage>,
    pub dependencies: Vec<ManifestDependency>,
    pub build_dependencies: Vec<ManifestDependency>,
    pub target: Vec<ManifestTarget>,
    pub patch: Vec<Vec<ManifestDependency>>,
}

/// A manifest over character sequences.
pub struct ManifestView {
    pub package: Option<ManifestPackageView>,
    pub dependencies: Seq<ManifestDependencyView>,
    pub build_dependencies: Seq<ManifestDependencyView>,
    pub target: Seq<ManifestTargetView>,
    pub patch: Seq<Seq<ManifestDependencyView>>,
}

impl View for Manifest {
    type V = ManifestView;

    open spec fn view(&self) -> ManifestView {
        ManifestView {
            package: match self.package {
                Some(package) => Some(package@),
                None => None,
            },
            dependencies: dependency_views(self.dependencies@),
            build_dependencies: dependency_views(self.build_dependencies@),
            target: self.target@.map_values(|target: ManifestTarget| target@),
            patch: self.patch@.map_values(
                |table: Vec<ManifestDependency>| dependency_views(table@),
            ),
        }
    }
}

impl Clone for Manifest {
    fn clone(&self) -> (copy: Manifest)
        ensures
            copy@ == self@,
    {
        let package = match &self.package {
            Some(package) => Some(package.clone()),
            None => None,
        };
        let mut target: Vec<ManifestTarget> = Vec::new();
        for i in 0..self.target.len()
            invariant
                target@.len() == i,
                forall|j: int| 0 <= j < i ==> target@[j]@ == self.target@[j]@,
        {
            target.push(self.target[i].clone());
        }
        let mut patch: Vec<Vec<ManifestDependency>> = Vec::new();
        for i in 0..self.patch.len()
            invariant
                patch@.len() == i,
                forall|j: int|
                    0 <= j < i ==> dependency_views(patch@[j]@) == dependency_views(
                        self.patch@[j]@,
                    ),
        {
            patch.push(copy_dependencies(&self.patch[i]));
        }
        let copy = Manifest {
            package,
            dependencies: copy_dependencies(&self.dependencies),
            build_dependencies: copy_dependencies(&self.build_dependencies),
            target,
            patch,
        };
        assert(copy@.target =~= self@.target);
        assert(copy@.patch =~= self@.patch);
        copy
    }
}

/// The lines that one dependency table adds to the path table of the crate in
/// the directory `base`: one line for each dependency that declares a path, in
/// the table's order.
pub open spec fn table_paths(table: Seq<ManifestDependencyView>, base: Seq<char>) -> Seq<
    PathEntryView,
>
    decreases table.len(),
{
    if table.len() == 0 {
        Seq::<PathEntryView>::empty()
    } else {
        let before = table_paths(table.drop_last(), base);
        match table.last().path {
            Some(declared) => before.push(
                PathEntryView { name: table.last().name, path: LocalPathView { base, declared } },
            ),
            None => before,
        }
    }
}

/// The lines of the target sections: for each section its dependencies, then
/// its build dependencies.
pub open spec fn target_paths(targets: Seq<ManifestTargetView>, base: Seq<char>) -> Seq<
    PathEntryView,
>
    decreases targets.len(),
{
    if targets.len() == 0 {
        Seq::<PathEntryView>::empty()
    } else {
        target_paths(targets.drop_last(), base) + table_paths(targets.last().dependencies, base)
            + table_paths(targets.last().build_dependencies, base)
    }
}

/// The lines of the patch tables, one table after the other.
pub open spec fn patch_paths(patches: Seq<Seq<ManifestDependencyView>>, base: Seq<char>) -> Seq<
    PathEntryView,
>
    decreases patches.len(),
{
    if patches.len() == 0 {
        Seq::<PathEntryView>::empty()
    } else {
        patch_paths(patches.drop_last(), base) + table_paths(patches.last(), base)
    }
}

/// Every path that a manifest declares, in the order in which the tables are
/// read: dependencies, build dependencies, the target sections, the patch
/// tables.
pub open spec fn manifest_paths(manifest: ManifestView, base: Seq<char>) -> Seq<PathEntryView> {
    table_paths(manifest.dependencies, base) + table_paths(manifest.build_dependencies, base)
        + target_paths(manifest.target, base) + patch_paths(manifest.patch, base)
}

/// The dependencies of the target sections, section by section: a section's
/// dependencies, then its build dependencies.
pub open spec fn target_dependencies(targets: Seq<ManifestTargetView>) -> Seq<
    ManifestDependencyView,
>
    decreases targets.len(),
{
    if targets.len() == 0 {
        Seq::<ManifestDependencyView>::empty()
    } else {
        target_dependencies(targets.drop_last()) + targets.last().dependencies
            + targets.last().build_dependencies
    }
}

/// Every dependency that a manifest declares: its dependencies, its build
/// dependencies, and those of its target sections. The patch tables declare
/// replacements, not dependencies.
pub open spec fn manifest_dependencies(manifest: ManifestView) -> Seq<ManifestDependencyView> {
    manifest.dependencies + manifest.build_dependencies + target_dependencies(manifest.target)
}

/// Appends to `lines` the lines of one dependency table.
pub fn collect_table_paths(lines: &mut Vec<PathEntry>, table: &Vec<ManifestDependency>, base: &str)
    ensures
        entry_views(final(lines)@) == entry_views(old(lines)@) + table_paths(
            dependency_views(table@),
            base@,
        ),
{
    let ghost start = entry_views(lines@);
    let ghost views = dependency_views(table@);
    assert(views.subrange(0, 0) =~= Seq::<ManifestDependencyView>::empty());
    assert(start + Seq::<PathEntryView>::empty() =~= start);
    for i in 0..table.len()
        invariant
            views == dependency_views(table@),
            entry_views(lines@) == start + table_paths(views.subrange(0, i as int), base@),
    {
        let ghost before = entry_views(lines@);
        proof {
            let prefix = views.subrange(0, i + 1);
            assert(prefix.drop_last() =~= views.subrange(0, i as int));
            assert(prefix.last() == table@[i as int]@);
        }
        match &table[i].path {
            Some(declared) => {
                let entry = PathEntry {
                    name: table[i].name.clone(),
                    path: LocalPath::new(base, declared.as_str()),
                };
                lines.push(entry);
                proof {
                    assert(entry_views(lines@) =~= before.push(entry@));
                    assert(before.push(entry@) =~= start + table_paths(
                        views.subrange(0, i + 1),
                        base@,
                    ));
                }
            },
            None => {},
        }
    }
    assert(views.subrange(0, table@.len() as int) =~= views);
}

/// Appends to `all` a copy of each dependency of one table.
pub fn collect_dependencies(all: &mut Vec<ManifestDependency>, table: &Vec<ManifestDependency>)
    ensures
        dependency_views(final(all)@) == dependency_views(old(all)@) + dependency_views(table@),
{
    let ghost start = dependency_views(all@);
    for i in 0..table.len()
        invariant
            all@.len() == start.len() + i,
            forall|j: int| 0 <= j < start.len() ==> all@[j]@ == start[j],
            forall|j: int| 0 <= j < i ==> all@[start.len() + j]@ == table@[j]@,
    {
        all.push(table[i].clone());
    }
    assert(dependency_views(all@) =~= start + dependency_views(table@));
}

impl Manifest {
    /// The lines that this manifest adds to the path table of the crate in the
    /// directory `base`.
    pub fn declared_paths(&self, base: &str) -> (lines: Vec<PathEntry>)
        ensures
            entry_views(lines@) == manifest_paths(self@, base@),
    {
        let mut lines: Vec<PathEntry> = Vec::new();
        assert(entry_views(lines@) =~= Seq::<PathEntryView>::empty());
        collect_table_paths(&mut lines, &self.dependencies, base);
        collect_table_paths(&mut lines, &self.build_dependencies, base);
        let ghost tables = entry_views(lines@);
        assert(tables =~= table_paths(self@.dependencies, base@) + table_paths(
            self@.build_dependencies,
            base@,
        ));
        let ghost target = self@.target;
        assert(target.subrange(0, 0) =~= Seq::<ManifestTargetView>::empty());
        assert(tables + Seq::<PathEntryView>::empty() =~= tables);
        for i in 0..self.target.len()
            invariant
                target == self@.target,
                entry_views(lines@) == tables + target_paths(target.subrange(0, i as int), base@),
        {
            proof {
                let prefix = target.subrange(0, i + 1);
                assert(prefix.drop_last() =~= target.subrange(0, i as int));
                assert(prefix.last() == self.target@[i as int]@);
            }
            collect_table_paths(&mut lines, &self.target[i].dependencies, base);
            collect_table_paths(&mut lines, &self.target[i].build_dependencies, base);
            assert(entry_views(lines@) =~= tables + target_paths(
                target.subrange(0, i + 1),
                base@,
            ));
        }
        assert(target.subrange(0, self.target@.len() as int) =~= target);
        let ghost targets = entry_views(lines@);
        let ghost patch = self@.patch;
        assert(patch.subrange(0, 0) =~= Seq::<Seq<ManifestDependencyView>>::empty());
        assert(targets + Seq::<PathEntryView>::empty() =~= targets);
        for i in 0..self.patch.len()
            invariant
                patch == self@.patch,
                entry_views(lines@) == targets + patch_paths(patch.subrange(0, i as int), base@),
        {
            proof {
                let prefix = patch.subrange(0, i + 1);
                assert(prefix.drop_last() =~= patch.subrange(0, i as int));
                assert(prefix.last() == dependency_views(self.patch@[i as int]@));
            }
            collect_table_paths(&mut lines, &self.patch[i], base);
            assert(entry_views(lines@) =~= targets + patch_paths(
                patch.subrange(0, i + 1),
                base@,
            ));
        }
        assert(patch.subrange(0, self.patch@.len() as int) =~= patch);
        assert(entry_views(lines@) =~= manifest_paths(self@, base@));
        lines
    }

    /// Every dependency that this manifest declares, in the order of the
    /// tables.
    pub fn declared_dependencies(&self) -> (all: Vec<ManifestDependency>)
        ensures
            dependency_views(all@) == manifest_dependencies(self@),
    {
        let mut all: Vec<ManifestDependency> = Vec::new();
        assert(dependency_views(all@) =~= Seq::<ManifestDependencyView>::empty());
        collect_dependencies(&mut all, &self.dependencies);
        collect_dependencies(&mut all, &self.build_dependencies);
        let ghost tables = dependency_views(all@);
        assert(tables =~= self@.dependencies + self@.build_dependencies);
        let ghost target = self@.target;
        assert(target.subrange(0, 0) =~= Seq::<ManifestTargetView>::empty());
        assert(tables + Seq::<ManifestDependencyView>::empty() =~= tables);
        for i in 0..self.target.len()
            invariant
                target == self@.target,
                dependency_views(all@) == tables + target_dependencies(
                    target.subrange(0, i as int),
                ),
        {
            proof {
                let prefix = target.subrange(0, i + 1);
                assert(prefix.drop_last() =~= target.subrange(0, i as int));
                assert(prefix.last() == self.target@[i as int]@);
            }
            collect_dependencies(&mut all, &self.target[i].dependencies);
            collect_dependencies(&mut all, &self.target[i].build_dependencies);
            assert(dependency_views(all@) =~= tables + target_dependencies(
                target.subrange(0, i + 1),
            ));
        }
        assert(target.subrange(0, self.target@.len() as int) =~= target);
        all
    }
}

} // verus!
