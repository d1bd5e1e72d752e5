//! Crates published in the registry: one version record, pinned exactly,
//! taken as the latest, or selected by a requirement.

use vstd::prelude::*;
use crate::context::{
    IndexedCrate, IndexedCrateView, IndexedDependencyView, IndexedVersion, IndexedVersionView,
    Lookup, LookupView, ResolutionContext,
};
use crate::crate_ref::{
    collect_steps, crate_views, lemma_collect_decided, resolution_view, step_view, CrateRef,
    CrateRefView, CrateSource, CrateSourceView, Resolution, ResolutionView, Step, StepView,
};
use crate::errors::{CarguixError, ErrorView};
use crate::naming::{package_name, registry_locator, spec_package_name, spec_registry_locator};
use crate::resolver::{
    highest_matching_version, is_highest_match, satisfies, semver_at_most, semver_matches,
    semver_requirement_parses, semver_version_parses, some_version_satisfies,
    spec_highest_matching_version,
};
use crate::text::optional_text;

verus! {

/// The position of the first published version with exactly this version
/// string, if there is one.
pub open spec fn first_version(versions: Seq<IndexedVersionView>, version: Seq<char>) -> Option<
    int,
>
    decreases versions.len(),
{
    if versions.len() == 0 {
        None
    } else {
        match first_version(versions.drop_last(), version) {
            Some(i) => Some(i),
            None => if versions.last().version == version {
                Some(versions.len() - 1)
            } else {
                None
            },
        }
    }
}

/// `first_version` finds a version with the string asked for that no such
/// version precedes, and finds none only where no version has the string.
pub proof fn lemma_first_version(versions: Seq<IndexedVersionView>, version: Seq<char>)
    ensures
        match first_version(versions, version) {
            Some(i) => {
                &&& 0 <= i < versions.len()
                &&& versions[i].version == version
                &&& forall|j: int| 0 <= j < i ==> (#[trigger] versions[j]).version != version
            },
            None => forall|j: int|
                0 <= j < versions.len() ==> (#[trigger] versions[j]).version != version,
        },
    decreases versions.len(),
{
    if versions.len() > 0 {
        let shorter = versions.drop_last();
        lemma_first_version(shorter, version);
        assert forall|j: int| 0 <= j < shorter.len() implies shorter[j] == versions[j] by {}
        match first_version(shorter, version) {
            Some(i) => {
                assert forall|j: int| 0 <= j < i implies (#[trigger] versions[j]).version
                    != version by {
                    assert(shorter[j] == versions[j]);
                }
            },
            None => {
                assert forall|j: int| 0 <= j < shorter.len() implies (#[trigger] versions[j]).version
                    != version by {
                    assert(shorter[j] == versions[j]);
                }
            },
        }
    }
}

/// A found version stays the first one when versions are added behind it.
pub proof fn lemma_first_version_of_prefix(
    versions: Seq<IndexedVersionView>,
    version: Seq<char>,
    length: int,
)
    requires
        0 <= length <= versions.len(),
        first_version(versions.subrange(0, length), version) is Some,
    ensures
        first_version(versions, version) == first_version(versions.subrange(0, length), version),
    decreases versions.len() - length,
{
    if length < versions.len() {
        let longer = versions.subrange(0, length + 1);
        assert(longer.drop_last() =~= versions.subrange(0, length));
        lemma_first_version_of_prefix(versions, version, length + 1);
    } else {
        assert(versions.subrange(0, length) =~= versions);
    }
}

/// A crate of the registry at one published version.
#[derive(Debug, PartialEq, Eq)]
pub struct RegistrySource {
    crate_version: IndexedVersion,
}

/// A registry source over character sequences.
pub struct RegistrySourceView {
    pub crate_version: IndexedVersionView,
}

impl RegistrySourceView {
    /// What enumerating the record's dependencies gives, for the registry
    /// entries that are known.
    pub open spec fn dependencies(self, index: Map<Seq<char>, Option<IndexedCrateView>>) -> Result<
        ResolutionView,
        ErrorView,
    > {
        collect_steps(spec_registry_steps(index, self.crate_version.dependencies))
    }

    /// The package name: the record's name in kebab case, a hyphen, the
    /// record's version.
    pub open spec fn package_name(self) -> Seq<char> {
        spec_package_name(self.crate_version.name, self.crate_version.version)
    }

    /// The source locator: the registry's download address of the record.
    pub open spec fn source(self) -> Seq<char> {
        spec_registry_locator(self.crate_version.name, self.crate_version.version)
    }
}

impl View for RegistrySource {
    type V = RegistrySourceView;

    closed spec fn view(&self) -> RegistrySourceView {
        RegistrySourceView { crate_version: self.crate_version@ }
    }
}

impl Clone for RegistrySource {
    fn clone(&self) -> (copy: RegistrySource)
        ensures
            copy@ == self@,
    {
        RegistrySource { crate_version: self.crate_version.clone() }
    }
}

/// The registry's entry for a crate, where the index is known to have one.
pub open spec fn known_entry(
    index: Map<Seq<char>, Option<IndexedCrateView>>,
    crate_name: Seq<char>,
) -> Option<IndexedCrateView> {
    if index.contains_key(crate_name) {
        index[crate_name]
    } else {
        None
    }
}

/// The version of an entry with exactly this version string, or the latest
/// one where no version is asked for.
pub open spec fn spec_pinned_version(
    crate_name: Seq<char>,
    entry: IndexedCrateView,
    version: Option<Seq<char>>,
) -> Result<RegistrySourceView, ErrorView> {
    match version {
        Some(version) => match first_version(entry.versions, version) {
            Some(i) => Ok(RegistrySourceView { crate_version: entry.versions[i] }),
            None => Err(ErrorView::NoMatchingVersion { name: crate_name, version }),
        },
        None => if entry.versions.len() == 0 {
            Err(ErrorView::NoMatchingVersion { name: crate_name, version: "latest"@ })
        } else {
            Ok(RegistrySourceView { crate_version: entry.versions.last() })
        },
    }
}

/// The registry source for a crate name and an optional exact version.
///
/// A crate that the index is not known to hold is not found.
pub open spec fn spec_registry_source(
    index: Map<Seq<char>, Option<IndexedCrateView>>,
    crate_name: Seq<char>,
    version: Option<Seq<char>>,
) -> Result<RegistrySourceView, ErrorView> {
    match known_entry(index, crate_name) {
        Some(entry) => spec_pinned_version(crate_name, entry, version),
        None => Err(ErrorView::CrateNotFound(crate_name)),
    }
}

/// The version of an entry that a requirement selects: the greatest one
/// that satisfies it.
pub open spec fn spec_selected_version(
    crate_name: Seq<char>,
    entry: IndexedCrateView,
    requirement: Seq<char>,
) -> Result<RegistrySourceView, ErrorView> {
    match spec_highest_matching_version(crate_name, entry.version_texts(), requirement) {
        Ok(i) => spec_pinned_version(crate_name, entry, Some(entry.versions[i].version)),
        Err(error) => Err(error),
    }
}

/// Whether a requirement selects a version of `entry`: the requirement
/// parses, and a published version that is a semantic version satisfies it.
pub open spec fn selects_a_version(entry: IndexedCrateView, requirement: Seq<char>) -> bool {
    semver_requirement_parses(requirement) && some_version_satisfies(
        entry.version_texts(),
        requirement,
    )
}

/// Whether `source` is at the version of `entry` that `requirement` selects:
/// its version string is that of a published version which satisfies the
/// requirement and which no other published version that satisfies it
/// exceeds.
pub open spec fn is_selected_from(
    entry: IndexedCrateView,
    requirement: Seq<char>,
    source: RegistrySourceView,
) -> bool {
    exists|i: int|
        #![trigger entry.versions[i]]
        is_highest_match(entry.version_texts(), requirement, i)
            && source.crate_version.version == entry.versions[i].version
}

/// The version that a requirement selects satisfies the requirement, and every
/// published version that satisfies the requirement is the selected one or at
/// most as great.
pub proof fn lemma_selected_is_greatest(
    entry: IndexedCrateView,
    requirement: Seq<char>,
    source: RegistrySourceView,
    other: int,
)
    requires
        is_selected_from(entry, requirement, source),
        0 <= other < entry.versions.len(),
        semver_version_parses(entry.versions[other].version),
        semver_matches(requirement, entry.versions[other].version),
    ensures
        semver_version_parses(source.crate_version.version),
        semver_matches(requirement, source.crate_version.version),
        entry.versions[other].version == source.crate_version.version || semver_at_most(
            entry.versions[other].version,
            source.crate_version.version,
        ),
{
    let i = choose|i: int|
        #![trigger entry.versions[i]]
        is_highest_match(entry.version_texts(), requirement, i)
            && source.crate_version.version == entry.versions[i].version;
    assert(entry.version_texts()[i] == entry.versions[i].version);
    assert(entry.version_texts()[other] == entry.versions[other].version);
    assert(satisfies(entry.version_texts(), requirement, other));
}

/// The registry source for a crate name and a requirement.
pub open spec fn spec_registry_source_with_requirement(
    index: Map<Seq<char>, Option<IndexedCrateView>>,
    crate_name: Seq<char>,
    requirement: Seq<char>,
) -> Result<RegistrySourceView, ErrorView> {
    match known_entry(index, crate_name) {
        Some(entry) => spec_selected_version(crate_name, entry, requirement),
        None => Err(ErrorView::CrateNotFound(crate_name)),
    }
}

/// Whether the registry is known to hold the crate `crate_name` and the
/// requirement selects one of its versions.
pub open spec fn registry_selects(
    index: Map<Seq<char>, Option<IndexedCrateView>>,
    crate_name: Seq<char>,
    requirement: Seq<char>,
) -> bool {
    known_entry(index, crate_name) matches Some(entry) && selects_a_version(entry, requirement)
}

/// What a dependency on the crate `crate_name` with a requirement resolves
/// to: the lookup of the crate where the registry was not asked for it yet,
/// else the registry source that the requirement selects.
pub open spec fn spec_requirement_step(
    index: Map<Seq<char>, Option<IndexedCrateView>>,
    crate_name: Seq<char>,
    requirement: Seq<char>,
) -> Result<StepView, ErrorView> {
    if !index.contains_key(crate_name) {
        Ok(StepView::Missing(LookupView::IndexedCrate(crate_name)))
    } else {
        match spec_registry_source_with_requirement(index, crate_name, requirement) {
            Ok(source) => Ok(
                StepView::Child(
                    CrateRefView { crate_name, source: CrateSourceView::Registry(source) },
                ),
            ),
            Err(error) => Err(error),
        }
    }
}

/// What each dependency of a published version resolves to.
pub open spec fn spec_registry_steps(
    index: Map<Seq<char>, Option<IndexedCrateView>>,
    dependencies: Seq<IndexedDependencyView>,
) -> Seq<Result<StepView, ErrorView>> {
    dependencies.map_values(
        |dependency: IndexedDependencyView|
            spec_requirement_step(index, dependency.crate_name, dependency.requirement),
    )
}

/// Resolves a dependency on the crate `crate_name` with a requirement.
///
/// Where the registry was not asked for the crate yet, the lookup is named.
/// Else the dependency resolves to a crate exactly where the registry holds
/// the crate and the requirement selects one of its versions, and the crate
/// is then the registry source at the selected version.
pub fn resolve_requirement(crate_name: &str, requirement: &str, context: &ResolutionContext) -> (outcome:
    Result<Step, CarguixError>)
    ensures
        step_view(outcome) == spec_requirement_step(context@.index, crate_name@, requirement@),
        outcome matches Ok(Step::Child(_)) <==> registry_selects(
            context@.index,
            crate_name@,
            requirement@,
        ),
        outcome matches Ok(Step::Child(child)) ==> child@.source matches CrateSourceView::Registry(
            source,
        ) && known_entry(context@.index, crate_name@) matches Some(entry) && is_selected_from(
            entry,
            requirement@,
            source,
        ),
{
    match context.indexed_crate(crate_name) {
        None => Ok(Step::Missing(Lookup::IndexedCrate(crate_name.to_string()))),
        Some(_) => match RegistrySource::new_with_requirement(crate_name, requirement, context) {
            Ok(source) => Ok(Step::Child(CrateRef::new(crate_name, CrateSource::Registry(source)))),
            Err(error) => Err(error),
        },
    }
}

/// The view of a constructor's outcome.
pub open spec fn registry_outcome_view(outcome: Result<RegistrySource, CarguixError>) -> Result<
    RegistrySourceView,
    ErrorView,
> {
    match outcome {
        Ok(source) => Ok(source@),
        Err(error) => Err(error@),
    }
}

impl RegistrySource {
    /// The version of `entry` with exactly the version string `version`, or
    /// the latest version of the entry where `version` is `None`.
    pub fn pinned(crate_name: &str, entry: &IndexedCrate, version: &Option<String>) -> (outcome:
        Result<RegistrySource, CarguixError>)
        ensures
            registry_outcome_view(outcome) == spec_pinned_version(
                crate_name@,
                entry@,
                optional_text(*version),
            ),
    {
        let ghost versions = entry@.versions;
        match version {
            Some(wanted) => {
                assert(versions.subrange(0, 0) =~= Seq::<IndexedVersionView>::empty());
                for i in 0..entry.versions.len()
                    invariant
                        versions == entry@.versions,
                        optional_text(*version) == Some(wanted@),
                        first_version(versions.subrange(0, i as int), wanted@) is None,
                {
                    proof {
                        let longer = versions.subrange(0, i + 1);
                        assert(longer.drop_last() =~= versions.subrange(0, i as int));
                        assert(longer.last() == entry.versions@[i as int]@);
                    }
                    if entry.versions[i].version == *wanted {
                        proof {
                            lemma_first_version_of_prefix(versions, wanted@, i + 1);
                        }
                        return Ok(RegistrySource { crate_version: entry.versions[i].clone() });
                    }
                }
                assert(versions.subrange(0, versions.len() as int) =~= versions);
                Err(
                    CarguixError::NoMatchingVersion {
                        name: crate_name.to_string(),
                        version: wanted.clone(),
                    },
                )
            },
            None => {
                let count = entry.versions.len();
                if count == 0 {
                    Err(
                        CarguixError::NoMatchingVersion {
                            name: crate_name.to_string(),
                            version: "latest".to_string(),
                        },
                    )
                } else {
                    Ok(RegistrySource { crate_version: entry.versions[count - 1].clone() })
                }
            },
        }
    }

    /// The version of `entry` that `requirement` selects.
    ///
    /// It succeeds exactly where the requirement parses and a published
    /// version that is a semantic version satisfies it.
    pub fn selected(crate_name: &str, entry: &IndexedCrate, requirement: &str) -> (outcome: Result<
        RegistrySource,
        CarguixError,
    >)
        ensures
            registry_outcome_view(outcome) == spec_selected_version(
                crate_name@,
                entry@,
                requirement@,
            ),
            outcome is Ok <==> selects_a_version(entry@, requirement@),
            outcome matches Ok(source) ==> is_selected_from(entry@, requirement@, source@),
    {
        let candidates = entry.version_texts();
        proof {
            let views = entry@.version_texts();
            if some_version_satisfies(views, requirement@) {
                let i = choose|i: int| #[trigger] satisfies(views, requirement@, i);
                assert(semver_version_parses(views[i]));
            }
        }
        match highest_matching_version(crate_name, &candidates, requirement) {
            Ok(i) => {
                let version = Some(entry.versions[i].version.clone());
                let outcome = RegistrySource::pinned(crate_name, entry, &version);
                proof {
                    lemma_first_version(entry@.versions, entry@.versions[i as int].version);
                    assert(entry@.versions[i as int] == entry.versions@[i as int]@);
                    if outcome is Ok {
                        let source = outcome->Ok_0;
                        assert(is_highest_match(entry@.version_texts(), requirement@, i as int)
                            && source@.crate_version.version == entry@.versions[i as int].version);
                    }
                }
                outcome
            },
            Err(error) => Err(error),
        }
    }

    /// The registry source of the crate `crate_name`: at exactly `version`, or
    /// at its latest version where `version` is `None`.
    ///
    /// It fails with `CrateNotFound` where the context does not know an entry
    /// for the crate, and with `NoMatchingVersion` where the entry has no
    /// version with that version string.
    pub fn new(crate_name: &str, version: &Option<String>, context: &ResolutionContext) -> (outcome:
        Result<RegistrySource, CarguixError>)
        ensures
            registry_outcome_view(outcome) == spec_registry_source(
                context@.index,
                crate_name@,
                optional_text(*version),
            ),
    {
        match context.indexed_crate(crate_name) {
            Some(Some(entry)) => RegistrySource::pinned(crate_name, entry, version),
            _ => Err(CarguixError::CrateNotFound(crate_name.to_string())),
        }
    }

    /// The registry source of the crate `crate_name` at the greatest version
    /// that satisfies `requirement`.
    ///
    /// It succeeds exactly where the context knows an entry for the crate, the
    /// requirement parses, and a published version that is a semantic version
    /// satisfies it.
    pub fn new_with_requirement(
        crate_name: &str,
        requirement: &str,
        context: &ResolutionContext,
    ) -> (outcome: Result<RegistrySource, CarguixError>)
        ensures
            registry_outcome_view(outcome) == spec_registry_source_with_requirement(
                context@.index,
                crate_name@,
                requirement@,
            ),
            outcome is Ok <==> registry_selects(context@.index, crate_name@, requirement@),
            outcome matches Ok(source) ==> known_entry(context@.index, crate_name@) matches Some(
                entry,
            ) && is_selected_from(entry, requirement@, source@),
    {
        match context.indexed_crate(crate_name) {
            Some(Some(entry)) => RegistrySource::selected(crate_name, entry, requirement),
            _ => Err(CarguixError::CrateNotFound(crate_name.to_string())),
        }
    }

    /// The crates that the record depends on: for each dependency, in order,
    /// the greatest published version that satisfies its requirement.
    ///
    /// The first dependency that fails, or whose crate the registry was not
    /// asked for yet, decides the outcome.
    pub fn dependencies(&self, context: &ResolutionContext) -> (outcome: Result<
        Resolution,
        CarguixError,
    >)
        ensures
            resolution_view(outcome) == self@.dependencies(context@.index),
    {
        let ghost steps = spec_registry_steps(context@.index, self@.crate_version.dependencies);
        let mut children: Vec<CrateRef> = Vec::new();
        assert(steps.subrange(0, 0) =~= Seq::<Result<StepView, ErrorView>>::empty());
        assert(crate_views(children@) =~= Seq::<CrateRefView>::empty());
        for i in 0..self.crate_version.dependencies.len()
            invariant
                steps == spec_registry_steps(context@.index, self@.crate_version.dependencies),
                collect_steps(steps.subrange(0, i as int)) == Ok::<ResolutionView, ErrorView>(
                    ResolutionView::Resolved(crate_views(children@)),
                ),
        {
            let dependency = &self.crate_version.dependencies[i];
            let step = resolve_requirement(
                dependency.crate_name.as_str(),
                dependency.requirement.as_str(),
                context,
            );
            proof {
                let longer = steps.subrange(0, i + 1);
                assert(longer.drop_last() =~= steps.subrange(0, i as int));
                assert(self@.crate_version.dependencies[i as int] == dependency@);
                assert(longer.last() == step_view(step));
            }
            match step {
                Ok(Step::Child(child)) => {
                    let ghost before = crate_views(children@);
                    children.push(child);
                    assert(crate_views(children@) =~= before.push(child@));
                },
                Ok(Step::Missing(lookup)) => {
                    proof {
                        lemma_collect_decided(steps, i + 1);
                    }
                    return Ok(Resolution::Missing(lookup));
                },
                Err(error) => {
                    proof {
                        lemma_collect_decided(steps, i + 1);
                    }
                    return Err(error);
                },
            }
        }
        assert(steps.subrange(0, steps.len() as int) =~= steps);
        Ok(Resolution::Resolved(children))
    }

    /// The crate's name, as the record gives it.
    pub fn crate_name(&self) -> (name: String)
        ensures
            name@ == self@.crate_version.name,
    {
        self.crate_version.name.clone()
    }

    /// The crate's package name.
    pub fn package_name(&self) -> (name: String)
        ensures
            name@ == self@.package_name(),
    {
        package_name(self.crate_version.name.as_str(), self.crate_version.version.as_str())
    }

    /// The record's version.
    pub fn version(&self) -> (version: String)
        ensures
            version@ == self@.crate_version.version,
    {
        self.crate_version.version.clone()
    }

    /// The crate's source locator.
    pub fn source(&self) -> (locator: String)
        ensures
            locator@ == self@.source(),
    {
        registry_locator(self.crate_version.name.as_str(), self.crate_version.version.as_str())
    }
}

} // verus!
