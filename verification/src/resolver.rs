//! Version selection: among the published versions of a crate, the greatest
//! one that satisfies a semantic-version requirement.
//!
//! Parsing, matching and ordering of versions are `semver`'s. The library
//! knows them by name and proves its selection from what the comparison
//! promises: that it is a total order on the versions that parse.

use vstd::prelude::*;
use crate::errors::{CarguixError, ErrorView};
use crate::text::texts;

verus! {

/// Whether `text` is a semantic version, as `semver::Version::parse` decides.
pub uninterp spec fn semver_version_parses(text: Seq<char>) -> bool;

/// Whether `text` is a version requirement, as `semver::VersionReq::parse`
/// decides.
pub uninterp spec fn semver_requirement_parses(text: Seq<char>) -> bool;

/// Whether the version written as `lower` is at most the version written as
/// `upper` in `semver`'s order of versions. It has a meaning only where both
/// texts parse.
pub uninterp spec fn semver_at_most(lower: Seq<char>, upper: Seq<char>) -> bool;

/// Whether the version written as `version` satisfies the requirement written
/// as `requirement`, as `semver::VersionReq::matches` decides. It has a
/// meaning only where both texts parse.
pub uninterp spec fn semver_matches(requirement: Seq<char>, version: Seq<char>) -> bool;

/// Calls `semver::Version::parse` and tells whether it accepted the text.
#[verifier::external_body]
pub(crate) fn is_version(text: &str) -> (parses: bool)
    ensures
        parses == semver_version_parses(text@),
{
    semver::Version::parse(text).is_ok()
}

/// Calls `semver::VersionReq::parse` and tells whether it accepted the text.
/// A requirement in one of the deprecated forms counts as rejected.
#[verifier::external_body]
pub(crate) fn is_requirement(text: &str) -> (parses: bool)
    ensures
        parses == semver_requirement_parses(text@),
{
    semver::VersionReq::parse(text).is_ok()
}

/// Compares two versions with `semver::Version`'s `Ord`, after parsing both.
///
/// Besides naming the result, the contract states two laws that `Ord` promises
/// of every implementation: any two versions are comparable, and the order is
/// transitive. Both are stated for versions that parse, and nothing else is
/// claimed of the order.
#[verifier::external_body]
pub(crate) fn version_at_most(lower: &str, upper: &str) -> (ordered: bool)
    requires
        semver_version_parses(lower@),
        semver_version_parses(upper@),
    ensures
        ordered == semver_at_most(lower@, upper@),
        ordered || semver_at_most(upper@, lower@),
        forall|other: Seq<char>|
            ordered && semver_version_parses(other) && #[trigger] semver_at_most(other, lower@)
                ==> semver_at_most(other, upper@),
{
    let lower = semver::Version::parse(lower).unwrap();
    let upper = semver::Version::parse(upper).unwrap();
    lower <= upper
}

/// Calls `semver::VersionReq::matches`, after parsing the requirement and the
/// version.
#[verifier::external_body]
pub(crate) fn requirement_matches(requirement: &str, version: &str) -> (satisfied: bool)
    requires
        semver_requirement_parses(requirement@),
        semver_version_parses(version@),
    ensures
        satisfied == semver_matches(requirement@, version@),
{
    let requirement = semver::VersionReq::parse(requirement).unwrap();
    let version = semver::Version::parse(version).unwrap();
    requirement.matches(&version)
}

/// Whether some candidate is a semantic version.
pub open spec fn some_version_parses(candidates: Seq<Seq<char>>) -> bool {
    exists|i: int| 0 <= i < candidates.len() && semver_version_parses(#[trigger] candidates[i])
}

/// Whether the candidate at `i` is a semantic version that satisfies the
/// requirement.
pub open spec fn satisfies(candidates: Seq<Seq<char>>, requirement: Seq<char>, i: int) -> bool {
    &&& 0 <= i < candidates.len()
    &&& semver_version_parses(candidates[i])
    &&& semver_matches(requirement, candidates[i])
}

/// Whether some candidate satisfies the requirement.
pub open spec fn some_version_satisfies(
    candidates: Seq<Seq<char>>,
    requirement: Seq<char>,
) -> bool {
    exists|i: int| #[trigger] satisfies(candidates, requirement, i)
}

/// Whether the candidate at `i` is the greatest among the marked candidates:
/// it is marked, every other marked candidate is at most as great, and of the
/// marked candidates that are as great it is the last one in the list.
pub open spec fn is_greatest_marked(candidates: Seq<Seq<char>>, marked: Seq<bool>, i: int) -> bool {
    &&& 0 <= i < candidates.len()
    &&& marked[i]
    &&& forall|j: int|
        0 <= j < candidates.len() && j != i && #[trigger] marked[j] ==> semver_at_most(
            candidates[j],
            candidates[i],
        )
    &&& forall|j: int|
        i < j < candidates.len() && #[trigger] marked[j] ==> !semver_at_most(
            candidates[i],
            candidates[j],
        )
}

/// Whether the candidate at `i` is the version that a requirement selects: it
/// satisfies the requirement, every other candidate that satisfies it is at
/// most as great, and of the equally great ones it is the last in the list.
pub open spec fn is_highest_match(
    candidates: Seq<Seq<char>>,
    requirement: Seq<char>,
    i: int,
) -> bool {
    &&& satisfies(candidates, requirement, i)
    &&& forall|j: int|
        j != i && #[trigger] satisfies(candidates, requirement, j) ==> semver_at_most(
            candidates[j],
            candidates[i],
        )
    &&& forall|j: int|
        i < j && #[trigger] satisfies(candidates, requirement, j) ==> !semver_at_most(
            candidates[i],
            candidates[j],
        )
}

/// The greatest of the candidates that `marked` marks, or `None` where it
/// marks none.
///
/// `marked` has one flag per candidate, and every marked candidate is a
/// semantic version. The candidates are compared in `semver`'s order.
pub fn greatest_marked(candidates: &Vec<String>, marked: &Vec<bool>) -> (greatest: Option<usize>)
    requires
        marked@.len() == candidates@.len(),
        forall|i: int|
            0 <= i < candidates@.len() && #[trigger] marked@[i] ==> semver_version_parses(
                candidates@[i]@,
            ),
    ensures
        match greatest {
            Some(i) => is_greatest_marked(texts(candidates@), marked@, i as int),
            None => forall|i: int| 0 <= i < candidates@.len() ==> !#[trigger] marked@[i],
        },
{
    let mut greatest: Option<usize> = None;
    for k in 0..candidates.len()
        invariant
            marked@.len() == candidates@.len(),
            forall|i: int|
                0 <= i < candidates@.len() && #[trigger] marked@[i] ==> semver_version_parses(
                    candidates@[i]@,
                ),
            match greatest {
                Some(i) => {
                    &&& i < k
                    &&& marked@[i as int]
                    &&& forall|j: int|
                        0 <= j < k && j != i && #[trigger] marked@[j] ==> semver_at_most(
                            candidates@[j]@,
                            candidates@[i as int]@,
                        )
                    &&& forall|j: int|
                        i < j < k && #[trigger] marked@[j] ==> !semver_at_most(
                            candidates@[i as int]@,
                            candidates@[j]@,
                        )
                },
                None => forall|i: int| 0 <= i < k ==> !#[trigger] marked@[i],
            },
    {
        if marked[k] {
            match greatest {
                None => {
                    greatest = Some(k);
                },
                Some(i) => {
                    if version_at_most(candidates[i].as_str(), candidates[k].as_str()) {
                        greatest = Some(k);
                    }
                },
            }
        }
    }
    proof {
        if let Some(i) = greatest {
            let views = texts(candidates@);
            assert forall|j: int|
                0 <= j < views.len() && j != i && #[trigger] marked@[j] implies semver_at_most(
                views[j],
                views[i as int],
            ) by {}
        }
    }
    greatest
}

/// Marks the candidates that are semantic versions and satisfy `requirement`.
pub(crate) fn mark_satisfying(candidates: &Vec<String>, requirement: &str) -> (marked: Vec<bool>)
    requires
        semver_requirement_parses(requirement@),
    ensures
        marked@.len() == candidates@.len(),
        forall|i: int|
            0 <= i < candidates@.len() ==> #[trigger] marked@[i] == satisfies(
                texts(candidates@),
                requirement@,
                i,
            ),
{
    let mut marked: Vec<bool> = Vec::new();
    for k in 0..candidates.len()
        invariant
            semver_requirement_parses(requirement@),
            marked@.len() == k,
            forall|i: int|
                0 <= i < k ==> #[trigger] marked@[i] == satisfies(
                    texts(candidates@),
                    requirement@,
                    i,
                ),
    {
        let version = candidates[k].as_str();
        let satisfied = is_version(version) && requirement_matches(requirement, version);
        marked.push(satisfied);
    }
    marked
}

/// Whether any candidate is a semantic version.
pub(crate) fn any_version_parses(candidates: &Vec<String>) -> (found: bool)
    ensures
        found == some_version_parses(texts(candidates@)),
{
    for k in 0..candidates.len()
        invariant
            forall|i: int| 0 <= i < k ==> !semver_version_parses(#[trigger] texts(candidates@)[i]),
    {
        if is_version(candidates[k].as_str()) {
            assert(semver_version_parses(texts(candidates@)[k as int]));
            return true;
        }
    }
    false
}

/// What `highest_matching_version` returns for the crate `crate_name`, its
/// published version strings and a requirement.
pub open spec fn resolution_is(
    crate_name: Seq<char>,
    candidates: Seq<Seq<char>>,
    requirement: Seq<char>,
    outcome: Result<usize, CarguixError>,
) -> bool {
    if !some_version_parses(candidates) {
        outcome matches Err(error) && error@ == ErrorView::VersionParsingError(
            crate_name,
            requirement,
        )
    } else if !semver_requirement_parses(requirement) {
        outcome matches Err(error) && error@ == ErrorView::RequirementParsingError(
            crate_name,
            requirement,
        )
    } else if !some_version_satisfies(candidates, requirement) {
        outcome matches Err(error) && error@ == (ErrorView::NoVersionMatchingRequirement {
            name: crate_name,
            requirement,
        })
    } else {
        outcome matches Ok(i) && is_highest_match(candidates, requirement, i as int)
    }
}

/// At most one candidate is the version that a requirement selects.
pub proof fn lemma_highest_match_is_unique(
    candidates: Seq<Seq<char>>,
    requirement: Seq<char>,
    i: int,
    j: int,
)
    requires
        is_highest_match(candidates, requirement, i),
        is_highest_match(candidates, requirement, j),
    ensures
        i == j,
{
    if i < j {
        assert(satisfies(candidates, requirement, j));
    } else if j < i {
        assert(satisfies(candidates, requirement, i));
    }
}

/// The position of the version that `requirement` selects among the
/// published versions of the crate `crate_name`, or why none is selected.
pub open spec fn spec_highest_matching_version(
    crate_name: Seq<char>,
    candidates: Seq<Seq<char>>,
    requirement: Seq<char>,
) -> Result<int, ErrorView> {
    if !some_version_parses(candidates) {
        Err(ErrorView::VersionParsingError(crate_name, requirement))
    } else if !semver_requirement_parses(requirement) {
        Err(ErrorView::RequirementParsingError(crate_name, requirement))
    } else if !some_version_satisfies(candidates, requirement) {
        Err(ErrorView::NoVersionMatchingRequirement { name: crate_name, requirement })
    } else {
        Ok(choose|i: int| is_highest_match(candidates, requirement, i))
    }
}

/// The index of the greatest of `candidates` that satisfies `requirement`.
///
/// Candidates that are no semantic versions are passed over. The selection
/// fails where none of the candidates is a semantic version, where the
/// requirement does not parse, and where no version satisfies it, in this
/// order; each failure names the crate and the requirement.
pub fn highest_matching_version(
    crate_name: &str,
    candidates: &Vec<String>,
    requirement: &str,
) -> (outcome: Result<usize, CarguixError>)
    ensures
        resolution_is(crate_name@, texts(candidates@), requirement@, outcome),
        match outcome {
            Ok(i) => spec_highest_matching_version(
                crate_name@,
                texts(candidates@),
                requirement@,
            ) == Ok::<int, ErrorView>(i as int),
            Err(error) => spec_highest_matching_version(
                crate_name@,
                texts(candidates@),
                requirement@,
            ) == Err::<int, ErrorView>(error@),
        },
{
    if !any_version_parses(candidates) {
        return Err(
            CarguixError::VersionParsingError(crate_name.to_string(), requirement.to_string()),
        );
    }
    if !is_requirement(requirement) {
        return Err(
            CarguixError::RequirementParsingError(crate_name.to_string(), requirement.to_string()),
        );
    }
    let marked = mark_satisfying(candidates, requirement);
    let greatest = greatest_marked(candidates, &marked);
    let ghost views = texts(candidates@);
    match greatest {
        None => {
            proof {
                assert forall|i: int| !#[trigger] satisfies(views, requirement@, i) by {
                    if 0 <= i < views.len() {
                        assert(!marked@[i]);
                    }
                }
            }
            Err(
                CarguixError::NoVersionMatchingRequirement {
                    name: crate_name.to_string(),
                    requirement: requirement.to_string(),
                },
            )
        },
        Some(i) => {
            proof {
                assert(marked@[i as int]);
                assert(satisfies(views, requirement@, i as int));
                assert forall|j: int|
                    j != i && #[trigger] satisfies(views, requirement@, j) implies semver_at_most(
                    views[j],
                    views[i as int],
                ) by {
                    assert(marked@[j]);
                }
                assert forall|j: int| i < j && #[trigger] satisfies(views, requirement@, j) implies !semver_at_most(
                    views[i as int],
                    views[j],
                ) by {
                    assert(marked@[j]);
                }
                assert(is_highest_match(views, requirement@, i as int));
                let chosen = choose|c: int| is_highest_match(views, requirement@, c);
                lemma_highest_match_is_unique(views, requirement@, i as int, chosen);
            }
            Ok(i)
        },
    }
}

/// The selected version satisfies the requirement, and every published
/// version that satisfies the requirement is the selected one or at most as
/// great.
pub proof fn lemma_selected_version_is_maximal(
    crate_name: Seq<char>,
    candidates: Seq<Seq<char>>,
    requirement: Seq<char>,
    outcome: Result<usize, CarguixError>,
    other: int,
)
    requires
        resolution_is(crate_name, candidates, requirement, outcome),
        outcome is Ok,
        0 <= other < candidates.len(),
        semver_version_parses(candidates[other]),
        semver_matches(requirement, candidates[other]),
    ensures
        semver_version_parses(candidates[outcome->Ok_0 as int]),
        semver_matches(requirement, candidates[outcome->Ok_0 as int]),
        other == outcome->Ok_0 || semver_at_most(
            candidates[other],
            candidates[outcome->Ok_0 as int],
        ),
{
    assert(satisfies(candidates, requirement, other));
}

} // verus!
