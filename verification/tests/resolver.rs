use carguix::resolver::{greatest_marked, highest_matching_version};
use carguix::CarguixError;

fn strings(items: &[&str]) -> Vec<String> {
    items.iter().map(|item| item.to_string()).collect()
}

#[test]
fn the_greatest_satisfying_version_is_selected() {
    let versions = strings(&["1.0.0", "1.2.0", "1.1.0", "2.0.0"]);
    assert_eq!(highest_matching_version("demo", &versions, "^1"), Ok(1));
}

#[test]
fn the_selection_is_not_the_first_found_nor_the_lowest() {
    let versions = strings(&["0.1.0", "0.3.0", "0.2.0"]);
    assert_eq!(highest_matching_version("demo", &versions, ">=0.1.0"), Ok(1));
}

#[test]
fn versions_are_compared_as_numbers() {
    let versions = strings(&["1.9.0", "1.10.0", "1.2.0"]);
    assert_eq!(highest_matching_version("demo", &versions, "^1"), Ok(1));
}

#[test]
fn the_selected_version_satisfies_the_requirement() {
    let versions = strings(&["1.0.0", "1.2.0", "2.0.0", "3.1.4"]);
    assert_eq!(highest_matching_version("demo", &versions, "<2.0.0"), Ok(1));
    assert_eq!(highest_matching_version("demo", &versions, "=2.0.0"), Ok(2));
    assert_eq!(highest_matching_version("demo", &versions, "*"), Ok(3));
}

#[test]
fn a_release_exceeds_its_pre_releases() {
    let versions = strings(&["1.0.0", "1.0.0-alpha", "1.0.0-beta"]);
    assert_eq!(highest_matching_version("demo", &versions, ">=1.0.0-alpha"), Ok(0));
}

#[test]
fn of_equally_great_versions_the_last_is_selected() {
    let versions = strings(&["1.0.0+first", "0.9.0", "1.0.0+second"]);
    assert_eq!(highest_matching_version("demo", &versions, "^1"), Ok(2));
}

#[test]
fn versions_that_do_not_parse_are_passed_over() {
    let versions = strings(&["garbage", "1.0.0", "not.a.version", "1.1.0", "9.x"]);
    assert_eq!(highest_matching_version("demo", &versions, "^1"), Ok(3));
}

#[test]
fn no_parseable_version_is_a_failure() {
    let versions = strings(&["garbage", "1.0"]);
    assert_eq!(
        highest_matching_version("demo", &versions, "^1"),
        Err(CarguixError::VersionParsingError("demo".to_string(), "^1".to_string()))
    );
}

#[test]
fn no_version_at_all_is_a_failure_of_parsing() {
    let versions = strings(&[]);
    assert_eq!(
        highest_matching_version("demo", &versions, "^1"),
        Err(CarguixError::VersionParsingError("demo".to_string(), "^1".to_string()))
    );
}

#[test]
fn a_requirement_that_does_not_parse_is_a_failure() {
    let versions = strings(&["1.0.0"]);
    assert_eq!(
        highest_matching_version("demo", &versions, "not a requirement"),
        Err(CarguixError::RequirementParsingError(
            "demo".to_string(),
            "not a requirement".to_string()
        ))
    );
}

#[test]
fn the_versions_are_checked_before_the_requirement() {
    let versions = strings(&["garbage"]);
    assert_eq!(
        highest_matching_version("demo", &versions, "not a requirement"),
        Err(CarguixError::VersionParsingError(
            "demo".to_string(),
            "not a requirement".to_string()
        ))
    );
}

#[test]
fn no_satisfying_version_is_a_failure() {
    let versions = strings(&["1.0.0", "1.5.0"]);
    assert_eq!(
        highest_matching_version("demo", &versions, "^2"),
        Err(CarguixError::NoVersionMatchingRequirement {
            name: "demo".to_string(),
            requirement: "^2".to_string()
        })
    );
}

#[test]
fn greatest_marked_takes_only_marked_candidates() {
    let versions = strings(&["1.0.0", "3.0.0", "2.0.0"]);
    assert_eq!(greatest_marked(&versions, &vec![true, false, true]), Some(2));
    assert_eq!(greatest_marked(&versions, &vec![true, true, true]), Some(1));
    assert_eq!(greatest_marked(&versions, &vec![true, false, false]), Some(0));
}

#[test]
fn greatest_marked_of_nothing_marked_is_none() {
    let versions = strings(&["1.0.0", "garbage"]);
    assert_eq!(greatest_marked(&versions, &vec![false, false]), None);
    assert_eq!(greatest_marked(&strings(&[]), &vec![]), None);
}

#[test]
fn greatest_marked_orders_pre_release_identifiers() {
    let versions = strings(&["1.0.0-alpha.2", "1.0.0-alpha.10", "1.0.0-alpha.beta"]);
    assert_eq!(greatest_marked(&versions, &vec![true, true, false]), Some(1));
    assert_eq!(greatest_marked(&versions, &vec![true, true, true]), Some(2));
}
