use carguix::CarguixError;

#[test]
fn dependency_of_wraps_the_cause() {
    let cause = CarguixError::CrateNotFound("syn".to_string());
    let wrapped = CarguixError::dependency_of(cause.clone(), "serde_derive", "1.0.104");
    assert_eq!(
        wrapped,
        CarguixError::DependencyProcessingFailed(
            Box::new(cause.clone()),
            "serde_derive".to_string(),
            "1.0.104".to_string()
        )
    );
    assert_eq!(wrapped.cause(), Some(&cause));
    assert_eq!(cause.cause(), None);
}

#[test]
fn the_causes_lead_to_the_failing_leaf() {
    let leaf = CarguixError::BadLockFileDependency("bare".to_string());
    let middle = CarguixError::dependency_of(leaf.clone(), "b", "2.0.0");
    let top = CarguixError::dependency_of(middle.clone(), "a", "1.0.0");
    let mut chain = vec![top.message()];
    let mut current = top.cause();
    while let Some(error) = current {
        chain.push(error.message());
        current = error.cause();
    }
    assert_eq!(
        chain,
        vec![
            "could not process a dependency of crate a in version 1.0.0".to_string(),
            "could not process a dependency of crate b in version 2.0.0".to_string(),
            "Dependency found in lock file is ill-formed: bare".to_string(),
        ]
    );
}

#[test]
fn copies_of_failures_are_equal() {
    let error = CarguixError::dependency_of(
        CarguixError::NoMatchingVersion { name: "x".to_string(), version: "1".to_string() },
        "y",
        "2",
    );
    assert_eq!(error.clone(), error);
    assert_eq!(error.duplicate(), error);
}

#[test]
fn every_failure_says_what_it_is_about() {
    let s = |text: &str| text.to_string();
    let cases = vec![
        (CarguixError::CrateNotFound(s("serde")), "could not find crate serde"),
        (
            CarguixError::NoMatchingVersion { name: s("serde"), version: s("9.9.9") },
            "no version of crate serde matching 9.9.9 found",
        ),
        (
            CarguixError::NoVersionMatchingRequirement { name: s("serde"), requirement: s("^9") },
            "no version of crate serde matching requirement ^9 found",
        ),
        (
            CarguixError::VersionParsingError(s("serde"), s("^1")),
            "no version of crate serde could be parsed while resolving requirement ^1",
        ),
        (
            CarguixError::RequirementParsingError(s("serde"), s("???")),
            "parsing of requirement ??? for crate serde failed",
        ),
        (
            CarguixError::ManifestParsingError(s("bad toml"), s("/a/Cargo.toml")),
            "error while parsing crate at path /a/Cargo.toml",
        ),
        (CarguixError::NoPackageInManifest(s("/a")), "/a does not define a package"),
        (CarguixError::UrlParsingError(s("???")), "error while parsing URL ???"),
        (CarguixError::UrlNotAFilePath(s("file://h/x")), "URL is not a file path: file://h/x"),
        (
            CarguixError::BadLockFileDependency(s("bare")),
            "Dependency found in lock file is ill-formed: bare",
        ),
        (
            CarguixError::PackageNotFoundInLock(s("serde"), s("any version")),
            "Crate serde in version any version not found in lock file",
        ),
        (CarguixError::LockFileReadError(s("denied")), "cannot read Cargo.lock"),
        (CarguixError::LockFileParsingError(s("bad toml")), "cannot parse Cargo.lock"),
        (
            CarguixError::CanonicalizationFailed(s("no such file"), s("../a")),
            "cannot canonicalize path: ../a",
        ),
        (
            CarguixError::CratePathNotFound { dependency: s("local"), owner: s("app") },
            "dependency local of app path not found",
        ),
        (
            CarguixError::UnlockedDependency { dependency: s("local"), owner: s("app") },
            "dependency local of app is declared by path or git without a lock file",
        ),
        (
            CarguixError::GitSourceUnsupported(s("remote")),
            "cannot enumerate the dependencies of git crate remote",
        ),
    ];
    for (error, message) in cases {
        assert_eq!(error.message(), message);
    }
}
