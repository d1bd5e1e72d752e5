use carguix::{
    CargoLock, CargoLockPackage, CarguixError, CrateRef, CrateSource, LocalCrate, LocalPath,
    LockSource, Lookup, Manifest, ManifestPackage, PathTable, Resolution, ResolutionContext,
};

const REGISTRY: &str = "registry+https://github.com/rust-lang/crates.io-index";

fn record(name: &str, version: &str, source: Option<&str>, dependencies: &[&str]) -> CargoLockPackage {
    CargoLockPackage {
        name: name.to_string(),
        version: version.to_string(),
        source: source.map(|tag| tag.to_string()),
        dependencies: dependencies.iter().map(|entry| entry.to_string()).collect(),
    }
}

fn sample_lock() -> CargoLock {
    CargoLock {
        package: vec![
            record(
                "app",
                "0.1.0",
                None,
                &["serde 1.0.104 (registry+https://github.com/rust-lang/crates.io-index)", "local-crate 0.1.0"],
            ),
            record("serde", "1.0.100", Some(REGISTRY), &[]),
            record("serde", "1.0.104", Some(REGISTRY), &["serde_derive 1.0.104 (registry+https://github.com/rust-lang/crates.io-index)"]),
            record("serde_derive", "1.0.104", Some(REGISTRY), &[]),
            record("local-crate", "0.1.0", None, &[]),
        ],
    }
}

fn local_manifest(name: &str, version: &str) -> Manifest {
    Manifest {
        package: Some(ManifestPackage { name: name.to_string(), version: version.to_string() }),
        dependencies: vec![],
        build_dependencies: vec![],
        target: vec![],
        patch: vec![],
    }
}

fn children(resolution: Result<Resolution, CarguixError>) -> Vec<CrateRef> {
    match resolution {
        Ok(Resolution::Resolved(children)) => children,
        other => panic!("expected resolved dependencies, got {:?}", other),
    }
}

#[test]
fn lock_source_takes_the_first_record_of_the_name() {
    let source = LockSource::new("serde", &None, Box::new(sample_lock()), "/work").unwrap();
    assert_eq!(source.crate_name(), "serde");
    assert_eq!(source.version(), "1.0.100");
    assert_eq!(source.version, "1.0.100");
    assert_eq!(source.package, record("serde", "1.0.100", Some(REGISTRY), &[]));
    assert_eq!(*source.manifest, sample_lock());
}

#[test]
fn lock_source_takes_the_record_of_the_version_asked_for() {
    let version = Some("1.0.104".to_string());
    let source = LockSource::new("serde", &version, Box::new(sample_lock()), "/work").unwrap();
    assert_eq!(source.version(), "1.0.104");
    assert_eq!(source.package.dependencies.len(), 1);
    assert_eq!(source.package_name(), "serde-1.0.104");
}

#[test]
fn lock_source_of_an_unknown_crate_is_not_found() {
    let outcome = LockSource::new("tokio", &None, Box::new(sample_lock()), "/work");
    assert_eq!(
        outcome,
        Err(CarguixError::PackageNotFoundInLock("tokio".to_string(), "any version".to_string()))
    );
}

#[test]
fn lock_source_of_an_unknown_version_is_not_found() {
    let version = Some("2.0.0".to_string());
    let outcome = LockSource::new("serde", &version, Box::new(sample_lock()), "/work");
    assert_eq!(
        outcome,
        Err(CarguixError::PackageNotFoundInLock("serde".to_string(), "2.0.0".to_string()))
    );
}

#[test]
fn lock_source_in_an_empty_lock_file_is_not_found() {
    let outcome = LockSource::new("serde", &None, Box::new(CargoLock { package: vec![] }), "/work");
    assert_eq!(
        outcome,
        Err(CarguixError::PackageNotFoundInLock("serde".to_string(), "any version".to_string()))
    );
}

#[test]
fn lock_source_keeps_the_table_of_local_paths() {
    let mut table = PathTable::new();
    table.insert("local-crate", LocalPath::new("/work", "../local"));
    let source =
        LockSource::new_with_manifest("app", &None, Box::new(sample_lock()), &table, "/work")
            .unwrap();
    assert_eq!(source.crate_paths.get("local-crate"), Some(LocalPath::new("/work", "../local")));
    assert_eq!(source.crate_paths.get("serde"), None);
    assert_eq!(source.working_dir, "/work");
}

#[test]
fn a_tagged_record_is_fetched_from_the_registry() {
    let version = Some("1.0.104".to_string());
    let source = LockSource::new("serde", &version, Box::new(sample_lock()), "/work").unwrap();
    assert_eq!(source.source(), "https://crates.io/api/v1/crates/serde/1.0.104/download");
}

#[test]
fn an_untagged_record_lies_in_the_working_directory() {
    let source = LockSource::new("app", &None, Box::new(sample_lock()), "/work/app").unwrap();
    assert_eq!(source.source(), "file:///work/app");
}

#[test]
fn a_three_part_entry_resolves_to_a_lock_source() {
    let version = Some("1.0.104".to_string());
    let source = LockSource::new("serde", &version, Box::new(sample_lock()), "/work").unwrap();
    let context = ResolutionContext::new();
    let found = children(source.dependencies(&context));
    assert_eq!(found.len(), 1);
    assert_eq!(found[0].crate_name(), "serde_derive");
    assert_eq!(found[0].version(), "1.0.104");
    assert_eq!(found[0].package_name(), "serde-derive-1.0.104");
    assert!(matches!(found[0].crate_source(), CrateSource::Lock(_)));
}

#[test]
fn lock_dependency_with_source_tag_resolves_to_lock_child() {
    let mut table = PathTable::new();
    table.insert("local-crate", LocalPath::new("/work", "../local"));
    let source =
        LockSource::new_with_manifest("app", &None, Box::new(sample_lock()), &table, "/work")
            .unwrap();
    let mut context = ResolutionContext::new();
    context.record_local_crate(
        LocalPath::new("/work", "../local"),
        Ok(LocalCrate {
            path: "/local".to_string(),
            manifest: local_manifest("local-crate", "0.1.0"),
            lock: None,
        }),
    );
    let found = children(source.dependencies(&context));
    assert_eq!(found.len(), 2);
    assert_eq!(found[0].crate_name(), "serde");
    assert_eq!(found[0].version(), "1.0.104");
    match found[0].crate_source() {
        CrateSource::Lock(child) => {
            assert_eq!(child.crate_name, "serde");
            assert_eq!(child.package.version, "1.0.104");
            assert_eq!(*child.manifest, sample_lock());
            assert_eq!(child.crate_paths.get("local-crate"), Some(LocalPath::new("/work", "../local")));
        }
        other => panic!("expected a lock source, got {:?}", other),
    }
}

#[test]
fn lock_dependency_without_source_tag_resolves_through_the_path_table() {
    let mut table = PathTable::new();
    table.insert("local-crate", LocalPath::new("/work", "../local"));
    let source =
        LockSource::new_with_manifest("app", &None, Box::new(sample_lock()), &table, "/work")
            .unwrap();
    let mut context = ResolutionContext::new();
    context.record_local_crate(
        LocalPath::new("/work", "../local"),
        Ok(LocalCrate {
            path: "/local".to_string(),
            manifest: local_manifest("local-crate", "0.1.0"),
            lock: None,
        }),
    );
    let found = children(source.dependencies(&context));
    assert_eq!(found[1].crate_name(), "local-crate");
    assert_eq!(found[1].version(), "0.1.0");
    assert_eq!(found[1].source(), "file:///local");
    assert!(matches!(found[1].crate_source(), CrateSource::Path(_)));
}

#[test]
fn a_local_dependency_that_is_not_loaded_yet_is_asked_for() {
    let mut table = PathTable::new();
    table.insert("local-crate", LocalPath::new("/work", "../local"));
    let source =
        LockSource::new_with_manifest("app", &None, Box::new(sample_lock()), &table, "/work")
            .unwrap();
    let context = ResolutionContext::new();
    assert_eq!(
        source.dependencies(&context),
        Ok(Resolution::Missing(Lookup::LocalCrate(LocalPath::new("/work", "../local"))))
    );
}

#[test]
fn a_local_dependency_without_a_path_is_a_failure() {
    let source = LockSource::new("app", &None, Box::new(sample_lock()), "/work").unwrap();
    let context = ResolutionContext::new();
    assert_eq!(
        source.dependencies(&context),
        Err(CarguixError::CratePathNotFound {
            dependency: "local-crate".to_string(),
            owner: "app".to_string()
        })
    );
}

#[test]
fn a_local_dependency_that_could_not_be_loaded_is_a_failure() {
    let mut table = PathTable::new();
    table.insert("local-crate", LocalPath::new("/work", "../local"));
    let source =
        LockSource::new_with_manifest("app", &None, Box::new(sample_lock()), &table, "/work")
            .unwrap();
    let mut context = ResolutionContext::new();
    let failure = CarguixError::CanonicalizationFailed(
        "No such file or directory".to_string(),
        "/work/../local".to_string(),
    );
    context.record_local_crate(LocalPath::new("/work", "../local"), Err(failure.clone()));
    assert_eq!(source.dependencies(&context), Err(failure));
}

#[test]
fn a_local_dependency_without_a_package_is_a_failure() {
    let mut table = PathTable::new();
    table.insert("local-crate", LocalPath::new("/work", "../local"));
    let source =
        LockSource::new_with_manifest("app", &None, Box::new(sample_lock()), &table, "/work")
            .unwrap();
    let mut context = ResolutionContext::new();
    let mut manifest = local_manifest("local-crate", "0.1.0");
    manifest.package = None;
    context.record_local_crate(
        LocalPath::new("/work", "../local"),
        Ok(LocalCrate { path: "/local".to_string(), manifest, lock: None }),
    );
    assert_eq!(
        source.dependencies(&context),
        Err(CarguixError::NoPackageInManifest("/local".to_string()))
    );
}

#[test]
fn a_locked_dependency_missing_from_the_lock_file_is_a_failure() {
    let lock = CargoLock {
        package: vec![record("app", "0.1.0", None, &["ghost 1.0.0 (registry+https://example.org)"])],
    };
    let source = LockSource::new("app", &None, Box::new(lock), "/work").unwrap();
    let context = ResolutionContext::new();
    assert_eq!(
        source.dependencies(&context),
        Err(CarguixError::PackageNotFoundInLock("ghost".to_string(), "1.0.0".to_string()))
    );
}

#[test]
fn malformed_lock_dependency_fails() {
    let lock = CargoLock { package: vec![record("app", "0.1.0", None, &["bare"])] };
    let source = LockSource::new("app", &None, Box::new(lock), "/work").unwrap();
    let context = ResolutionContext::new();
    assert_eq!(
        source.dependencies(&context),
        Err(CarguixError::BadLockFileDependency("bare".to_string()))
    );
}

#[test]
fn malformed_lock_dependency_is_wrapped_with_the_owning_crate() {
    let lock = CargoLock { package: vec![record("app", "0.1.0", None, &["bare"])] };
    let root = CrateRef::lock("app", &None, lock, "/work").unwrap();
    let context = ResolutionContext::new();
    assert_eq!(
        root.dependencies(&context),
        Err(CarguixError::DependencyProcessingFailed(
            Box::new(CarguixError::BadLockFileDependency("bare".to_string())),
            "app".to_string(),
            "0.1.0".to_string()
        ))
    );
}

#[test]
fn an_entry_of_four_parts_is_malformed() {
    let lock = CargoLock { package: vec![record("app", "0.1.0", None, &["a 1.0.0 (x) y"])] };
    let source = LockSource::new("app", &None, Box::new(lock), "/work").unwrap();
    let context = ResolutionContext::new();
    assert_eq!(
        source.dependencies(&context),
        Err(CarguixError::BadLockFileDependency("a 1.0.0 (x) y".to_string()))
    );
}

#[test]
fn the_first_failing_entry_decides() {
    let lock = CargoLock {
        package: vec![record("app", "0.1.0", None, &["bare", "ghost 1.0.0 (registry+x)"])],
    };
    let source = LockSource::new("app", &None, Box::new(lock), "/work").unwrap();
    let context = ResolutionContext::new();
    assert_eq!(
        source.dependencies(&context),
        Err(CarguixError::BadLockFileDependency("bare".to_string()))
    );
}

#[test]
fn a_record_without_dependencies_has_no_children() {
    let source = LockSource::new("serde_derive", &None, Box::new(sample_lock()), "/work").unwrap();
    let context = ResolutionContext::new();
    assert_eq!(children(source.dependencies(&context)).len(), 0);
}

#[test]
fn copies_of_lock_sources_are_equal() {
    let mut table = PathTable::new();
    table.insert("local-crate", LocalPath::new("/work", "../local"));
    let source =
        LockSource::new_with_manifest("app", &None, Box::new(sample_lock()), &table, "/work")
            .unwrap();
    assert_eq!(source.clone(), source);
    let root = CrateRef::lock("app", &None, sample_lock(), "/work").unwrap();
    assert_eq!(root.clone(), root);
}

#[test]
fn children_inherit_the_working_directory() {
    let lock = CargoLock {
        package: vec![
            record("app", "0.1.0", None, &["untagged 0.2.0 (path)"]),
            record("untagged", "0.2.0", None, &[]),
        ],
    };
    let source = LockSource::new("app", &None, Box::new(lock), "/work/app").unwrap();
    let context = ResolutionContext::new();
    let found = children(source.dependencies(&context));
    assert_eq!(found[0].source(), "file:///work/app");
}

#[test]
fn two_spaces_separate_the_tokens_of_an_entry() {
    let lock = CargoLock {
        package: vec![
            record("app", "0.1.0", None, &["serde  1.0.104 (registry+x)"]),
            record("serde", "1.0.104", Some("registry+x"), &[]),
        ],
    };
    let source = LockSource::new("app", &None, Box::new(lock), "/work").unwrap();
    let context = ResolutionContext::new();
    let found = children(source.dependencies(&context));
    assert_eq!(found.len(), 1);
    assert_eq!(found[0].crate_name(), "serde");
    assert_eq!(found[0].version(), "1.0.104");
    assert!(matches!(found[0].crate_source(), CrateSource::Lock(_)));
}

#[test]
fn a_tab_separates_the_tokens_of_an_entry() {
    let lock = CargoLock {
        package: vec![
            record("app", "0.1.0", None, &["serde\t1.0.104\t(registry+x)", "local-crate\t0.1.0"]),
            record("serde", "1.0.104", Some("registry+x"), &[]),
        ],
    };
    let mut table = PathTable::new();
    table.insert("local-crate", LocalPath::new("/work", "../local"));
    let source =
        LockSource::new_with_manifest("app", &None, Box::new(lock), &table, "/work").unwrap();
    let context = ResolutionContext::new();
    assert_eq!(
        source.dependencies(&context),
        Ok(Resolution::Missing(Lookup::LocalCrate(LocalPath::new("/work", "../local"))))
    );
}

#[test]
fn white_space_around_an_entry_is_no_token() {
    let lock = CargoLock {
        package: vec![
            record("app", "0.1.0", None, &["  serde 1.0.104 (registry+x) \n"]),
            record("serde", "1.0.104", Some("registry+x"), &[]),
        ],
    };
    let source = LockSource::new("app", &None, Box::new(lock), "/work").unwrap();
    let context = ResolutionContext::new();
    let found = children(source.dependencies(&context));
    assert_eq!(found.len(), 1);
    assert_eq!(found[0].package_name(), "serde-1.0.104");
}

#[test]
fn an_entry_without_a_token_is_malformed() {
    for entry in ["", "   ", "\t"] {
        let lock = CargoLock { package: vec![record("app", "0.1.0", None, &[entry])] };
        let source = LockSource::new("app", &None, Box::new(lock), "/work").unwrap();
        let context = ResolutionContext::new();
        assert_eq!(
            source.dependencies(&context),
            Err(CarguixError::BadLockFileDependency(entry.to_string()))
        );
    }
}
