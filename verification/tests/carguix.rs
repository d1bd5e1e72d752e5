use carguix::{
    CargoLock, CargoLockPackage, Carguix, CarguixError, CrateIdentity, CrateRef, CrateSource,
    GitSource, HashCache, IndexedCrate, IndexedDependency, IndexedVersion, Lookup, Progress,
    ResolutionContext, SimpleSource,
};

fn simple(name: &str, version: &str, dependencies: Vec<SimpleSource>) -> SimpleSource {
    SimpleSource::new(name, version, &format!("file:///{}/{}", name, version), dependencies)
}

fn root_of(source: SimpleSource) -> CrateRef {
    let name = source.crate_name();
    CrateRef::new(&name, CrateSource::Simple(source))
}

/// Drives a walk to its end, answering every hash lookup with a digest made
/// from the locator, and counts the hashes computed.
fn drain(walk: &mut Carguix, context: &ResolutionContext, cache: &mut HashCache) -> Result<usize, CarguixError> {
    let mut hashed = 0;
    loop {
        match walk.process_crate(context, cache)? {
            Progress::Finished => return Ok(hashed),
            Progress::Skipped | Progress::Added => {}
            Progress::Needs(Lookup::Hash(locator)) => {
                hashed += 1;
                cache.insert(&locator, &format!("hash-of-{}", locator));
            }
            Progress::Needs(other) => panic!("unexpected lookup {:?}", other),
        }
    }
}

#[test]
fn diamond_dependencies_collapse_to_one_definition() {
    let x = simple("x", "1.0.0", vec![]);
    let a = simple("a", "1.0.0", vec![x.clone()]);
    let b = simple("b", "1.0.0", vec![x.clone()]);
    let root = simple("root", "0.1.0", vec![a, b]);
    let mut walk = Carguix::new(root_of(root));
    let context = ResolutionContext::new();
    let mut cache = HashCache::new();
    let hashed = drain(&mut walk, &context, &mut cache).unwrap();
    let lines = walk.packages().unwrap();
    let names: Vec<(&str, &str)> =
        lines.iter().map(|line| (line.crate_name.as_str(), line.version.as_str())).collect();
    assert_eq!(names, vec![("root", "0.1.0"), ("a", "1.0.0"), ("b", "1.0.0"), ("x", "1.0.0")]);
    assert_eq!(lines.iter().filter(|line| line.crate_name == "x").count(), 1);
    assert_eq!(lines[1].package.cargo_inputs, vec!["x-1.0.0".to_string()]);
    assert_eq!(lines[2].package.cargo_inputs, vec!["x-1.0.0".to_string()]);
    assert_eq!(lines[3].package.package_name, "x-1.0.0");
    assert_eq!(hashed, 4);
    assert!(walk.is_finished());
}

#[test]
fn no_two_lines_have_the_same_name_and_version() {
    let shared = simple("shared", "1.0.0", vec![]);
    let middle = simple("middle", "1.0.0", vec![shared.clone(), shared.clone()]);
    let root = simple("root", "0.1.0", vec![middle.clone(), shared.clone(), middle]);
    let mut walk = Carguix::new(root_of(root));
    let context = ResolutionContext::new();
    let mut cache = HashCache::new();
    drain(&mut walk, &context, &mut cache).unwrap();
    let lines = walk.packages().unwrap();
    assert_eq!(lines.len(), 3);
    for (i, first) in lines.iter().enumerate() {
        for second in lines.iter().skip(i + 1) {
            assert!(first.crate_name != second.crate_name || first.version != second.version);
        }
    }
}

#[test]
fn two_versions_of_one_crate_are_two_lines() {
    let old = simple("x", "1.0.0", vec![]);
    let new = simple("x", "2.0.0", vec![]);
    let root = simple("root", "0.1.0", vec![old, new]);
    let mut walk = Carguix::new(root_of(root));
    let context = ResolutionContext::new();
    let mut cache = HashCache::new();
    drain(&mut walk, &context, &mut cache).unwrap();
    assert_eq!(walk.packages().unwrap().len(), 3);
    assert_eq!(walk.package_count(), 3);
}

#[test]
fn the_walk_visits_breadth_first() {
    let deep = simple("deep", "1.0.0", vec![]);
    let left = simple("left", "1.0.0", vec![deep]);
    let right = simple("right", "1.0.0", vec![]);
    let root = simple("root", "0.1.0", vec![left, right]);
    let mut walk = Carguix::new(root_of(root));
    let context = ResolutionContext::new();
    let mut cache = HashCache::new();
    drain(&mut walk, &context, &mut cache).unwrap();
    let names: Vec<&str> =
        walk.packages().unwrap().iter().map(|line| line.crate_name.as_str()).collect();
    assert_eq!(names, vec!["root", "left", "right", "deep"]);
}

#[test]
fn a_missing_hash_is_asked_for_and_nothing_changes() {
    let root = simple("root", "0.1.0", vec![]);
    let mut walk = Carguix::new(root_of(root));
    let context = ResolutionContext::new();
    let mut cache = HashCache::new();
    let before = Carguix::new(root_of(simple("root", "0.1.0", vec![])));
    assert_eq!(
        walk.process_crate(&context, &cache),
        Ok(Progress::Needs(Lookup::Hash("file:///root/0.1.0".to_string())))
    );
    assert_eq!(walk, before);
    cache.insert("file:///root/0.1.0", "0abc");
    assert_eq!(walk.process_crate(&context, &cache), Ok(Progress::Added));
    assert_eq!(walk.packages().unwrap()[0].package.hash, "0abc");
    assert_eq!(walk.process_crate(&context, &cache), Ok(Progress::Finished));
    assert_eq!(walk.process_crate(&context, &cache), Ok(Progress::Finished));
}

#[test]
fn a_crate_seen_before_is_dropped_without_a_hash_lookup() {
    let x = simple("x", "1.0.0", vec![]);
    let root = simple("root", "0.1.0", vec![x.clone(), x]);
    let mut walk = Carguix::new(root_of(root));
    let context = ResolutionContext::new();
    let mut cache = HashCache::new();
    cache.insert("file:///root/0.1.0", "r");
    cache.insert("file:///x/1.0.0", "x");
    assert_eq!(walk.process_crate(&context, &cache), Ok(Progress::Added));
    assert_eq!(walk.process_crate(&context, &cache), Ok(Progress::Added));
    let empty = HashCache::new();
    assert_eq!(walk.process_crate(&context, &empty), Ok(Progress::Skipped));
    assert!(walk.is_finished());
    assert!(walk.already_added("x", "1.0.0"));
    assert!(!walk.already_added("x", "2.0.0"));
}

#[test]
fn a_hash_is_asked_for_before_the_dependencies() {
    let root = CrateRef::new("remote", CrateSource::Git(GitSource::new("remote", "1.0.0", "https://example.org/remote.git")));
    let mut walk = Carguix::new(root);
    let context = ResolutionContext::new();
    let mut cache = HashCache::new();
    assert_eq!(
        walk.process_crate(&context, &cache),
        Ok(Progress::Needs(Lookup::Hash("https://example.org/remote.git".to_string())))
    );
    cache.insert("https://example.org/remote.git", "0abc");
    assert_eq!(
        walk.process_crate(&context, &cache),
        Err(CarguixError::DependencyProcessingFailed(
            Box::new(CarguixError::GitSourceUnsupported("remote".to_string())),
            "remote".to_string(),
            "1.0.0".to_string()
        ))
    );
    assert_eq!(walk.packages(), None);
    assert_eq!(walk.to_module(), None);
}

#[test]
fn a_failing_dependency_ends_the_walk() {
    let lock = CargoLock {
        package: vec![CargoLockPackage {
            name: "app".to_string(),
            version: "0.1.0".to_string(),
            source: None,
            dependencies: vec!["bare".to_string()],
        }],
    };
    let mut walk = Carguix::new(CrateRef::lock("app", &None, lock, "/work").unwrap());
    let context = ResolutionContext::new();
    let mut cache = HashCache::new();
    assert_eq!(
        drain(&mut walk, &context, &mut cache),
        Err(CarguixError::DependencyProcessingFailed(
            Box::new(CarguixError::BadLockFileDependency("bare".to_string())),
            "app".to_string(),
            "0.1.0".to_string()
        ))
    );
    assert_eq!(walk.packages(), None);
    assert_eq!(walk.package_count(), 0);
}

#[test]
fn registry_lookups_are_asked_for_one_by_one() {
    let mut context = ResolutionContext::new();
    context.record_indexed_crate(
        "app",
        Some(IndexedCrate {
            name: "app".to_string(),
            versions: vec![IndexedVersion {
                name: "app".to_string(),
                version: "1.0.0".to_string(),
                dependencies: vec![IndexedDependency {
                    crate_name: "dep".to_string(),
                    requirement: "^0.2".to_string(),
                }],
            }],
        }),
    );
    let mut walk = Carguix::new(CrateRef::registry("app", &None, &context).unwrap());
    let mut cache = HashCache::new();
    cache.insert("https://crates.io/api/v1/crates/app/1.0.0/download", "a");
    cache.insert("https://crates.io/api/v1/crates/dep/0.2.5/download", "d");
    assert_eq!(
        walk.process_crate(&context, &cache),
        Ok(Progress::Needs(Lookup::IndexedCrate("dep".to_string())))
    );
    context.record_indexed_crate(
        "dep",
        Some(IndexedCrate {
            name: "dep".to_string(),
            versions: vec![
                IndexedVersion { name: "dep".to_string(), version: "0.2.5".to_string(), dependencies: vec![] },
                IndexedVersion { name: "dep".to_string(), version: "0.2.1".to_string(), dependencies: vec![] },
                IndexedVersion { name: "dep".to_string(), version: "0.3.0".to_string(), dependencies: vec![] },
            ],
        }),
    );
    assert_eq!(walk.process_crate(&context, &cache), Ok(Progress::Added));
    assert_eq!(walk.process_crate(&context, &cache), Ok(Progress::Added));
    assert_eq!(walk.process_crate(&context, &cache), Ok(Progress::Finished));
    let module = walk.to_module().unwrap();
    assert_eq!(module.packages.len(), 2);
    assert_eq!(module.packages[0].name, "rust-app");
    assert_eq!(module.packages[0].cargo_inputs, vec!["dep-0.2.5".to_string()]);
    assert_eq!(module.packages[1].package_name, "dep-0.2.5");
    assert_eq!(module.packages[1].hash, "d");
}

#[test]
fn no_graph_is_handed_out_before_the_walk_is_over() {
    let x = simple("x", "1.0.0", vec![]);
    let root = simple("root", "0.1.0", vec![x]);
    let mut walk = Carguix::new(root_of(root));
    let context = ResolutionContext::new();
    let mut cache = HashCache::new();
    cache.insert("file:///root/0.1.0", "r");
    assert_eq!(walk.packages(), None);
    assert_eq!(walk.process_crate(&context, &cache), Ok(Progress::Added));
    assert_eq!(walk.package_count(), 1);
    assert!(!walk.is_finished());
    assert_eq!(walk.packages(), None);
    assert_eq!(walk.to_module(), None);
}

#[test]
fn hashes_already_cached_are_not_asked_for() {
    let x = simple("x", "1.0.0", vec![]);
    let root = simple("root", "0.1.0", vec![x]);
    let mut walk = Carguix::new(root_of(root));
    let context = ResolutionContext::new();
    let mut cache = HashCache::new();
    cache.insert("file:///x/1.0.0", "known");
    let hashed = drain(&mut walk, &context, &mut cache).unwrap();
    assert_eq!(hashed, 1);
    assert_eq!(walk.packages().unwrap()[1].package.hash, "known");
}

#[test]
fn drain_runs_until_a_lookup_is_needed() {
    let x = simple("x", "1.0.0", vec![]);
    let y = simple("y", "1.0.0", vec![]);
    let root = simple("root", "0.1.0", vec![x.clone(), x, y]);
    let mut walk = Carguix::new(root_of(root));
    let context = ResolutionContext::new();
    let mut cache = HashCache::new();
    cache.insert("file:///root/0.1.0", "r");
    cache.insert("file:///x/1.0.0", "x");
    assert_eq!(
        walk.drain(&context, &cache, usize::MAX),
        Ok(Progress::Needs(Lookup::Hash("file:///y/1.0.0".to_string())))
    );
    assert_eq!(walk.package_count(), 2);
    cache.insert("file:///y/1.0.0", "y");
    assert_eq!(walk.drain(&context, &cache, usize::MAX), Ok(Progress::Finished));
    assert_eq!(walk.packages().unwrap().len(), 3);
}

#[test]
fn drain_stops_at_its_limit() {
    let x = simple("x", "1.0.0", vec![]);
    let root = simple("root", "0.1.0", vec![x.clone(), x]);
    let mut walk = Carguix::new(root_of(root));
    let context = ResolutionContext::new();
    let mut cache = HashCache::new();
    cache.insert("file:///root/0.1.0", "r");
    cache.insert("file:///x/1.0.0", "x");
    assert_eq!(walk.drain(&context, &cache, 2), Ok(Progress::Added));
    assert_eq!(walk.package_count(), 2);
    assert!(!walk.is_finished());
    assert_eq!(walk.drain(&context, &cache, 1), Ok(Progress::Skipped));
    assert!(walk.is_finished());
    assert_eq!(walk.drain(&context, &cache, 1), Ok(Progress::Finished));
}

#[test]
fn drain_with_no_limit_left_still_takes_one_step() {
    let root = simple("root", "0.1.0", vec![]);
    let mut walk = Carguix::new(root_of(root));
    let context = ResolutionContext::new();
    let mut cache = HashCache::new();
    cache.insert("file:///root/0.1.0", "r");
    assert_eq!(walk.drain(&context, &cache, 0), Ok(Progress::Added));
    assert_eq!(walk.drain(&context, &cache, 0), Ok(Progress::Finished));
}

#[test]
fn drain_ends_at_the_first_failure() {
    let root = CrateRef::new(
        "remote",
        CrateSource::Git(GitSource::new("remote", "1.0.0", "https://example.org/remote.git")),
    );
    let mut walk = Carguix::new(root);
    let context = ResolutionContext::new();
    let mut cache = HashCache::new();
    cache.insert("https://example.org/remote.git", "0abc");
    assert_eq!(
        walk.drain(&context, &cache, usize::MAX),
        Err(CarguixError::DependencyProcessingFailed(
            Box::new(CarguixError::GitSourceUnsupported("remote".to_string())),
            "remote".to_string(),
            "1.0.0".to_string()
        ))
    );
    assert_eq!(walk.packages(), None);
}

#[test]
fn crates_that_share_a_locator_are_hashed_once() {
    let first = SimpleSource::new("first", "1.0.0", "file:///shared", vec![]);
    let second = SimpleSource::new("second", "1.0.0", "file:///shared", vec![]);
    let root = SimpleSource::new("root", "0.1.0", "file:///root", vec![first, second]);
    let mut walk = Carguix::new(root_of(root));
    let context = ResolutionContext::new();
    let mut cache = HashCache::new();
    let hashed = drain(&mut walk, &context, &mut cache).unwrap();
    assert_eq!(hashed, 2);
    let lines = walk.packages().unwrap();
    assert_eq!(lines.len(), 3);
    assert_eq!(lines[1].package.hash, lines[2].package.hash);
    assert_eq!(lines[1].package.hash, "hash-of-file:///shared");
}

#[test]
fn the_finished_graph_has_a_line_for_every_dependency() {
    let x = simple("x", "1.0.0", vec![]);
    let a = simple("a", "1.0.0", vec![x.clone()]);
    let b = simple("b", "1.0.0", vec![x, a.clone()]);
    let root = simple("root", "0.1.0", vec![a, b]);
    let mut walk = Carguix::new(root_of(root));
    let context = ResolutionContext::new();
    let mut cache = HashCache::new();
    drain(&mut walk, &context, &mut cache).unwrap();
    let lines = walk.packages().unwrap();
    assert!(lines.iter().any(|line| line.crate_name == "root" && line.version == "0.1.0"));
    for line in lines.iter() {
        for dependency in line.dependencies.iter() {
            assert!(lines.iter().any(|other| other.crate_name == dependency.crate_name
                && other.version == dependency.version));
        }
    }
    let b_line = lines.iter().find(|line| line.crate_name == "b").unwrap();
    assert_eq!(
        b_line.dependencies,
        vec![
            CrateIdentity { crate_name: "x".to_string(), version: "1.0.0".to_string() },
            CrateIdentity { crate_name: "a".to_string(), version: "1.0.0".to_string() },
        ]
    );
}
