use carguix::guix::{archive_name, local_step, scratch_file_name};
use carguix::{hash, CarguixError, CrateRef, CrateSource, HashCache, HashStep, Module, Package, SimpleSource};

#[test]
fn a_cached_locator_needs_no_work() {
    let mut cache = HashCache::new();
    cache.insert("https://example.com/a.crate", "0abc");
    assert_eq!(hash(&cache, "https://example.com/a.crate"), Ok(HashStep::Cached("0abc".to_string())));
}

#[test]
fn a_cached_locator_is_not_even_parsed() {
    let mut cache = HashCache::new();
    cache.insert("not a url", "0abc");
    assert_eq!(hash(&cache, "not a url"), Ok(HashStep::Cached("0abc".to_string())));
}

#[test]
fn a_local_locator_is_hashed_where_it_lies() {
    let cache = HashCache::new();
    assert_eq!(hash(&cache, "file:///work/app"), Ok(HashStep::HashPath("/work/app".to_string())));
}

#[test]
fn a_remote_locator_is_downloaded_to_its_scratch_file() {
    let cache = HashCache::new();
    assert_eq!(
        hash(&cache, "https://crates.io/api/v1/crates/serde/1.0.104/download"),
        Ok(HashStep::Download {
            url: "https://crates.io/api/v1/crates/serde/1.0.104/download".to_string(),
            file_name: "L1TFWWXn1YZlarDKL3-YGtEl9EB8j_AyUvmrVGqt7SE.tar.gz".to_string()
        })
    );
}

#[test]
fn a_locator_that_is_no_url_is_refused() {
    let cache = HashCache::new();
    assert_eq!(
        hash(&cache, "not a url"),
        Err(CarguixError::UrlParsingError("not a url".to_string()))
    );
}

#[test]
fn a_file_locator_on_another_host_names_no_path() {
    let cache = HashCache::new();
    assert_eq!(
        hash(&cache, "file://elsewhere.example/work/app"),
        Err(CarguixError::UrlNotAFilePath("file://elsewhere.example/work/app".to_string()))
    );
}

#[test]
fn scratch_file_name_is_the_encoded_digest_of_the_locator() {
    assert_eq!(
        scratch_file_name("https://example.com/a.crate"),
        "h0IXY_JCasotCUfX4vqrfwm0VUXlyKSaozy_MWDH-fw.tar.gz"
    );
}

#[test]
fn scratch_file_names_differ_between_locators() {
    assert_ne!(
        scratch_file_name("https://example.com/a.crate"),
        scratch_file_name("https://example.com/b.crate")
    );
}

#[test]
fn archive_name_appends_the_extension() {
    assert_eq!(archive_name("abc"), "abc.tar.gz");
    assert_eq!(archive_name(""), ".tar.gz");
}

#[test]
fn local_step_hashes_the_path_or_fails() {
    assert_eq!(
        local_step("file:///x", Some("/x".to_string())),
        Ok(HashStep::HashPath("/x".to_string()))
    );
    assert_eq!(
        local_step("file://host/x", None),
        Err(CarguixError::UrlNotAFilePath("file://host/x".to_string()))
    );
}

#[test]
fn hashing_twice_computes_once() {
    let locator = "https://example.com/a.crate";
    let mut cache = HashCache::new();
    let mut computations = 0;
    let mut digests = Vec::new();
    for _ in 0..2 {
        let digest = match hash(&cache, locator).unwrap() {
            HashStep::Cached(digest) => digest,
            HashStep::Download { .. } | HashStep::HashPath(_) => {
                computations += 1;
                cache.insert_output(locator, "0sha256digest\n")
            }
        };
        digests.push(digest);
    }
    assert_eq!(computations, 1);
    assert_eq!(digests[0], "0sha256digest");
    assert_eq!(digests[0], digests[1]);
}

#[test]
fn the_cache_is_keyed_by_locator() {
    let mut cache = HashCache::new();
    cache.insert("https://example.com/a.crate", "aaa");
    cache.insert("https://example.com/b.crate", "bbb");
    assert_eq!(cache.retrieve("https://example.com/a.crate"), Some("aaa".to_string()));
    assert_eq!(cache.retrieve("https://example.com/b.crate"), Some("bbb".to_string()));
    assert_eq!(cache.retrieve("https://example.com/c.crate"), None);
}

#[test]
fn a_later_digest_replaces_an_earlier_one() {
    let mut cache = HashCache::new();
    cache.insert("file:///x", "old");
    cache.insert("file:///x", "new");
    assert_eq!(cache.retrieve("file:///x"), Some("new".to_string()));
}

#[test]
fn insert_output_trims_what_the_tool_printed() {
    let mut cache = HashCache::new();
    assert_eq!(cache.insert_output("file:///x", "  0abc \n"), "0abc");
    assert_eq!(cache.retrieve("file:///x"), Some("0abc".to_string()));
}

#[test]
fn the_empty_cache_holds_nothing() {
    assert_eq!(HashCache::new().retrieve("file:///x"), None);
}

#[test]
fn default_package_is_empty() {
    let package = Package::default();
    assert_eq!(package.name, "");
    assert_eq!(package.build_system, "");
    assert_eq!(package.license, None);
    assert!(package.cargo_inputs.is_empty());
    assert!(Module::default().packages.is_empty());
}

#[test]
fn package_of_a_crate_names_its_dependencies() {
    let leaf = SimpleSource::new("Leaf_Crate", "2.0.0", "file:///leaf", vec![]);
    let other = SimpleSource::new("other", "0.1.0", "file:///other", vec![]);
    let root = CrateRef::new(
        "Root_Crate",
        CrateSource::Simple(SimpleSource::new(
            "Root_Crate",
            "1.0.0",
            "file:///root",
            vec![leaf.clone(), other.clone()],
        )),
    );
    let dependencies = vec![
        CrateRef::new("Leaf_Crate", CrateSource::Simple(leaf)),
        CrateRef::new("other", CrateSource::Simple(other)),
    ];
    let package = root.to_guix_package("0hash", &dependencies);
    assert_eq!(
        package,
        Package {
            name: "rust-root-crate".to_string(),
            package_name: "root-crate-1.0.0".to_string(),
            version: "1.0.0".to_string(),
            source: "file:///root".to_string(),
            hash: "0hash".to_string(),
            build_system: "cargo-build-system".to_string(),
            home_page: None,
            synopsis: None,
            description: None,
            license: None,
            native_inputs: vec![],
            inputs: vec![],
            propagated_inputs: vec![],
            cargo_inputs: vec!["leaf-crate-2.0.0".to_string(), "other-0.1.0".to_string()],
        }
    );
    assert_eq!(package.clone(), package);
}
