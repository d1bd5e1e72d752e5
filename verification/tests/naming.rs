use carguix::naming::{
    definition_name, file_locator, package_name, prefixed_name, registry_locator, versioned_name,
};

#[test]
fn package_name_is_kebab_name_and_version() {
    assert_eq!(package_name("Foo-Bar", "1.2.3"), "foo-bar-1.2.3");
}

#[test]
fn definition_name_is_prefixed_kebab_name() {
    assert_eq!(definition_name("Foo-Bar"), "rust-foo-bar");
}

#[test]
fn package_name_splits_words_at_underscores_and_capitals() {
    assert_eq!(package_name("serde_json", "1.0.0"), "serde-json-1.0.0");
    assert_eq!(package_name("XMLHttpRequest", "0.1.0"), "xml-http-request-0.1.0");
}

#[test]
fn definition_name_of_a_plain_name_only_gains_the_prefix() {
    assert_eq!(definition_name("serde"), "rust-serde");
}

#[test]
fn versioned_name_joins_with_a_hyphen() {
    assert_eq!(versioned_name("foo-bar", "1.2.3"), "foo-bar-1.2.3");
    assert_eq!(versioned_name("", ""), "-");
}

#[test]
fn prefixed_name_puts_rust_in_front() {
    assert_eq!(prefixed_name("foo-bar"), "rust-foo-bar");
    assert_eq!(prefixed_name(""), "rust-");
}

#[test]
fn registry_locator_is_the_download_address() {
    assert_eq!(
        registry_locator("serde", "1.0.104"),
        "https://crates.io/api/v1/crates/serde/1.0.104/download"
    );
}

#[test]
fn registry_locator_keeps_the_name_as_written() {
    assert_eq!(
        registry_locator("Foo_Bar", "0.1.0"),
        "https://crates.io/api/v1/crates/Foo_Bar/0.1.0/download"
    );
}

#[test]
fn file_locator_prefixes_the_scheme() {
    assert_eq!(file_locator("/home/me/crate"), "file:///home/me/crate");
}
