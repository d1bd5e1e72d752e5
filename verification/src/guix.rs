//! Package definitions, and the cache of content hashes.
//!
//! Hashing needs the world: an artifact is downloaded and an external tool
//! computes its digest. The library decides and the caller acts. `hash` says
//! what is to be done for a locator: nothing, where the cache holds its
//! digest; hash a local path; or download to a scratch file and hash that. The
//! caller does it and writes the digest into the cache with `insert`.

use vstd::prelude::*;
use vstd::string::*;
use vstd::utf8::encode_utf8;
use sha2::Digest;
use crate::crate_ref::{crate_views, CrateRef, CrateRefView};
use crate::errors::{CarguixError, ErrorView};
use crate::text::{
    concatenate, copy_optional, copy_strings, is_trim_of, optional_text, same_text, texts, trim,
};

verus! {

/// The definition of one crate for the packaging system.
#[derive(Debug, PartialEq, Eq)]
pub struct Package {
    pub name: String,
    pub package_name: String,
    pub version: String,
    pub source: String,
    pub hash: String,
    pub build_system: String,
    pub home_page: Option<String>,
    pub synopsis: Option<String>,
    pub description: Option<String>,
    pub license: Option<String>,
    pub native_inputs: Vec<String>,
    pub inputs: Vec<String>,
    pub propagated_inputs: Vec<String>,
    pub cargo_inputs: Vec<String>,
}

/// A package definition over character sequences.
pub struct PackageView {
    pub name: Seq<char>,
    pub package_name: Seq<char>,
    pub version: Seq<char>,
    pub source: Seq<char>,
    pub hash: Seq<char>,
    pub build_system: Seq<char>,
    pub home_page: Option<Seq<char>>,
    pub synopsis: Option<Seq<char>>,
    pub description: Option<Seq<char>>,
    pub license: Option<Seq<char>>,
    pub native_inputs: Seq<Seq<char>>,
    pub inputs: Seq<Seq<char>>,
    pub propagated_inputs: Seq<Seq<char>>,
    pub cargo_inputs: Seq<Seq<char>>,
}

impl View for Package {
    type V = PackageView;

    open spec fn view(&self) -> PackageView {
        PackageView {
            name: self.name@,
            package_name: self.package_name@,
            version: self.version@,
            source: self.source@,
            hash: self.hash@,
            build_system: self.build_system@,
            home_page: optional_text(self.home_page),
            synopsis: optional_text(self.synopsis),
            description: optional_text(self.description),
            license: optional_text(self.license),
            native_inputs: texts(self.native_inputs@),
            inputs: texts(self.inputs@),
            propagated_inputs: texts(self.propagated_inputs@),
            cargo_inputs: texts(self.cargo_inputs@),
        }
    }
}

/// The definition with every string empty, no optional field and no input.
pub open spec fn empty_package() -> PackageView {
    PackageView {
        name: Seq::empty(),
        package_name: Seq::empty(),
        version: Seq::empty(),
        source: Seq::empty(),
        hash: Seq::empty(),
        build_system: Seq::empty(),
        home_page: None,
        synopsis: None,
        description: None,
        license: None,
        native_inputs: Seq::empty(),
        inputs: Seq::empty(),
        propagated_inputs: Seq::empty(),
        cargo_inputs: Seq::empty(),
    }
}

impl Default for Package {
    fn default() -> (package: Package)
        ensures
            package@ == empty_package(),
    {
        let package = Package {
            name: String::new(),
            package_name: String::new(),
            version: String::new(),
            source: String::new(),
            hash: String::new(),
            build_system: String::new(),
            home_page: None,
            synopsis: None,
            description: None,
            license: None,
            native_inputs: Vec::new(),
            inputs: Vec::new(),
            propagated_inputs: Vec::new(),
            cargo_inputs: Vec::new(),
        };
        assert(package@.native_inputs =~= Seq::<Seq<char>>::empty());
        assert(package@.inputs =~= Seq::<Seq<char>>::empty());
        assert(package@.propagated_inputs =~= Seq::<Seq<char>>::empty());
        assert(package@.cargo_inputs =~= Seq::<Seq<char>>::empty());
        package
    }
}

impl Clone for Package {
    fn clone(&self) -> (copy: Package)
        ensures
            copy@ == self@,
    {
        Package {
            name: self.name.clone(),
            package_name: self.package_name.clone(),
            version: self.version.clone(),
            source: self.source.clone(),
            hash: self.hash.clone(),
            build_system: self.build_system.clone(),
            home_page: copy_optional(&self.home_page),
            synopsis: copy_optional(&self.synopsis),
            description: copy_optional(&self.description),
            license: copy_optional(&self.license),
            native_inputs: copy_strings(&self.native_inputs),
            inputs: copy_strings(&self.inputs),
            propagated_inputs: copy_strings(&self.propagated_inputs),
            cargo_inputs: copy_strings(&self.cargo_inputs),
        }
    }
}

/// The views of a sequence of package definitions.
pub open spec fn package_views(packages: Seq<Package>) -> Seq<PackageView> {
    packages.map_values(|package: Package| package@)
}

/// A set of package definitions, as it is rendered into one module.
#[derive(Debug, PartialEq, Eq)]
pub struct Module {
    pub packages: Vec<Package>,
}

impl View for Module {
    type V = Seq<PackageView>;

    open spec fn view(&self) -> Seq<PackageView> {
        package_views(self.packages@)
    }
}

impl Default for Module {
    fn default() -> (module: Module)
        ensures
            module@ == Seq::<PackageView>::empty(),
    {
        let module = Module { packages: Vec::new() };
        assert(module@ =~= Seq::<PackageView>::empty());
        module
    }
}

/// The package names of a sequence of crates.
pub open spec fn package_names(crates: Seq<CrateRefView>) -> Seq<Seq<char>> {
    crates.map_values(|crate_ref: CrateRefView| crate_ref.package_name())
}

/// The definition of a crate with the content hash `hash` and the given
/// dependencies: named by the crate's definition name, fetched from its
/// source locator, built by the cargo build system, with the package names of
/// its dependencies as inputs.
pub open spec fn spec_package(
    crate_ref: CrateRefView,
    hash: Seq<char>,
    dependencies: Seq<CrateRefView>,
) -> PackageView {
    PackageView {
        name: crate_ref.definition_name(),
        package_name: crate_ref.package_name(),
        version: crate_ref.version(),
        source: crate_ref.source(),
        hash,
        build_system: "cargo-build-system"@,
        cargo_inputs: package_names(dependencies),
        ..empty_package()
    }
}

impl CrateRef {
    /// The package definition of this crate, given its content hash and the
    /// crates it depends on.
    pub fn to_guix_package(&self, hash: &str, dependencies: &Vec<CrateRef>) -> (package: Package)
        ensures
            package@ == spec_package(self@, hash@, crate_views(dependencies@)),
    {
        let mut cargo_inputs: Vec<String> = Vec::new();
        for i in 0..dependencies.len()
            invariant
                cargo_inputs@.len() == i,
                forall|j: int| 0 <= j < i ==> cargo_inputs@[j]@ == dependencies@[j]@.package_name(),
        {
            cargo_inputs.push(dependencies[i].package_name());
        }
        assert(texts(cargo_inputs@) =~= package_names(crate_views(dependencies@)));
        let package = Package {
            name: self.definition_name(),
            package_name: self.package_name(),
            version: self.version(),
            source: self.source(),
            hash: hash.to_string(),
            build_system: "cargo-build-system".to_string(),
            home_page: None,
            synopsis: None,
            description: None,
            license: None,
            native_inputs: Vec::new(),
            inputs: Vec::new(),
            propagated_inputs: Vec::new(),
            cargo_inputs,
        };
        assert(package@.native_inputs =~= Seq::<Seq<char>>::empty());
        assert(package@.inputs =~= Seq::<Seq<char>>::empty());
        assert(package@.propagated_inputs =~= Seq::<Seq<char>>::empty());
        package
    }
}

/// One line of the hash cache: a source locator and the digest of what it
/// refers to.
#[derive(Debug, PartialEq, Eq)]
pub struct HashEntry {
    pub locator: String,
    pub digest: String,
}

/// What the lines of a cache say, a later line for a locator replacing an
/// earlier one.
pub open spec fn digests_of(entries: Seq<HashEntry>) -> Map<Seq<char>, Seq<char>>
    decreases entries.len(),
{
    if entries.len() == 0 {
        Map::empty()
    } else {
        digests_of(entries.drop_last()).insert(entries.last().locator@, entries.last().digest@)
    }
}

/// The cache of content hashes, keyed by source locator.
#[derive(Debug, PartialEq, Eq)]
pub struct HashCache {
    entries: Vec<HashEntry>,
}

impl View for HashCache {
    type V = Map<Seq<char>, Seq<char>>;

    closed spec fn view(&self) -> Map<Seq<char>, Seq<char>> {
        digests_of(self.entries@)
    }
}

impl HashCache {
    /// The cache that holds no digest.
    pub fn new() -> (cache: HashCache)
        ensures
            cache@ == Map::<Seq<char>, Seq<char>>::empty(),
    {
        HashCache { entries: Vec::new() }
    }

    /// The digest that the cache holds for `locator`, if it holds one.
    pub fn retrieve(&self, locator: &str) -> (found: Option<String>)
        ensures
            match found {
                Some(digest) => self@.contains_key(locator@) && self@[locator@] == digest@,
                None => !self@.contains_key(locator@),
            },
    {
        let ghost all = self.entries@;
        let mut i = self.entries.len();
        assert(all.subrange(0, i as int) =~= all);
        while i > 0
            invariant
                i <= self.entries@.len(),
                all == self.entries@,
                self@.contains_key(locator@) == digests_of(all.subrange(0, i as int)).contains_key(
                    locator@,
                ),
                self@.contains_key(locator@) ==> self@[locator@] == digests_of(
                    all.subrange(0, i as int),
                )[locator@],
            decreases i,
        {
            proof {
                let prefix = all.subrange(0, i as int);
                assert(prefix.drop_last() =~= all.subrange(0, i - 1));
                assert(prefix.last() == all[i - 1]);
            }
            i -= 1;
            if same_text(self.entries[i].locator.as_str(), locator) {
                return Some(self.entries[i].digest.clone());
            }
        }
        assert(all.subrange(0, 0) =~= Seq::<HashEntry>::empty());
        None
    }

    /// Writes into the cache, as the digest of `locator`, what the hashing
    /// tool printed for it, without the white space at its two ends, and
    /// returns that digest.
    pub fn insert_output(&mut self, locator: &str, output: &str) -> (digest: String)
        ensures
            exists|start: int, end: int| is_trim_of(output@, digest@, start, end),
            final(self)@ == old(self)@.insert(locator@, digest@),
    {
        let digest = trim(output);
        self.insert(locator, digest.as_str());
        digest
    }

    /// Writes the digest of `locator` into the cache.
    pub fn insert(&mut self, locator: &str, digest: &str)
        ensures
            final(self)@ == old(self)@.insert(locator@, digest@),
    {
        let ghost before = self.entries@;
        self.entries.push(HashEntry { locator: locator.to_string(), digest: digest.to_string() });
        assert(self.entries@.drop_last() =~= before);
    }
}

/// The SHA-256 digest of a byte sequence, as `sha2` computes it.
pub uninterp spec fn sha256(data: Seq<u8>) -> Seq<u8>;

/// The encoding of a byte sequence in the URL-safe base 64 alphabet without
/// padding, as `data_encoding::BASE64URL_NOPAD` computes it.
pub uninterp spec fn base64url_nopad(data: Seq<u8>) -> Seq<char>;

/// The scheme of a URL, as `reqwest::Url` reads it, or `None` where the text
/// is no URL.
pub uninterp spec fn url_scheme(text: Seq<char>) -> Option<Seq<char>>;

/// Feeds `data` to a fresh `sha2::Sha256` hasher and takes the result. The
/// digest is known here only by its name.
#[verifier::external_body]
pub(crate) fn sha256_digest(data: &[u8]) -> (digest: Vec<u8>)
    ensures
        digest@ == sha256(data@),
{
    let mut hasher = sha2::Sha256::new();
    hasher.input(data);
    hasher.result().to_vec()
}

/// Calls `data_encoding::BASE64URL_NOPAD.encode` on `data`. The encoding is
/// known here only by its name.
#[verifier::external_body]
pub(crate) fn encode_base64url(data: &[u8]) -> (encoded: String)
    ensures
        encoded@ == base64url_nopad(data@),
{
    data_encoding::BASE64URL_NOPAD.encode(data)
}

/// Parses `text` with `reqwest::Url::parse` and gives the scheme of the URL,
/// or `None` where the text does not parse.
#[verifier::external_body]
pub(crate) fn locator_scheme(text: &str) -> (scheme: Option<String>)
    ensures
        optional_text(scheme) == url_scheme(text@),
{
    match reqwest::Url::parse(text) {
        Ok(url) => Some(url.scheme().to_string()),
        Err(_) => None,
    }
}

/// Parses `text` with `reqwest::Url::parse` and asks `Url::to_file_path` for
/// the local path it names; `None` where either refuses. How a URL maps to a
/// path depends on the platform, so nothing is claimed of the path.
#[verifier::external_body]
pub(crate) fn locator_file_path(text: &str) -> (path: Option<String>) {
    match reqwest::Url::parse(text) {
        Ok(url) => match url.to_file_path() {
            Ok(path) => Some(path.to_string_lossy().into_owned()),
            Err(_) => None,
        },
        Err(_) => None,
    }
}

/// What is to be done to learn the content hash of a locator.
#[derive(Debug, PartialEq, Eq)]
pub enum HashStep {
    /// Nothing: the cache holds this digest.
    Cached(String),
    /// Hash the file or directory at this local path.
    HashPath(String),
    /// Download what `url` refers to into the scratch file `file_name`, then
    /// hash that file.
    Download { url: String, file_name: String },
}

/// A hash step over character sequences.
pub enum HashStepView {
    Cached(Seq<char>),
    HashPath(Seq<char>),
    Download { url: Seq<char>, file_name: Seq<char> },
}

impl View for HashStep {
    type V = HashStepView;

    open spec fn view(&self) -> HashStepView {
        match self {
            HashStep::Cached(digest) => HashStepView::Cached(digest@),
            HashStep::HashPath(path) => HashStepView::HashPath(path@),
            HashStep::Download { url, file_name } => HashStepView::Download {
                url: url@,
                file_name: file_name@,
            },
        }
    }
}

/// The view of the outcome of planning a hash.
pub open spec fn hash_step_view(outcome: Result<HashStep, CarguixError>) -> Result<
    HashStepView,
    ErrorView,
> {
    match outcome {
        Ok(step) => Ok(step@),
        Err(error) => Err(error@),
    }
}

/// The name of the scratch file for an encoded locator digest.
pub open spec fn spec_archive_name(encoded: Seq<char>) -> Seq<char> {
    encoded + ".tar.gz"@
}

/// The name of the scratch file that the artifact of `locator` is downloaded
/// to: the SHA-256 digest of the locator's bytes, encoded in URL-safe base 64
/// without padding, with the extension of a compressed archive.
pub open spec fn spec_scratch_file_name(locator: Seq<char>) -> Seq<char> {
    spec_archive_name(base64url_nopad(sha256(encode_utf8(locator))))
}

/// The name of the scratch file for an encoded locator digest.
pub fn archive_name(encoded: &str) -> (name: String)
    ensures
        name@ == spec_archive_name(encoded@),
{
    concatenate(encoded, ".tar.gz")
}

/// The name of the scratch file that the artifact of `locator` is downloaded
/// to.
pub fn scratch_file_name(locator: &str) -> (name: String)
    ensures
        name@ == spec_scratch_file_name(locator@),
{
    let digest = sha256_digest(locator.as_bytes());
    let encoded = encode_base64url(digest.as_slice());
    archive_name(encoded.as_str())
}

/// What is to be done for a locator of the `file` scheme, given the local
/// path that the locator was found to name, if any.
pub open spec fn spec_local_step(locator: Seq<char>, path: Option<Seq<char>>) -> Result<
    HashStepView,
    ErrorView,
> {
    match path {
        Some(path) => Ok(HashStepView::HashPath(path)),
        None => Err(ErrorView::UrlNotAFilePath(locator)),
    }
}

/// What is to be done for a locator of the `file` scheme: hash the local path
/// it names, or fail where it names none.
pub fn local_step(locator: &str, path: Option<String>) -> (outcome: Result<HashStep, CarguixError>)
    ensures
        hash_step_view(outcome) == spec_local_step(locator@, optional_text(path)),
{
    match path {
        Some(path) => Ok(HashStep::HashPath(path)),
        None => Err(CarguixError::UrlNotAFilePath(locator.to_string())),
    }
}

/// Whether `outcome` is what planning the hash of `locator` against `cache`
/// may give.
///
/// A locator in the cache is answered from the cache. Any other locator has
/// to be a URL. One of the `file` scheme is hashed where it lies, at the path
/// it names; any other is downloaded to its scratch file and hashed there.
pub open spec fn hash_plan_is(
    cache: Map<Seq<char>, Seq<char>>,
    locator: Seq<char>,
    outcome: Result<HashStepView, ErrorView>,
) -> bool {
    if cache.contains_key(locator) {
        outcome == Ok::<HashStepView, ErrorView>(HashStepView::Cached(cache[locator]))
    } else {
        match url_scheme(locator) {
            None => outcome == Err::<HashStepView, ErrorView>(ErrorView::UrlParsingError(locator)),
            Some(scheme) => if scheme == "file"@ {
                exists|path: Option<Seq<char>>| outcome == spec_local_step(locator, path)
            } else {
                outcome == Ok::<HashStepView, ErrorView>(
                    HashStepView::Download {
                        url: locator,
                        file_name: spec_scratch_file_name(locator),
                    },
                )
            },
        }
    }
}

/// Plans the content hash of what `url_str` refers to.
///
/// Nothing is read or fetched here: the outcome says what the caller has to
/// do, and the caller writes the digest it then has into the cache.
pub fn hash(cache: &HashCache, url_str: &str) -> (outcome: Result<HashStep, CarguixError>)
    ensures
        hash_plan_is(cache@, url_str@, hash_step_view(outcome)),
{
    match cache.retrieve(url_str) {
        Some(digest) => {
            return Ok(HashStep::Cached(digest));
        },
        None => {},
    }
    match locator_scheme(url_str) {
        None => Err(CarguixError::UrlParsingError(url_str.to_string())),
        Some(scheme) => {
            if same_text(scheme.as_str(), "file") {
                let path = locator_file_path(url_str);
                let outcome = local_step(url_str, path);
                assert(hash_step_view(outcome) == spec_local_step(url_str@, optional_text(path)));
                outcome
            } else {
                Ok(
                    HashStep::Download {
                        url: url_str.to_string(),
                        file_name: scratch_file_name(url_str),
                    },
                )
            }
        },
    }
}

/// A digest written into the cache is what the cache answers for its locator
/// from then on: planning the hash of that locator again asks for no work and
/// gives the same digest, whatever else is written for other locators.
pub proof fn lemma_hashed_once(
    cache: Map<Seq<char>, Seq<char>>,
    locator: Seq<char>,
    digest: Seq<char>,
    outcome: Result<HashStepView, ErrorView>,
)
    requires
        hash_plan_is(cache.insert(locator, digest), locator, outcome),
    ensures
        outcome == Ok::<HashStepView, ErrorView>(HashStepView::Cached(digest)),
{
}

/// Planning the hash of a locator that the cache holds gives the held digest
/// each time it is asked.
pub proof fn lemma_cached_hash_is_stable(
    cache: Map<Seq<char>, Seq<char>>,
    locator: Seq<char>,
    first: Result<HashStepView, ErrorView>,
    second: Result<HashStepView, ErrorView>,
)
    requires
        cache.contains_key(locator),
        hash_plan_is(cache, locator, first),
        hash_plan_is(cache, locator, second),
    ensures
        first == second,
        first == Ok::<HashStepView, ErrorView>(HashStepView::Cached(cache[locator])),
{
}

} // verus!
