//! Resolution of a root crate into the set of package definitions of the
//! crate and of all it depends on: one definition per crate and version, each
//! with a source locator, a content hash and the package names of its direct
//! dependencies.

pub mod carguix;
pub mod context;
pub mod crate_ref;
pub mod errors;
pub mod guix;
pub mod manifest;
pub mod naming;
pub mod paths;
pub mod resolver;
pub mod text;

pub use crate::carguix::{Carguix, CrateIdentity, PackageEntry, Progress};
pub use crate::context::{
    IndexedCrate, IndexedDependency, IndexedVersion, LocalCrate, Lookup, ResolutionContext,
};
pub use crate::crate_ref::{
    CargoLock, CargoLockPackage, CrateRef, CrateSource, GitSource, LockSource, PathSource,
    RegistrySource, Resolution, SimpleSource,
};
pub use crate::errors::CarguixError;
pub use crate::guix::{hash, HashCache, HashStep, Module, Package};
pub use crate::manifest::{Manifest, ManifestDependency, ManifestPackage, ManifestTarget};
pub use crate::paths::{LocalPath, PathTable};
