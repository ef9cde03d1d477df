//! Management of package-manager environments for a fixed set of named
//! profiles: backend detection, self-installation of the lightweight backend,
//! and the backend invocation behind each environment operation.
use vstd::prelude::*;

pub mod commands;
pub mod documents;
pub mod env_run;
pub mod error;
pub mod exit;
pub mod installer;
pub mod invocation;
pub mod listing;
pub mod manager;
pub mod package_manager;
pub mod text;

pub use commands::{EnvArgs, EnvCommand};
pub use error::{EnvError, Result};
pub use manager::{CORE_ENV_NAME, EXTRA_ENV_NAME, SNAKEMAKE_ENV_NAME};
pub use package_manager::{PackageManager, PackageManagerDetector};

verus! {

} // verus!
