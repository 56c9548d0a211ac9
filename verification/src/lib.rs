//! Package inventory collection across Homebrew, npm and pip.

pub mod brew;
mod clock;
pub mod collect;
pub mod demo;
pub mod error;
pub mod json;
pub mod laws;
pub mod model;
pub mod npm;
pub mod pip;
pub mod probe;
pub mod runner;
pub mod table;
pub mod text;

pub use error::{CollectionError, CommandError};
pub use model::{
    CollectionSummary, CollectionWarning, InventorySnapshot, PackageManager, PackageRecord,
    PackageStatus,
};
