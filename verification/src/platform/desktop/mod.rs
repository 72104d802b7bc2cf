//! Desktop environments.
pub mod cosmic;

pub use cosmic::{CosmicCommand, CosmicDetector, CosmicOperation, CosmicProbeDetector};
