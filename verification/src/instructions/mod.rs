//! The instructions of the program.

pub mod crank_distribution;
pub mod initialize_policy;
pub mod initialize_position;

pub use crank_distribution::{CrankDistribution, CrankDistributionParams};
pub use initialize_policy::{InitializePolicy, InitializePolicyParams};
pub use initialize_position::{InitializePosition, InitializePositionParams};
