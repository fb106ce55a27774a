//! The records kept for each vault.

pub mod policy;
pub mod position;
pub mod progress;

pub use policy::PolicyState;
pub use position::PositionState;
pub use progress::ProgressState;
