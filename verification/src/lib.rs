//! A governance engine for a heritage-artifact registry: participants submit
//! proposals, cast weighted votes, and the engine tallies, finalizes, and
//! executes approved proposals against the artifact directory.

pub mod types;
pub mod analytics;
pub mod audit;
pub mod auth;
pub mod content;
pub mod engine;
pub mod execute;
pub mod finalize;
pub mod hash;
pub mod laws;
pub mod stats;
pub mod store;
pub mod tally;
pub mod text;
pub mod validate;
