//! The duel engine: data model, deterministic turn resolution, rating
//! updates, and the per-match session state machine with its snapshot.

pub mod logic;
pub mod scoring;
pub mod session;
pub mod snapshot;
pub mod types;
