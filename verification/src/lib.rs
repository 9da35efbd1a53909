//! Authoritative backend core for a multiplayer duel game: matchmaking,
//! per-match session coordination, deterministic turn resolution, rating
//! updates, and crash-recoverable snapshots.

pub mod api;
pub mod cache;
pub mod config;
pub mod game;
pub mod matchmaking;
pub mod protocol;
pub mod registry;
