//! Scrobble detection engine: turns periodic "now playing" snapshots into a
//! deduplicated stream of scrobble events, and ingests those events into a
//! normalized entity store without duplicate rows or duplicate tag fetches.

pub mod app;
pub mod clock;
pub mod errors;
pub mod lastfm;
pub mod models;
pub mod repository;
pub mod scrobbler;
pub mod spotify;
pub mod utils;
