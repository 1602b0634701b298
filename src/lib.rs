//! Orchestration of support-bundle dumps for a storage cluster, and the
//! initialize-once cache of pool statistics exposed to a metrics scraper.
//!
//! A dump is driven step by step: `dump::Dump` decides what to do next for a
//! resource selection, the caller performs it and hands back its outcome, and
//! the failures met along the way end in one verdict (`errors`).

pub mod errors;
pub mod operations;
pub mod dump;
pub mod cache;
pub mod config;
