//! Verified core of a League of Legends terminal profile tool.
//!
//! The heart of the crate is the on-disk match cache: a per-account,
//! deduplicated, validated store of match records that is merged with freshly
//! fetched data, filtered (aborted "remake" games, games from a stale patch
//! split), sorted and exported for display.  Everything that computes or
//! decides lives here with a contract; network and file handling stay with the
//! callers, which pass plain values in and out.

pub mod account;
pub mod backfill;
pub mod cache;
pub mod cli;
pub mod config;
pub mod dragon;
pub mod info;
pub mod models;
pub mod paths;
pub mod search;
pub mod split;
pub mod text;
