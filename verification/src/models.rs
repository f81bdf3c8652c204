//! Data models of the crate: match records and the statistics derived from
//! them.

pub mod champion_stats;
pub mod matches;
pub mod ranked;
