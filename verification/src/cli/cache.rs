//! The cache-management commands.

use vstd::prelude::*;

verus! {

use crate::cli::SummonerConfig;

/// The cache subcommand.
#[derive(Debug, Clone)]
pub struct Cache {
    pub action: CacheAction,
}

/// What to do with the cache.
#[derive(Debug, Clone)]
pub enum CacheAction {
    Clear(Clear),
    Load(Load),
}

/// Clear one account's cache, or all caches when no account is named.
#[derive(Debug, Clone)]
pub struct Clear {
    pub summoner: Option<SummonerConfig>,
}

/// Backfill one account's cache.
#[derive(Debug, Clone)]
pub struct Load {
    pub summoner: SummonerConfig,
    /// Number of matches to load; `None` loads until the history ends.
    pub matches: Option<i32>,
}

} // verus!
