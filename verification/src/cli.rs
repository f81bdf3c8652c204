//! The command surface of the tool, as plain data: what the user asked for.
//! The argument parser that fills these in lives with the binary; the values
//! themselves, and what they mean for the cache, are the library's.

pub mod cache;
pub mod lolfetch;

use vstd::prelude::*;

verus! {

use crate::account::RiotId;

/// Everything the command line carries.
#[derive(Debug, Clone)]
pub struct Cli {
    pub command: Commands,
    /// Verbose mode.
    pub verbose: bool,
    /// API key for the provider.
    pub api_key: String,
}

/// The two top-level commands.
#[derive(Debug, Clone)]
pub enum Commands {
    /// Cache management.
    Cache(cache::Cache),
    /// Default display mode.
    Display(lolfetch::Lolfetch),
}

/// Which account the command is about.
#[derive(Debug, Clone)]
pub struct SummonerConfig {
    /// The player's Riot ID (e.g. `abc#1234`).
    pub riot_id: RiotId,
    /// Server the account is registered on.
    pub server: LeagueServer,
}

/// The game servers a player can be registered on.
#[derive(Debug, Clone, Copy, PartialEq, Eq, Structural)]
pub enum LeagueServer {
    Na,
    Euw,
    Eune,
    Oce,
    Kr,
    Jp,
    Br,
    Las,
    Lan,
    Ru,
    Tr,
    Sg,
    Ph,
    Vn,
    Tw,
    Th,
    Mena,
    Pbe,
}

/// The provider's platform-route identifier of each server; also the
/// directory name under which the server's caches live.
pub open spec fn spec_route_str(s: LeagueServer) -> Seq<char> {
    match s {
        LeagueServer::Na => "NA1"@,
        LeagueServer::Euw => "EUW1"@,
        LeagueServer::Eune => "EUN1"@,
        LeagueServer::Oce => "OC1"@,
        LeagueServer::Kr => "KR"@,
        LeagueServer::Jp => "JP1"@,
        LeagueServer::Br => "BR1"@,
        LeagueServer::Las => "LA2"@,
        LeagueServer::Lan => "LA1"@,
        LeagueServer::Ru => "RU"@,
        LeagueServer::Tr => "TR1"@,
        LeagueServer::Sg => "SG2"@,
        LeagueServer::Ph => "PH2"@,
        LeagueServer::Vn => "VN2"@,
        LeagueServer::Tw => "TW2"@,
        LeagueServer::Th => "TH2"@,
        LeagueServer::Mena => "ME1"@,
        LeagueServer::Pbe => "PBE1"@,
    }
}

impl LeagueServer {
    /// The provider's platform-route identifier of this server.
    pub fn to_route_str(&self) -> (r: &'static str)
        ensures
            r@ == spec_route_str(*self),
    {
        match self {
            LeagueServer::Na => "NA1",
            LeagueServer::Euw => "EUW1",
            LeagueServer::Eune => "EUN1",
            LeagueServer::Oce => "OC1",
            LeagueServer::Kr => "KR",
            LeagueServer::Jp => "JP1",
            LeagueServer::Br => "BR1",
            LeagueServer::Las => "LA2",
            LeagueServer::Lan => "LA1",
            LeagueServer::Ru => "RU",
            LeagueServer::Tr => "TR1",
            LeagueServer::Sg => "SG2",
            LeagueServer::Ph => "PH2",
            LeagueServer::Vn => "VN2",
            LeagueServer::Tw => "TW2",
            LeagueServer::Th => "TH2",
            LeagueServer::Mena => "ME1",
            LeagueServer::Pbe => "PBE1",
        }
    }
}

} // verus!
