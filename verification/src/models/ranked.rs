//! Ranked standing of a player, reduced from the provider's league entry to
//! the fields the tool displays, and the icon each tier maps to.

use vstd::prelude::*;

verus! {

/// The competitive tiers, lowest first, plus the unranked placeholder.
#[derive(Debug, Clone, Copy, PartialEq, Eq, Structural)]
pub enum Tier {
    Iron,
    Bronze,
    Silver,
    Gold,
    Platinum,
    Emerald,
    Diamond,
    Master,
    Grandmaster,
    Challenger,
    Unranked,
}

/// The divisions inside a tier, highest first.
#[derive(Debug, Clone, Copy, PartialEq, Eq, Structural)]
pub enum Division {
    I,
    II,
    III,
    IV,
}

/// The queues a league entry can belong to, as far as the tool cares.
#[derive(Debug, Clone, Copy, PartialEq, Eq, Structural)]
pub enum QueueKind {
    RankedSolo5x5,
    RankedFlexSr,
    Other,
}

/// What the tool reads of the provider's league entry.
#[derive(Debug, Clone, PartialEq)]
pub struct LeagueEntryData {
    pub queue_type: QueueKind,
    pub tier: Option<Tier>,
    pub rank: Option<Division>,
    pub league_points: i32,
    pub wins: i32,
    pub losses: i32,
}

/// Ranked information of one player in one queue.
#[derive(Debug, Clone, PartialEq)]
pub struct RankedInfo {
    pub queue: QueueKind,
    pub tier: Tier,
    pub division: Option<Division>,
    pub lp: i32,
    pub wins: i32,
    pub losses: i32,
}

impl RankedInfo {
    /// Tries to reduce a league entry: only the two ranked queues qualify; a
    /// missing tier reads as unranked.
    pub fn from_entry(entry: LeagueEntryData) -> (r: Option<RankedInfo>)
        ensures
            match r {
                Some(info) => {
                    &&& (entry.queue_type == QueueKind::RankedSolo5x5 || entry.queue_type
                        == QueueKind::RankedFlexSr)
                    &&& info.queue == entry.queue_type
                    &&& info.tier == (match entry.tier {
                        Option::Some(t) => t,
                        Option::None => Tier::Unranked,
                    })
                    &&& info.division == entry.rank
                    &&& info.lp == entry.league_points
                    &&& info.wins == entry.wins
                    &&& info.losses == entry.losses
                },
                None => entry.queue_type != QueueKind::RankedSolo5x5 && entry.queue_type
                    != QueueKind::RankedFlexSr,
            },
    {
        match entry.queue_type {
            QueueKind::RankedSolo5x5 | QueueKind::RankedFlexSr => {},
            QueueKind::Other => {
                return None;
            },
        }
        let tier = match entry.tier {
            Some(t) => t,
            None => Tier::Unranked,
        };
        Some(
            RankedInfo {
                queue: entry.queue_type,
                tier,
                division: entry.rank,
                lp: entry.league_points,
                wins: entry.wins,
                losses: entry.losses,
            },
        )
    }
}

/// The icon shown for each tier.
pub open spec fn spec_tier_icon_url(t: Tier) -> Seq<char> {
    match t {
        Tier::Iron => "https://static.wikia.nocookie.net/leagueoflegends/images/f/f8/Season_2023_-_Iron.png/revision/latest"@,
        Tier::Bronze => "https://static.wikia.nocookie.net/leagueoflegends/images/c/cb/Season_2023_-_Bronze.png/revision/latest"@,
        Tier::Silver => "https://static.wikia.nocookie.net/leagueoflegends/images/c/c4/Season_2023_-_Silver.png/revision/latest"@,
        Tier::Gold => "https://static.wikia.nocookie.net/leagueoflegends/images/7/78/Season_2023_-_Gold.png/revision/latest"@,
        Tier::Platinum => "https://static.wikia.nocookie.net/leagueoflegends/images/b/bd/Season_2023_-_Platinum.png/revision/latest"@,
        Tier::Emerald => "https://static.wikia.nocookie.net/leagueoflegends/images/4/4b/Season_2023_-_Emerald.png/revision/latest"@,
        Tier::Diamond => "https://static.wikia.nocookie.net/leagueoflegends/images/3/37/Season_2023_-_Diamond.png/revision/latest"@,
        Tier::Master => "https://static.wikia.nocookie.net/leagueoflegends/images/d/d5/Season_2023_-_Master.png/revision/latest"@,
        Tier::Grandmaster => "https://static.wikia.nocookie.net/leagueoflegends/images/6/64/Season_2023_-_Grandmaster.png/revision/latest"@,
        Tier::Challenger => "https://static.wikia.nocookie.net/leagueoflegends/images/1/14/Season_2023_-_Challenger.png/revision/latest"@,
        Tier::Unranked => "https://static.wikia.nocookie.net/leagueoflegends/images/3/3e/Season_2022_-_Unranked.png/revision/latest"@,
    }
}

impl Tier {
    /// The icon shown for this tier.
    pub fn image_url(&self) -> (r: String)
        ensures
            r@ == spec_tier_icon_url(*self),
    {
        match self {
            Tier::Iron => "https://static.wikia.nocookie.net/leagueoflegends/images/f/f8/Season_2023_-_Iron.png/revision/latest".to_owned(),
            Tier::Bronze => "https://static.wikia.nocookie.net/leagueoflegends/images/c/cb/Season_2023_-_Bronze.png/revision/latest".to_owned(),
            Tier::Silver => "https://static.wikia.nocookie.net/leagueoflegends/images/c/c4/Season_2023_-_Silver.png/revision/latest".to_owned(),
            Tier::Gold => "https://static.wikia.nocookie.net/leagueoflegends/images/7/78/Season_2023_-_Gold.png/revision/latest".to_owned(),
            Tier::Platinum => "https://static.wikia.nocookie.net/leagueoflegends/images/b/bd/Season_2023_-_Platinum.png/revision/latest".to_owned(),
            Tier::Emerald => "https://static.wikia.nocookie.net/leagueoflegends/images/4/4b/Season_2023_-_Emerald.png/revision/latest".to_owned(),
            Tier::Diamond => "https://static.wikia.nocookie.net/leagueoflegends/images/3/37/Season_2023_-_Diamond.png/revision/latest".to_owned(),
            Tier::Master => "https://static.wikia.nocookie.net/leagueoflegends/images/d/d5/Season_2023_-_Master.png/revision/latest".to_owned(),
            Tier::Grandmaster => "https://static.wikia.nocookie.net/leagueoflegends/images/6/64/Season_2023_-_Grandmaster.png/revision/latest".to_owned(),
            Tier::Challenger => "https://static.wikia.nocookie.net/leagueoflegends/images/1/14/Season_2023_-_Challenger.png/revision/latest".to_owned(),
            Tier::Unranked => "https://static.wikia.nocookie.net/leagueoflegends/images/3/3e/Season_2022_-_Unranked.png/revision/latest".to_owned(),
        }
    }

    /// Whether the tier has no divisions (the apex tiers).
    pub fn is_apex(&self) -> (r: bool)
        ensures
            r == (*self == Tier::Master || *self == Tier::Grandmaster || *self
                == Tier::Challenger),
    {
        match self {
            Tier::Master | Tier::Grandmaster | Tier::Challenger => true,
            _ => false,
        }
    }
}

/// Returns the icon associated with an object on the given patch.  The
/// patch string is fetched once per run by the caller and passed in; a
/// tier's icon does not depend on it.
pub trait IconGetter {
    /// Returns the icon URL.
    fn get_icon_url(&self, patch: &str) -> String;
}

impl IconGetter for Tier {
    fn get_icon_url(&self, _patch: &str) -> String {
        self.image_url()
    }
}

/// Associates an image URL to an object.
pub trait ImgUrlGetter {
    /// Returns the image URL.
    fn get_image_url(&self) -> String;
}

impl ImgUrlGetter for Tier {
    fn get_image_url(&self) -> String {
        self.image_url()
    }
}

/// Associates an image URL to an object shown in the layout.
pub trait ImageUrl {
    /// Returns the image URL.
    fn to_image(&self) -> String;
}

impl ImageUrl for Tier {
    fn to_image(&self) -> String {
        self.image_url()
    }
}

} // verus!
