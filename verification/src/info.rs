//! Display-side helpers over the gathered data: short position labels,
//! per-champion ranked totals, and column sizing.

use vstd::prelude::*;

verus! {

use crate::models::matches::Kda;
use crate::text::str_eq_str;

/// The short label of a provider position string; an unknown position keeps
/// its own name.
pub open spec fn spec_short_position(s: Seq<char>) -> Seq<char> {
    if s == "TOP"@ {
        "TOP"@
    } else if s == "JUNGLE"@ {
        "JGL"@
    } else if s == "MIDDLE"@ {
        "MID"@
    } else if s == "BOTTOM"@ {
        "BOT"@
    } else if s == "UTILITY"@ {
        "SUP"@
    } else {
        s
    }
}

/// Returns the team position in a short form.
pub fn get_team_position<'a>(position: &'a str) -> (r: &'a str)
    ensures
        r@ == spec_short_position(position@),
{
    if str_eq_str(position, "TOP") {
        "TOP"
    } else if str_eq_str(position, "JUNGLE") {
        "JGL"
    } else if str_eq_str(position, "MIDDLE") {
        "MID"
    } else if str_eq_str(position, "BOTTOM") {
        "BOT"
    } else if str_eq_str(position, "UTILITY") {
        "SUP"
    } else {
        position
    }
}

/// Running ranked totals on one champion.
#[derive(Debug, Clone, PartialEq)]
pub struct ChampionRankedInfo {
    /// Wins on the champion.
    pub wins: u32,
    /// Losses on the champion.
    pub losses: u32,
    /// Total time (seconds) played on the champion.
    pub time_played: i64,
    /// Total minions killed on the champion.
    pub minions_killed: i32,
    /// Accumulated kills, deaths and assists on the champion.
    pub kda: Kda,
}

impl ChampionRankedInfo {
    /// Empty totals.
    pub fn new() -> (r: ChampionRankedInfo)
        ensures
            r == (ChampionRankedInfo {
                wins: 0u32,
                losses: 0u32,
                time_played: 0i64,
                minions_killed: 0i32,
                kda: Kda(0i32, 0i32, 0i32),
            }),
    {
        ChampionRankedInfo {
            wins: 0,
            losses: 0,
            time_played: 0,
            minions_killed: 0,
            kda: Kda(0, 0, 0),
        }
    }

    /// Folds one more game into the totals.
    pub fn add_game(&mut self, won: bool, time_played: i32, minions_killed: i32, kda: Kda)
        requires
            old(self).wins + 1 <= u32::MAX,
            old(self).losses + 1 <= u32::MAX,
            i64::MIN <= old(self).time_played + time_played <= i64::MAX,
            i32::MIN <= old(self).minions_killed + minions_killed <= i32::MAX,
            i32::MIN <= old(self).kda.0 + kda.0 <= i32::MAX,
            i32::MIN <= old(self).kda.1 + kda.1 <= i32::MAX,
            i32::MIN <= old(self).kda.2 + kda.2 <= i32::MAX,
        ensures
            final(self).wins == old(self).wins + (if won {
                1int
            } else {
                0int
            }),
            final(self).losses == old(self).losses + (if won {
                0int
            } else {
                1int
            }),
            final(self).time_played == old(self).time_played + time_played,
            final(self).minions_killed == old(self).minions_killed + minions_killed,
            final(self).kda == Kda(
                (old(self).kda.0 + kda.0) as i32,
                (old(self).kda.1 + kda.1) as i32,
                (old(self).kda.2 + kda.2) as i32,
            ),
    {
        if won {
            self.wins = self.wins + 1;
        } else {
            self.losses = self.losses + 1;
        }
        self.time_played = self.time_played + time_played as i64;
        self.minions_killed = self.minions_killed + minions_killed;
        self.kda.add(&kda);
    }
}

/// The widest champion name of a list, for column alignment; `None` for an
/// empty list.
pub fn max_champion_name_width(names: &Vec<String>) -> (r: Option<usize>)
    ensures
        match r {
            Some(m) => names@.len() > 0 && (exists|i: int|
                0 <= i < names@.len() && (#[trigger] names@[i])@.len() == m) && (forall|i: int|
                0 <= i < names@.len() ==> (#[trigger] names@[i])@.len() <= m),
            None => names@.len() == 0,
        },
{
    let n = names.len();
    if n == 0 {
        return None;
    }
    let mut best: usize = names[0].as_str().unicode_len();
    let mut i: usize = 1;
    while i < n
        invariant
            1 <= i <= n,
            n == names@.len(),
            exists|j: int| 0 <= j < i && (#[trigger] names@[j])@.len() == best,
            forall|j: int| 0 <= j < i ==> (#[trigger] names@[j])@.len() <= best,
        decreases n - i,
    {
        let w = names[i].as_str().unicode_len();
        if w > best {
            best = w;
        }
        i += 1;
    }
    Some(best)
}

} // verus!
