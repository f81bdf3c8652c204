//! Aggregated per-champion statistics over a set of matches.

use vstd::prelude::*;

verus! {

use vstd::multiset::Multiset;

use crate::models::matches::{GameResult, Kda, MatchPlayerInfo};
use crate::search::first_where;

/// The totals holding no game yet.
pub open spec fn spec_zero_stats() -> GameStats {
    GameStats {
        wins: 0u32,
        losses: 0u32,
        time_played: 0i64,
        minions_killed: 0i32,
        kda: Kda(0i32, 0i32, 0i32),
    }
}

/// Totals with one more match folded in.
pub open spec fn spec_stats_plus(s: GameStats, m: MatchPlayerInfo) -> GameStats {
    GameStats {
        wins: (s.wins + if m.game_result == GameResult::Win {
            1int
        } else {
            0int
        }) as u32,
        losses: (s.losses + if m.game_result == GameResult::Loss {
            1int
        } else {
            0int
        }) as u32,
        time_played: (s.time_played + m.time_played) as i64,
        minions_killed: (s.minions_killed + m.minions_killed) as i32,
        kda: Kda(
            (s.kda.0 + m.kda.0) as i32,
            (s.kda.1 + m.kda.1) as i32,
            (s.kda.2 + m.kda.2) as i32,
        ),
    }
}

/// Running totals over the matches a player played on one champion.
#[derive(Debug, Clone, PartialEq)]
pub struct GameStats {
    /// Wins on the champion.
    pub wins: u32,
    /// Losses on the champion.
    pub losses: u32,
    /// Total time (seconds) played on the champion.
    pub time_played: i64,
    /// Total minions killed on the champion.
    pub minions_killed: i32,
    /// Accumulated kills, deaths and assists on the champion.
    pub kda: Kda,
}

impl GameStats {
    /// Empty totals.
    pub fn new() -> (r: GameStats)
        ensures
            r == (GameStats {
                wins: 0u32,
                losses: 0u32,
                time_played: 0i64,
                minions_killed: 0i32,
                kda: Kda(0i32, 0i32, 0i32),
            }),
    {
        GameStats { wins: 0, losses: 0, time_played: 0, minions_killed: 0, kda: Kda(0, 0, 0) }
    }

    /// How many games the totals cover.
    pub fn total_games(&self) -> (r: u32)
        requires
            self.wins + self.losses <= u32::MAX,
        ensures
            r == self.wins + self.losses,
    {
        self.wins + self.losses
    }

    /// The totals with one more match folded in.
    pub fn plus(&self, match_info: &MatchPlayerInfo) -> (r: GameStats)
        requires
            self.wins + 1 <= u32::MAX,
            self.losses + 1 <= u32::MAX,
            self.time_played + match_info.time_played <= i64::MAX,
            i64::MIN <= self.time_played + match_info.time_played,
            i32::MIN <= self.minions_killed + match_info.minions_killed <= i32::MAX,
            i32::MIN <= self.kda.0 + match_info.kda.0 <= i32::MAX,
            i32::MIN <= self.kda.1 + match_info.kda.1 <= i32::MAX,
            i32::MIN <= self.kda.2 + match_info.kda.2 <= i32::MAX,
        ensures
            r == spec_stats_plus(*self, *match_info),
    {
        let wins = if matches!(match_info.game_result, GameResult::Win) {
            self.wins + 1
        } else {
            self.wins
        };
        let losses = if matches!(match_info.game_result, GameResult::Loss) {
            self.losses + 1
        } else {
            self.losses
        };
        GameStats {
            wins,
            losses,
            time_played: self.time_played + match_info.time_played as i64,
            minions_killed: self.minions_killed + match_info.minions_killed,
            kda: Kda(
                self.kda.0 + match_info.kda.0,
                self.kda.1 + match_info.kda.1,
                self.kda.2 + match_info.kda.2,
            ),
        }
    }

    /// Folds one more match into the totals.
    pub fn add_game(&mut self, match_info: &MatchPlayerInfo)
        requires
            old(self).wins + 1 <= u32::MAX,
            old(self).losses + 1 <= u32::MAX,
            old(self).time_played + match_info.time_played <= i64::MAX,
            i64::MIN <= old(self).time_played + match_info.time_played,
            i32::MIN <= old(self).minions_killed + match_info.minions_killed <= i32::MAX,
            i32::MIN <= old(self).kda.0 + match_info.kda.0 <= i32::MAX,
            i32::MIN <= old(self).kda.1 + match_info.kda.1 <= i32::MAX,
            i32::MIN <= old(self).kda.2 + match_info.kda.2 <= i32::MAX,
        ensures
            final(self).wins == old(self).wins + (if match_info.game_result == GameResult::Win {
                1int
            } else {
                0int
            }),
            final(self).losses == old(self).losses + (if match_info.game_result
                == GameResult::Loss {
                1int
            } else {
                0int
            }),
            final(self).time_played == old(self).time_played + match_info.time_played,
            final(self).minions_killed == old(self).minions_killed + match_info.minions_killed,
            final(self).kda == Kda(
                (old(self).kda.0 + match_info.kda.0) as i32,
                (old(self).kda.1 + match_info.kda.1) as i32,
                (old(self).kda.2 + match_info.kda.2) as i32,
            ),
    {
        self.kda.add(&match_info.kda);
        self.time_played = self.time_played + match_info.time_played as i64;
        self.minions_killed = self.minions_killed + match_info.minions_killed;
        match match_info.game_result {
            GameResult::Win => {
                self.wins = self.wins + 1;
            },
            GameResult::Loss => {
                self.losses = self.losses + 1;
            },
        }
    }
}

/// One champion's aggregated line.
#[derive(Debug, Clone, PartialEq)]
pub struct ChampionStats {
    /// The champion, by name.
    pub champion: String,
    /// The totals over the processed matches on that champion.
    pub stats: GameStats,
}

/// Index of the first line of the given champion, or the number of lines if
/// there is none.
pub open spec fn spec_champion_index(cs: Seq<ChampionStats>, name: Seq<char>) -> int {
    first_where(cs, |c: ChampionStats| c.champion@ == name)
}

proof fn lemma_champion_index_is(cs: Seq<ChampionStats>, name: Seq<char>, i: int)
    requires
        0 <= i <= cs.len(),
        forall|j: int| 0 <= j < i ==> (#[trigger] cs[j]).champion@ != name,
        i < cs.len() ==> cs[i].champion@ == name,
    ensures
        spec_champion_index(cs, name) == i,
    decreases cs.len(),
{
    if i == 0 {
    } else {
        assert(cs[0].champion@ != name);
        let t = cs.skip(1);
        assert(forall|j: int| 0 <= j < t.len() ==> #[trigger] t[j] == cs[j + 1]);
        lemma_champion_index_is(t, name, i - 1);
        assert(spec_champion_index(cs, name) == 1 + spec_champion_index(t, name));
    }
}

/// The per-champion totals of a match list, champions in order of first
/// appearance: each match is folded into its champion's line, a new
/// champion opening a new line at the end.
pub open spec fn spec_group(ms: Seq<MatchPlayerInfo>) -> Seq<ChampionStats>
    decreases ms.len(),
{
    if ms.len() == 0 {
        Seq::empty()
    } else {
        let prev = spec_group(ms.drop_last());
        let m = ms.last();
        let k = spec_champion_index(prev, m.champion@);
        if 0 <= k < prev.len() {
            prev.update(
                k,
                ChampionStats { champion: prev[k].champion, stats: spec_stats_plus(prev[k].stats, m) },
            )
        } else {
            prev.push(ChampionStats { champion: m.champion, stats: spec_stats_plus(spec_zero_stats(), m) })
        }
    }
}

/// A match list the statistics can absorb without arithmetic overflow:
/// a bounded number of matches, each with plausibly bounded counters.
pub open spec fn spec_stats_input_ok(ms: Seq<MatchPlayerInfo>) -> bool {
    &&& ms.len() <= 100000
    &&& forall|i: int|
        0 <= i < ms.len() ==> {
            &&& 0 <= (#[trigger] ms[i]).time_played <= 86400
            &&& 0 <= ms[i].minions_killed <= 10000
            &&& 0 <= ms[i].kda.0 <= 1000
            &&& 0 <= ms[i].kda.1 <= 1000
            &&& 0 <= ms[i].kda.2 <= 1000
        }
}

/// Every counter of every line stays within what `done` bounded matches can
/// produce.
pub open spec fn spec_stats_bounded(cs: Seq<ChampionStats>, done: int) -> bool {
    forall|i: int|
        0 <= i < cs.len() ==> {
            &&& 0 <= (#[trigger] cs[i]).stats.wins + cs[i].stats.losses <= done
            &&& 0 <= cs[i].stats.time_played <= done * 86400
            &&& 0 <= cs[i].stats.minions_killed <= done * 10000
            &&& 0 <= cs[i].stats.kda.0 <= done * 1000
            &&& 0 <= cs[i].stats.kda.1 <= done * 1000
            &&& 0 <= cs[i].stats.kda.2 <= done * 1000
        }
}

/// Lines in non-increasing order of games played.
pub open spec fn sorted_by_games_desc(cs: Seq<ChampionStats>) -> bool {
    forall|i: int, j: int|
        0 <= i < j < cs.len() ==> (#[trigger] cs[i]).stats.wins + cs[i].stats.losses
            >= (#[trigger] cs[j]).stats.wins + cs[j].stats.losses
}

/// The most-played champions of a recent match list, with their totals.
#[derive(Debug, Clone, PartialEq)]
pub struct RecentChampionInfo {
    /// Per-champion totals, most games first, capped to the requested
    /// number of champions.
    pub stats: Vec<ChampionStats>,
    /// How many matches the totals cover.
    pub games_processed: usize,
}

impl RecentChampionInfo {
    /// Groups the matches by champion and keeps the champions with the most
    /// games, most-played first (ties in no particular order).
    pub fn new(matches: &Vec<MatchPlayerInfo>, max_champs: i32) -> (r: RecentChampionInfo)
        requires
            spec_stats_input_ok(matches@),
            max_champs >= 0,
        ensures
            r.games_processed == matches@.len(),
            ({
                let grouped = spec_group(matches@);
                let n = if max_champs <= grouped.len() {
                    max_champs as int
                } else {
                    grouped.len() as int
                };
                &&& r.stats@.len() == n
                &&& sorted_by_games_desc(r.stats@)
                &&& exists|full: Seq<ChampionStats>|
                    (#[trigger] full.to_multiset()) == grouped.to_multiset()
                        && sorted_by_games_desc(full) && r.stats@ == full.subrange(0, n)
            }),
    {
        broadcast use vstd::seq_lib::group_to_multiset_ensures;

        let ghost all = matches@;
        let mut groups: Vec<ChampionStats> = Vec::new();
        let mut i: usize = 0;
        proof {
            assert(all.subrange(0, 0) =~= Seq::<MatchPlayerInfo>::empty());
        }
        while i < matches.len()
            invariant
                0 <= i <= matches@.len(),
                all == matches@,
                spec_stats_input_ok(all),
                groups@ == spec_group(all.subrange(0, i as int)),
                spec_stats_bounded(groups@, i as int),
            decreases matches@.len() - i,
        {
            let ghost prefix = all.subrange(0, i as int);
            let ghost extended = all.subrange(0, i + 1);
            proof {
                assert(extended.drop_last() =~= prefix);
                assert(extended.last() == all[i as int]);
            }
            let m = &matches[i];
            // Look for this champion's line.
            let n = groups.len();
            let mut k: usize = 0;
            while k < n && !crate::text::str_eq_str(
                groups[k].champion.as_str(),
                matches[i].champion.as_str(),
            )
                invariant
                    0 <= k <= n,
                    n == groups@.len(),
                    forall|j: int|
                        0 <= j < k ==> (#[trigger] groups@[j]).champion@ != matches@[i as int]
                            .champion@,
                    i < matches@.len(),
                    all == matches@,
                decreases n - k,
            {
                k += 1;
            }
            proof {
                if k < n {
                    lemma_champion_index_is(groups@, all[i as int].champion@, k as int);
                } else {
                    lemma_champion_index_is(groups@, all[i as int].champion@, n as int);
                }
            }
            if k < n {
                let updated = ChampionStats {
                    champion: groups[k].champion.clone(),
                    stats: groups[k].stats.plus(m),
                };
                groups.set(k, updated);
            } else {
                let fresh = ChampionStats { champion: m.champion.clone(), stats: GameStats::new() };
                let opened = ChampionStats { champion: fresh.champion, stats: fresh.stats.plus(m) };
                groups.push(opened);
            }
            i += 1;
        }
        proof {
            assert(all.subrange(0, all.len() as int) =~= all);
        }
        // Order by games played, most first.
        let ghost grouped = groups@;
        let mut sorted: Vec<ChampionStats> = Vec::new();
        while groups.len() > 0
            invariant
                sorted_by_games_desc(sorted@),
                sorted@.to_multiset().add(groups@.to_multiset()) =~= grouped.to_multiset(),
            decreases groups@.len(),
        {
            let ghost before = groups@;
            let ghost prior = sorted@;
            let cs = groups.pop().unwrap();
            insert_sorted_by_games(&mut sorted, cs);
            proof {
                vstd::seq_lib::to_multiset_build(before.drop_last(), before.last());
                assert(before.drop_last().push(before.last()) =~= before);
                assert(sorted@.to_multiset().add(groups@.to_multiset()) =~= prior.to_multiset().add(
                    before.to_multiset(),
                ));
            }
        }
        proof {
            assert(groups@.to_multiset() =~= Multiset::<ChampionStats>::empty());
            assert(sorted@.to_multiset() =~= grouped.to_multiset());
        }
        // Keep only the most-played champions.
        let ghost full = sorted@;
        let keep: usize = if max_champs as usize <= sorted.len() {
            max_champs as usize
        } else {
            sorted.len()
        };
        sorted.truncate(keep);
        proof {
            full.to_multiset_ensures();
            grouped.to_multiset_ensures();
            assert(full.len() == grouped.len());
            let n = if max_champs <= grouped.len() {
                max_champs as int
            } else {
                grouped.len() as int
            };
            assert(keep == n);
            assert(sorted@ == full.subrange(0, n));
            assert(sorted_by_games_desc(sorted@)) by {
                assert(forall|i: int|
                    0 <= i < n ==> #[trigger] sorted@[i] == full.subrange(0, n)[i]);
            }
        }
        RecentChampionInfo { stats: sorted, games_processed: matches.len() }
    }
}

/// Inserts a line into a vector sorted by games played descending, keeping
/// it sorted.
fn insert_sorted_by_games(out: &mut Vec<ChampionStats>, cs: ChampionStats)
    requires
        sorted_by_games_desc(old(out)@),
    ensures
        sorted_by_games_desc(final(out)@),
        final(out)@.to_multiset() == old(out)@.to_multiset().insert(cs),
{
    broadcast use vstd::seq_lib::group_to_multiset_ensures;

    let n = out.len();
    let games = cs.stats.wins as u64 + cs.stats.losses as u64;
    let mut idx: usize = 0;
    while idx < n && out[idx].stats.wins as u64 + out[idx].stats.losses as u64 >= games
        invariant
            0 <= idx <= n,
            n == out@.len(),
            games == cs.stats.wins + cs.stats.losses,
            forall|j: int|
                0 <= j < idx ==> (#[trigger] out@[j]).stats.wins + out@[j].stats.losses
                    >= cs.stats.wins + cs.stats.losses,
        decreases n - idx,
    {
        idx += 1;
    }
    out.insert(idx, cs);
}

} // verus!
