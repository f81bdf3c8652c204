//! The display command's options, and what each display mode asks of the
//! match-history endpoint.

use vstd::prelude::*;

verus! {

use crate::backfill::{MatchCriteria, RANKED_SOLO_QUEUE_ID};
use crate::cli::SummonerConfig;
use crate::split::{digits_value, is_digit_seq};

/// The display command.
#[derive(Debug, Clone)]
pub struct Lolfetch {
    /// What to display.
    pub info_config: InfoKind,
    /// Whose data to display.
    pub summoner: SummonerConfig,
    /// Which image to render next to it.
    pub display_config: DisplayConfig,
    /// Global flags.
    pub globals: Globals,
}

/// Global flag configuration.
#[derive(Debug, Clone, Copy, PartialEq, Eq, Structural)]
pub struct Globals {
    /// Don't save the cache to disk.
    pub no_save: bool,
}

/// Which image to render next to the data.
#[derive(Debug, Clone)]
pub struct DisplayConfig {
    pub image: ImageSource,
    /// Champion whose icon to display, by name.
    pub champion: Option<String>,
    /// Link to a custom image to display.
    pub custom_img_url: Option<String>,
}

/// The image sources a user can pick.
#[derive(Debug, Clone, Copy, PartialEq, Eq, Structural)]
pub enum ImageSource {
    /// Based on the display mode.
    Default,
    /// The player's rank icon.
    RankIcon,
    /// A chosen champion's icon.
    ChampionIcon,
    /// The player's profile icon.
    SummonerIcon,
    /// A custom image.
    Custom,
}

/// The display modes.
#[derive(Debug, Clone)]
pub enum InfoKind {
    /// Ranked information.
    Ranked(Ranked),
    /// Mastery information.
    Mastery(Mastery),
    /// Recent matches.
    RecentMatches(RecentMatches),
    /// Custom information.
    Custom(Custom),
}

/// Ranked display options.
#[derive(Debug, Clone, Copy, PartialEq, Eq, Structural)]
pub struct Ranked {
    /// Number of games to fetch for statistics.
    pub games: i32,
    /// Number of top champions to display.
    pub top_champions: i32,
    /// Number of recent matches to display.
    pub recent_matches: i32,
}

/// Mastery display options.
#[derive(Debug, Clone, Copy, PartialEq, Eq, Structural)]
pub struct Mastery {
    /// Number of games to fetch for statistics.
    pub games: i32,
    /// Number of mastery champions to display.
    pub mastery_champions: i32,
}

/// Recent-matches display options.
#[derive(Debug, Clone, Copy, PartialEq, Eq, Structural)]
pub struct RecentMatches {
    /// Number of games to fetch and display.
    pub recent_matches: i32,
}

/// Free-form display options.
#[derive(Debug, Clone, Copy, PartialEq, Eq, Structural)]
pub struct Custom {
}

impl InfoKind {
    /// What each display mode asks of the match-history endpoint: ranked
    /// statistics want that many ranked-solo games, the other data modes
    /// want their game count from any queue, and the custom mode fetches no
    /// matches.
    pub fn to_match_criteria(&self) -> (r: Option<MatchCriteria>)
        ensures
            match *self {
                InfoKind::Ranked(ranked) => r == Option::Some(
                    MatchCriteria {
                        count: ranked.games,
                        queue: Option::Some(RANKED_SOLO_QUEUE_ID),
                        start_at: Option::<i32>::None,
                    },
                ),
                InfoKind::Mastery(mastery) => r == Option::Some(
                    MatchCriteria {
                        count: mastery.games,
                        queue: Option::<u16>::None,
                        start_at: Option::<i32>::None,
                    },
                ),
                InfoKind::RecentMatches(recent) => r == Option::Some(
                    MatchCriteria {
                        count: recent.recent_matches,
                        queue: Option::<u16>::None,
                        start_at: Option::<i32>::None,
                    },
                ),
                InfoKind::Custom(_) => r is None,
            },
    {
        match self {
            InfoKind::Ranked(ranked) => Some(
                MatchCriteria {
                    count: ranked.games,
                    queue: Some(RANKED_SOLO_QUEUE_ID),
                    start_at: None,
                },
            ),
            InfoKind::Mastery(mastery) => Some(
                MatchCriteria { count: mastery.games, queue: None, start_at: None },
            ),
            InfoKind::RecentMatches(recent) => Some(
                MatchCriteria { count: recent.recent_matches, queue: None, start_at: None },
            ),
            InfoKind::Custom(_) => None,
        }
    }
}

/// The number an all-digit string (with an optional leading minus) denotes,
/// when it fits a 32-bit signed integer.
pub open spec fn spec_games_value(s: Seq<char>) -> Option<int> {
    if s.len() > 0 && is_digit_seq(s) && digits_value(s) <= i32::MAX {
        Option::Some(digits_value(s) as int)
    } else if s.len() > 1 && s[0] == '-' && is_digit_seq(s.skip(1)) && digits_value(s.skip(1))
        <= 0x8000_0000 {
        Option::Some(-(digits_value(s.skip(1)) as int))
    } else {
        Option::None
    }
}

/// Parses the number of games to fetch for ranked statistics: a decimal
/// integer, which must be positive.
pub fn parse_number_of_parsed_games(s: &str) -> (r: Result<i32, String>)
    ensures
        match r {
            Ok(games) => spec_games_value(s@) == Option::Some(games as int) && games > 0,
            Err(m) => match spec_games_value(s@) {
                Option::Some(v) => v <= 0 && m@ == "Number of games must be greater than 0"@,
                Option::None => m@ == "Invalid number of games"@,
            },
        },
{
    let n = s.unicode_len();
    let negative = n > 0 && s.get_char(0) == '-';
    let start: usize = if negative {
        1
    } else {
        0
    };
    let ghost digits = s@.skip(start as int);
    proof {
        assert(digits =~= s@.subrange(start as int, n as int));
    }
    if start == n {
        // Empty digit part: "" or "-".
        return Err("Invalid number of games".to_owned());
    }
    let bound: u64 = if negative {
        0x8000_0000
    } else {
        0x7fff_ffff
    };
    let mut val: u64 = 0;
    let mut j: usize = start;
    while j < n
        invariant
            start <= j <= n,
            n == s@.len(),
            start <= 1,
            negative == (s@.len() > 0 && s@[0] == '-'),
            start == if negative {
                1int
            } else {
                0int
            },
            bound == if negative {
                0x8000_0000u64
            } else {
                0x7fff_ffffu64
            },
            digits == s@.subrange(start as int, n as int),
            is_digit_seq(s@.subrange(start as int, j as int)),
            val <= bound ==> val == digits_value(s@.subrange(start as int, j as int)),
            val > bound ==> digits_value(s@.subrange(start as int, j as int)) > bound,
        decreases n - j,
    {
        let c = s.get_char(j);
        let d = c as u32;
        let ghost pre = s@.subrange(start as int, j as int);
        let ghost ext = s@.subrange(start as int, j + 1);
        proof {
            assert(ext.drop_last() =~= pre);
        }
        if d < 48 || d > 57 {
            proof {
                assert(digits[j - start] == s@[j as int]);
                assert(!crate::split::is_ascii_digit(s@[j as int]));
                if negative {
                    assert(s@.skip(1) =~= digits);
                } else {
                    assert(s@.skip(0) =~= s@);
                }
            }
            return Err("Invalid number of games".to_owned());
        }
        if val <= bound {
            val = val * 10 + (d - 48) as u64;
        }
        j += 1;
    }
    proof {
        assert(s@.subrange(start as int, n as int) =~= digits);
        if negative {
            assert(s@.skip(1) =~= digits);
        } else {
            assert(s@.skip(0) =~= s@);
        }
    }
    if val > bound {
        return Err("Invalid number of games".to_owned());
    }
    if negative {
        // A non-positive count is never asked for.
        proof {
            assert(s@[0] == '-');
            if s@.len() > 0 && is_digit_seq(s@) {
                assert(!crate::split::is_ascii_digit(s@[0]));
                assert(false);
            }
        }
        return Err("Number of games must be greater than 0".to_owned());
    }
    if val == 0 {
        return Err("Number of games must be greater than 0".to_owned());
    }
    proof {
        assert(s@.skip(0) =~= s@);
    }
    Ok(val as i32)
}

} // verus!
