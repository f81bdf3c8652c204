//! Match records: the serializable unit of cached data, together with the
//! two predicates the cache's insert validation rests on (remake detection
//! and split membership) and the per-player summary derived from a record.
//!
//! A record keeps, as plain values, exactly what the logic reads of the
//! provider's match blob; the callers that talk to the network fill these
//! fields in and serialize them back out.

use vstd::prelude::*;

verus! {

use crate::search::{first_where, lemma_first_where_is};
use crate::split::{spec_split_of_patch, Split};
use crate::text::str_eq_str;

/// Opaque string identifier of a match; the unique key into the cache.
pub type MatchId = String;

/// One player's line in a match.
#[derive(Debug, Clone, PartialEq)]
pub struct Participant {
    pub puuid: String,
    /// Champion name, `None` when the provider's champion field could not be
    /// resolved.
    pub champion: Option<String>,
    pub kills: i32,
    pub deaths: i32,
    pub assists: i32,
    pub total_minions_killed: i32,
    pub total_ally_jungle_minions_killed: Option<i32>,
    pub total_enemy_jungle_minions_killed: Option<i32>,
    pub neutral_minions_killed: i32,
    pub time_played: i32,
    pub team_position: String,
    pub team_id: i32,
    pub participant_id: i32,
}

/// One team's line in a match.
#[derive(Debug, Clone, PartialEq)]
pub struct Team {
    pub team_id: i32,
    pub win: bool,
}

/// Gold total of one participant at one timeline frame.
#[derive(Debug, Clone, PartialEq)]
pub struct ParticipantFrame {
    pub participant_id: i32,
    pub total_gold: i32,
}

/// One timeline frame.
#[derive(Debug, Clone, PartialEq)]
pub struct Frame {
    /// Milliseconds since the start of the game.
    pub timestamp: i32,
    pub participant_frames: Vec<ParticipantFrame>,
}

/// The timeline blob of a match.
#[derive(Debug, Clone, PartialEq)]
pub struct GameTimeline {
    pub frames: Vec<Frame>,
}

/// The match detail blob: what the logic reads of the provider's data.
#[derive(Debug, Clone, PartialEq)]
pub struct GameInfo {
    /// Creation timestamp in milliseconds; the sort key of the exported
    /// cache.
    pub game_creation: i64,
    /// Duration in seconds.
    pub game_duration: i64,
    pub game_start_timestamp: i64,
    /// Dotted game-version string, e.g. `"14.18.1"`.
    pub game_version: String,
    pub participants: Vec<Participant>,
    pub teams: Vec<Team>,
}

/// Match information: the unit stored in the cache, immutable once inserted.
#[derive(Debug, Clone, PartialEq)]
pub struct MatchInfo {
    pub id: MatchId,
    pub info: GameInfo,
    pub timeline: Option<GameTimeline>,
}

impl MatchInfo {
    /// An aborted game: total duration under three minutes, invalid for
    /// statistics.
    pub open spec fn spec_is_remake(self) -> bool {
        self.info.game_duration < 180
    }

    /// The record's game version maps to the given split.  An unclassifiable
    /// version belongs to no split.
    pub open spec fn spec_in_split(self, s: Split) -> bool {
        spec_split_of_patch(self.info.game_version@) == Option::Some(s)
    }

    /// True when the game was aborted within the first three minutes.
    pub fn is_remake(&self) -> (r: bool)
        ensures
            r == self.spec_is_remake(),
    {
        self.info.game_duration < 3 * 60
    }

    /// True when the record's game-version patch falls in `current_split`.
    /// A version that cannot be classified is never current: such a match
    /// must not be trusted for filtering.
    pub fn is_current_split(&self, current_split: Split) -> (r: bool)
        ensures
            r == self.spec_in_split(current_split),
    {
        match crate::split::get_split_from_patch(self.info.game_version.as_str()) {
            Some(s) => s == current_split,
            None => false,
        }
    }
}

/// The position a player occupies in their team.
#[derive(Debug, Clone, Copy, PartialEq, Eq, Structural)]
pub enum TeamPosition {
    Top,
    Jungle,
    Mid,
    Bot,
    Support,
}

#[derive(Debug, Clone, Copy, PartialEq, Eq, Structural)]
pub enum TeamPositionError {
    InvalidPosition,
}

/// The provider's name for a position.
pub open spec fn spec_position_string(p: TeamPosition) -> Seq<char> {
    match p {
        TeamPosition::Top => "TOP"@,
        TeamPosition::Jungle => "JUNGLE"@,
        TeamPosition::Mid => "MIDDLE"@,
        TeamPosition::Bot => "BOTTOM"@,
        TeamPosition::Support => "UTILITY"@,
    }
}

/// The position a provider position string denotes, if any.
pub open spec fn spec_parse_position(s: Seq<char>) -> Option<TeamPosition> {
    if s == "TOP"@ {
        Option::Some(TeamPosition::Top)
    } else if s == "JUNGLE"@ {
        Option::Some(TeamPosition::Jungle)
    } else if s == "MIDDLE"@ {
        Option::Some(TeamPosition::Mid)
    } else if s == "BOTTOM"@ {
        Option::Some(TeamPosition::Bot)
    } else if s == "UTILITY"@ {
        Option::Some(TeamPosition::Support)
    } else {
        Option::None
    }
}

impl TeamPosition {
    /// Parses the provider's position string.
    pub fn parse(value: &str) -> (r: Result<TeamPosition, TeamPositionError>)
        ensures
            match r {
                Ok(p) => spec_parse_position(value@) == Option::Some(p),
                Err(_) => spec_parse_position(value@) is None,
            },
    {
        if str_eq_str(value, "TOP") {
            Ok(TeamPosition::Top)
        } else if str_eq_str(value, "JUNGLE") {
            Ok(TeamPosition::Jungle)
        } else if str_eq_str(value, "MIDDLE") {
            Ok(TeamPosition::Mid)
        } else if str_eq_str(value, "BOTTOM") {
            Ok(TeamPosition::Bot)
        } else if str_eq_str(value, "UTILITY") {
            Ok(TeamPosition::Support)
        } else {
            Err(TeamPositionError::InvalidPosition)
        }
    }

    /// The provider's name for this position.
    pub fn to_riot_api_string(&self) -> (r: &'static str)
        ensures
            r@ == spec_position_string(*self),
    {
        match self {
            TeamPosition::Top => "TOP",
            TeamPosition::Jungle => "JUNGLE",
            TeamPosition::Mid => "MIDDLE",
            TeamPosition::Bot => "BOTTOM",
            TeamPosition::Support => "UTILITY",
        }
    }
}

/// Whether the player's team won the match.
#[derive(Debug, Clone, Copy, PartialEq, Eq, Structural)]
pub enum GameResult {
    Win,
    Loss,
}

#[derive(Debug, Clone, Copy, PartialEq, Eq, Structural)]
pub enum ParticipantGetterError {
    ParticipantNotFound,
}

#[derive(Debug, Clone, Copy, PartialEq, Eq, Structural)]
pub enum TeamGetterError {
    TeamNotFound,
}

#[derive(Debug, Clone, Copy, PartialEq, Eq, Structural)]
pub enum GameTimeGetterError {
    MaxTimeNotFound,
}


/// Index of the first participant with the given account id, or the number
/// of participants if there is none.
pub open spec fn spec_participant_index(parts: Seq<Participant>, puuid: Seq<char>) -> int {
    first_where(parts, |p: Participant| p.puuid@ == puuid)
}

proof fn lemma_participant_index_is(parts: Seq<Participant>, puuid: Seq<char>, i: int)
    requires
        0 <= i <= parts.len(),
        forall|j: int| 0 <= j < i ==> (#[trigger] parts[j]).puuid@ != puuid,
        i < parts.len() ==> parts[i].puuid@ == puuid,
    ensures
        spec_participant_index(parts, puuid) == i,
    decreases parts.len(),
{
    if i == 0 {
    } else {
        assert(parts[0].puuid@ != puuid);
        let t = parts.skip(1);
        assert(forall|j: int| 0 <= j < t.len() ==> #[trigger] t[j] == parts[j + 1]);
        lemma_participant_index_is(t, puuid, i - 1);
        assert(spec_participant_index(parts, puuid) == 1 + spec_participant_index(t, puuid));
    }
}

proof fn lemma_participant_index_range(parts: Seq<Participant>, puuid: Seq<char>)
    ensures
        0 <= spec_participant_index(parts, puuid) <= parts.len(),
    decreases parts.len(),
{
    if parts.len() != 0 && parts[0].puuid@ != puuid {
        let t = parts.skip(1);
        lemma_participant_index_range(t, puuid);
        assert(spec_participant_index(parts, puuid) == 1 + spec_participant_index(t, puuid));
    }
}

/// Index of the first team with the given team id, or the number of teams
/// if there is none.
pub open spec fn spec_team_index(teams: Seq<Team>, tid: int) -> int {
    first_where(teams, |t: Team| t.team_id == tid)
}

proof fn lemma_team_index_is(teams: Seq<Team>, tid: int, i: int)
    requires
        0 <= i <= teams.len(),
        forall|j: int| 0 <= j < i ==> (#[trigger] teams[j]).team_id != tid,
        i < teams.len() ==> teams[i].team_id == tid,
    ensures
        spec_team_index(teams, tid) == i,
{
    lemma_first_where_is(teams, |t: Team| t.team_id == tid, i);
}

proof fn lemma_team_index_range(teams: Seq<Team>, tid: int)
    ensures
        0 <= spec_team_index(teams, tid) <= teams.len(),
    decreases teams.len(),
{
    if teams.len() != 0 && teams[0].team_id != tid {
        let t = teams.skip(1);
        lemma_team_index_range(t, tid);
        assert(spec_team_index(teams, tid) == 1 + spec_team_index(t, tid));
    }
}

/// Index of the first participant standing in the given position on another
/// team than the given one, or the number of participants if there is none.
pub open spec fn spec_enemy_index(parts: Seq<Participant>, pos_s: Seq<char>, tid: int) -> int {
    first_where(parts, |p: Participant| p.team_position@ == pos_s && p.team_id != tid)
}

proof fn lemma_enemy_index_is(parts: Seq<Participant>, pos_s: Seq<char>, tid: int, i: int)
    requires
        0 <= i <= parts.len(),
        forall|j: int|
            0 <= j < i ==> !((#[trigger] parts[j]).team_position@ == pos_s && parts[j].team_id
                != tid),
        i < parts.len() ==> (parts[i].team_position@ == pos_s && parts[i].team_id != tid),
    ensures
        spec_enemy_index(parts, pos_s, tid) == i,
    decreases parts.len(),
{
    if i == 0 {
    } else {
        assert(!(parts[0].team_position@ == pos_s && parts[0].team_id != tid));
        let t = parts.skip(1);
        assert(forall|j: int| 0 <= j < t.len() ==> #[trigger] t[j] == parts[j + 1]);
        lemma_enemy_index_is(t, pos_s, tid, i - 1);
        assert(spec_enemy_index(parts, pos_s, tid) == 1 + spec_enemy_index(t, pos_s, tid));
    }
}

/// Index of the first frame recorded after the given millisecond timestamp,
/// or the number of frames if there is none.
pub open spec fn spec_frame_index(frames: Seq<Frame>, threshold_ms: int) -> int {
    first_where(frames, |f: Frame| f.timestamp > threshold_ms)
}

proof fn lemma_frame_index_is(frames: Seq<Frame>, threshold_ms: int, i: int)
    requires
        0 <= i <= frames.len(),
        forall|j: int| 0 <= j < i ==> !((#[trigger] frames[j]).timestamp > threshold_ms),
        i < frames.len() ==> frames[i].timestamp > threshold_ms,
    ensures
        spec_frame_index(frames, threshold_ms) == i,
{
    lemma_first_where_is(frames, |f: Frame| f.timestamp > threshold_ms, i);
}

/// Index of the first per-participant gold entry of the given participant,
/// or the number of entries if there is none.
pub open spec fn spec_pframe_index(pframes: Seq<ParticipantFrame>, pid: int) -> int {
    first_where(pframes, |pf: ParticipantFrame| pf.participant_id == pid)
}

proof fn lemma_pframe_index_is(pframes: Seq<ParticipantFrame>, pid: int, i: int)
    requires
        0 <= i <= pframes.len(),
        forall|j: int| 0 <= j < i ==> (#[trigger] pframes[j]).participant_id != pid,
        i < pframes.len() ==> pframes[i].participant_id == pid,
    ensures
        spec_pframe_index(pframes, pid) == i,
{
    lemma_first_where_is(pframes, |pf: ParticipantFrame| pf.participant_id == pid, i);
}

impl GameInfo {
    /// The line of the player with the given account id: the first
    /// participant whose `puuid` matches.
    pub fn get_participant<'a>(&'a self, puuid: &str) -> (r: Result<
        &'a Participant,
        ParticipantGetterError,
    >)
        ensures
            ({
                let k = spec_participant_index(self.participants@, puuid@);
                if k < self.participants@.len() {
                    r matches Ok(p) && *p == self.participants@[k]
                } else {
                    r matches Err(e) && e == ParticipantGetterError::ParticipantNotFound
                }
            }),
    {
        let n = self.participants.len();
        let mut i: usize = 0;
        while i < n
            invariant
                0 <= i <= n,
                n == self.participants@.len(),
                forall|j: int|
                    0 <= j < i ==> (#[trigger] self.participants@[j]).puuid@ != puuid@,
            decreases n - i,
        {
            if str_eq_str(self.participants[i].puuid.as_str(), puuid) {
                proof {
                    lemma_participant_index_is(self.participants@, puuid@, i as int);
                }
                return Ok(&self.participants[i]);
            }
            i += 1;
        }
        proof {
            lemma_participant_index_is(self.participants@, puuid@, n as int);
        }
        Err(ParticipantGetterError::ParticipantNotFound)
    }

    /// The team line of the given participant: the first team whose id
    /// matches the participant's.
    pub fn get_my_team<'a>(&'a self, participant: &Participant) -> (r: Result<
        &'a Team,
        TeamGetterError,
    >)
        ensures
            ({
                let k = spec_team_index(self.teams@, participant.team_id as int);
                if k < self.teams@.len() {
                    r matches Ok(t) && *t == self.teams@[k]
                } else {
                    r matches Err(e) && e == TeamGetterError::TeamNotFound
                }
            }),
    {
        let n = self.teams.len();
        let mut i: usize = 0;
        while i < n
            invariant
                0 <= i <= n,
                n == self.teams@.len(),
                forall|j: int|
                    0 <= j < i ==> (#[trigger] self.teams@[j]).team_id != participant.team_id,
            decreases n - i,
        {
            if self.teams[i].team_id == participant.team_id {
                proof {
                    lemma_team_index_is(self.teams@, participant.team_id as int, i as int);
                }
                return Ok(&self.teams[i]);
            }
            i += 1;
        }
        proof {
            lemma_team_index_is(self.teams@, participant.team_id as int, n as int);
        }
        Err(TeamGetterError::TeamNotFound)
    }
}

/// Access to the length of a match as the players experienced it.
pub trait GameTimeGetter {
    /// The longest time any participant spent in the game, in seconds;
    /// fails only when the match has no participants.
    fn get_max_time(&self) -> (r: Result<i32, GameTimeGetterError>);
}

impl GameInfo {
    /// The longest time any participant spent in the game, in seconds;
    /// fails exactly when the match has no participants.
    pub fn max_time(&self) -> (r: Result<i32, GameTimeGetterError>)
        ensures
            match r {
                Ok(m) => self.participants@.len() > 0 && (exists|i: int|
                    0 <= i < self.participants@.len() && (#[trigger] self.participants@[i])
                        .time_played == m) && (forall|i: int|
                    0 <= i < self.participants@.len() ==> (#[trigger] self.participants@[i])
                        .time_played <= m),
                Err(e) => self.participants@.len() == 0
                    && e == GameTimeGetterError::MaxTimeNotFound,
            },
    {
        let n = self.participants.len();
        if n == 0 {
            return Err(GameTimeGetterError::MaxTimeNotFound);
        }
        let mut best: i32 = self.participants[0].time_played;
        let mut i: usize = 1;
        while i < n
            invariant
                1 <= i <= n,
                n == self.participants@.len(),
                exists|j: int|
                    0 <= j < i && (#[trigger] self.participants@[j]).time_played == best,
                forall|j: int|
                    0 <= j < i ==> (#[trigger] self.participants@[j]).time_played <= best,
            decreases n - i,
        {
            if self.participants[i].time_played > best {
                best = self.participants[i].time_played;
            }
            i += 1;
        }
        Ok(best)
    }
}

impl GameTimeGetter for GameInfo {
    fn get_max_time(&self) -> (r: Result<i32, GameTimeGetterError>) {
        self.max_time()
    }
}

impl GameTimeline {
    /// The first frame recorded after the given number of seconds.
    pub fn get_frame<'a>(&'a self, seconds: i32) -> (r: Option<&'a Frame>)
        ensures
            ({
                let k = spec_frame_index(self.frames@, seconds * 1000);
                if k < self.frames@.len() {
                    r matches Some(f) && *f == self.frames@[k]
                } else {
                    r is None
                }
            }),
    {
        let n = self.frames.len();
        let mut i: usize = 0;
        while i < n
            invariant
                0 <= i <= n,
                n == self.frames@.len(),
                forall|j: int|
                    0 <= j < i ==> !((#[trigger] self.frames@[j]).timestamp > seconds * 1000),
            decreases n - i,
        {
            if (self.frames[i].timestamp as i64) > (seconds as i64) * 1000 {
                proof {
                    lemma_frame_index_is(self.frames@, seconds * 1000, i as int);
                }
                return Some(&self.frames[i]);
            }
            i += 1;
        }
        proof {
            lemma_frame_index_is(self.frames@, seconds * 1000, n as int);
        }
        None
    }
}

/// The gold total a participant had at a frame, if the frame recorded one.
pub open spec fn spec_frame_gold(f: Frame, participant_id: int) -> Option<int> {
    let k = spec_pframe_index(f.participant_frames@, participant_id);
    if k < f.participant_frames@.len() {
        Option::Some(f.participant_frames@[k].total_gold as int)
    } else {
        Option::None
    }
}

/// The gold difference between the player and their lane opponent at the
/// given time: found participant, recognized position, first participant of
/// the other team in the same position, first frame past the time, and both
/// players' gold totals in it — `None` as soon as any step has no answer.
pub open spec fn spec_gold_diff(m: MatchInfo, puuid: Seq<char>, seconds: int) -> Option<int> {
    let parts = m.info.participants@;
    let kp = spec_participant_index(parts, puuid);
    if kp >= parts.len() {
        Option::None
    } else {
        let me = parts[kp];
        match spec_parse_position(me.team_position@) {
            Option::None => Option::None,
            Option::Some(pos) => {
                let ke = spec_enemy_index(parts, spec_position_string(pos), me.team_id as int);
                if ke >= parts.len() {
                    Option::None
                } else {
                    let enemy = parts[ke];
                    match m.timeline {
                        Option::None => Option::None,
                        Option::Some(tl) => {
                            let kf = spec_frame_index(tl.frames@, seconds * 1000);
                            if kf >= tl.frames@.len() {
                                Option::None
                            } else {
                                let frame = tl.frames@[kf];
                                match (
                                    spec_frame_gold(frame, me.participant_id as int),
                                    spec_frame_gold(frame, enemy.participant_id as int),
                                ) {
                                    (Option::Some(mine), Option::Some(theirs)) => Option::Some(
                                        mine - theirs,
                                    ),
                                    _ => Option::None,
                                }
                            }
                        },
                    }
                }
            },
        }
    }
}

impl Frame {
    /// The gold total of one participant in this frame.
    pub fn gold_of(&self, participant_id: i32) -> (r: Option<i32>)
        ensures
            match r {
                Some(g) => spec_frame_gold(*self, participant_id as int) == Option::Some(g as int),
                None => spec_frame_gold(*self, participant_id as int) is None,
            },
    {
        let n = self.participant_frames.len();
        let mut i: usize = 0;
        while i < n
            invariant
                0 <= i <= n,
                n == self.participant_frames@.len(),
                forall|j: int|
                    0 <= j < i ==> (#[trigger] self.participant_frames@[j]).participant_id
                        != participant_id,
            decreases n - i,
        {
            if self.participant_frames[i].participant_id == participant_id {
                proof {
                    lemma_pframe_index_is(
                        self.participant_frames@,
                        participant_id as int,
                        i as int,
                    );
                }
                return Some(self.participant_frames[i].total_gold);
            }
            i += 1;
        }
        proof {
            lemma_pframe_index_is(self.participant_frames@, participant_id as int, n as int);
        }
        None
    }
}

/// The first participant standing in the given position on another team
/// than the given one: the player's direct lane opponent.
fn find_enemy_laner(parts: &Vec<Participant>, pos_str: &str, team_id: i32) -> (r: Option<usize>)
    ensures
        ({
            let k = spec_enemy_index(parts@, pos_str@, team_id as int);
            match r {
                Some(idx) => idx == k && k < parts@.len(),
                None => k == parts@.len(),
            }
        }),
{
    let n = parts.len();
    let mut i: usize = 0;
    while i < n
        invariant
            0 <= i <= n,
            n == parts@.len(),
            forall|j: int|
                0 <= j < i ==> !((#[trigger] parts@[j]).team_position@ == pos_str@ && parts@[j]
                    .team_id != team_id),
        decreases n - i,
    {
        if str_eq_str(parts[i].team_position.as_str(), pos_str) && parts[i].team_id != team_id {
            proof {
                lemma_enemy_index_is(parts@, pos_str@, team_id as int, i as int);
            }
            return Some(i);
        }
        i += 1;
    }
    proof {
        lemma_enemy_index_is(parts@, pos_str@, team_id as int, n as int);
    }
    None
}

impl MatchInfo {
    /// Gold difference between the player and their lane opponent after the
    /// given number of seconds, where match and timeline data allow it.
    pub fn get_gold_diff(&self, puuid: &str, seconds: i32) -> (r: Option<i64>)
        ensures
            match r {
                Some(d) => spec_gold_diff(*self, puuid@, seconds as int) == Option::Some(d as int),
                None => spec_gold_diff(*self, puuid@, seconds as int) is None,
            },
    {
        let me = match self.info.get_participant(puuid) {
            Ok(p) => p,
            Err(_) => {
                return None;
            },
        };
        let pos = match TeamPosition::parse(me.team_position.as_str()) {
            Ok(p) => p,
            Err(_) => {
                return None;
            },
        };
        let pos_str = pos.to_riot_api_string();
        let enemy_idx = find_enemy_laner(&self.info.participants, pos_str, me.team_id);
        let enemy = match enemy_idx {
            Some(k) => &self.info.participants[k],
            None => {
                return None;
            },
        };
        let timeline = match &self.timeline {
            Some(t) => t,
            None => {
                return None;
            },
        };
        let frame = match timeline.get_frame(seconds) {
            Some(f) => f,
            None => {
                return None;
            },
        };
        let mine = match frame.gold_of(me.participant_id) {
            Some(g) => g,
            None => {
                return None;
            },
        };
        let theirs = match frame.gold_of(enemy.participant_id) {
            Some(g) => g,
            None => {
                return None;
            },
        };
        Some(mine as i64 - theirs as i64)
    }
}

/// Kills, deaths and assists.
#[derive(Debug, Clone, PartialEq, Eq, Structural)]
pub struct Kda(pub i32, pub i32, pub i32);

/// Why a per-player match summary could not be built.
#[derive(Debug, Clone, Copy, PartialEq, Eq, Structural)]
pub enum MatchPlayerInfoError {
    ParticipantNotFound(ParticipantGetterError),
    TeamNotFound(TeamGetterError),
    MaxTimeNotFound(GameTimeGetterError),
    InvalidPosition(TeamPositionError),
    ChampionNotFound,
}

/// All minions a participant killed: lane minions plus both jungle counts,
/// absent jungle counts reading as zero.
pub open spec fn spec_total_minions(p: Participant) -> int {
    p.total_minions_killed + (match p.total_ally_jungle_minions_killed {
        Option::Some(v) => v as int,
        Option::None => 0,
    }) + (match p.total_enemy_jungle_minions_killed {
        Option::Some(v) => v as int,
        Option::None => 0,
    })
}

/// One player's view of one match, as the display layers consume it.
#[derive(Debug, Clone, PartialEq)]
pub struct MatchPlayerInfo {
    /// Champion played in the match.
    pub champion: String,
    /// Kills, deaths and assists.
    pub kda: Kda,
    /// Minions killed in the match.
    pub minions_killed: i32,
    /// Time played in the match, in seconds.
    pub time_played: i32,
    /// Whether the player won the match.
    pub game_result: GameResult,
    /// Position in the team.
    pub team_position: TeamPosition,
    /// Gold difference against the lane opponent fifteen minutes in.
    pub gold_diff_15: Option<i64>,
}

impl MatchPlayerInfo {
    /// Builds the player's summary of one match: their participant line,
    /// their team's result, the match length, their position, and the gold
    /// difference in lane.  Each missing piece is its own error, found in
    /// this order: participant, team, champion, position.
    pub fn from_match_info(match_data: &MatchInfo, summoner_puuid: &str) -> (r: Result<
        MatchPlayerInfo,
        MatchPlayerInfoError,
    >)
        requires
            forall|i: int|
                0 <= i < match_data.info.participants@.len() ==> i32::MIN <= spec_total_minions(
                    #[trigger] match_data.info.participants@[i],
                ) <= i32::MAX,
        ensures
            ({
                let parts = match_data.info.participants@;
                let teams = match_data.info.teams@;
                let kp = spec_participant_index(parts, summoner_puuid@);
                if kp >= parts.len() {
                    r == Result::<MatchPlayerInfo, MatchPlayerInfoError>::Err(
                        MatchPlayerInfoError::ParticipantNotFound(
                            ParticipantGetterError::ParticipantNotFound,
                        ),
                    )
                } else {
                    let me = parts[kp];
                    let kt = spec_team_index(teams, me.team_id as int);
                    if kt >= teams.len() {
                        r == Result::<MatchPlayerInfo, MatchPlayerInfoError>::Err(
                            MatchPlayerInfoError::TeamNotFound(TeamGetterError::TeamNotFound),
                        )
                    } else if me.champion is None {
                        r == Result::<MatchPlayerInfo, MatchPlayerInfoError>::Err(
                            MatchPlayerInfoError::ChampionNotFound,
                        )
                    } else if spec_parse_position(me.team_position@) is None {
                        r == Result::<MatchPlayerInfo, MatchPlayerInfoError>::Err(
                            MatchPlayerInfoError::InvalidPosition(
                                TeamPositionError::InvalidPosition,
                            ),
                        )
                    } else {
                        &&& r matches Ok(info)
                        &&& me.champion matches Some(name) && info.champion == name
                        &&& info.kda == Kda(me.kills, me.deaths, me.assists)
                        &&& info.minions_killed == spec_total_minions(me)
                        &&& exists|i: int|
                            0 <= i < parts.len() && (#[trigger] parts[i]).time_played
                                == info.time_played
                        &&& forall|i: int|
                            0 <= i < parts.len() ==> (#[trigger] parts[i]).time_played
                                <= info.time_played
                        &&& info.game_result == (if teams[kt].win {
                            GameResult::Win
                        } else {
                            GameResult::Loss
                        })
                        &&& spec_parse_position(me.team_position@) == Option::Some(
                            info.team_position,
                        )
                        &&& match spec_gold_diff(*match_data, summoner_puuid@, 900) {
                            Option::Some(g) => info.gold_diff_15 matches Some(d) && d == g,
                            Option::None => info.gold_diff_15 is None,
                        }
                    }
                }
            }),
    {
        let participant = match match_data.info.get_participant(summoner_puuid) {
            Ok(p) => p,
            Err(e) => {
                return Err(MatchPlayerInfoError::ParticipantNotFound(e));
            },
        };
        let team = match match_data.info.get_my_team(participant) {
            Ok(t) => t,
            Err(e) => {
                return Err(MatchPlayerInfoError::TeamNotFound(e));
            },
        };
        let max_time = match match_data.info.max_time() {
            Ok(t) => t,
            Err(e) => {
                return Err(MatchPlayerInfoError::MaxTimeNotFound(e));
            },
        };
        let gold_diff = match_data.get_gold_diff(summoner_puuid, 60 * 15);
        let game_result = if team.win {
            GameResult::Win
        } else {
            GameResult::Loss
        };
        let champion = match &participant.champion {
            Some(name) => name.clone(),
            None => {
                return Err(MatchPlayerInfoError::ChampionNotFound);
            },
        };
        let team_position = match TeamPosition::parse(participant.team_position.as_str()) {
            Ok(p) => p,
            Err(e) => {
                return Err(MatchPlayerInfoError::InvalidPosition(e));
            },
        };
        let ally = match participant.total_ally_jungle_minions_killed {
            Some(v) => v,
            None => 0,
        };
        let enemy = match participant.total_enemy_jungle_minions_killed {
            Some(v) => v,
            None => 0,
        };
        let minions = participant.total_minions_killed as i64 + ally as i64 + enemy as i64;
        proof {
            let parts = match_data.info.participants@;
            let teams = match_data.info.teams@;
            let kp = spec_participant_index(parts, summoner_puuid@);
            lemma_participant_index_range(parts, summoner_puuid@);
            lemma_team_index_range(teams, parts[kp].team_id as int);
            assert(i32::MIN <= spec_total_minions(parts[kp]) <= i32::MAX);
            assert(minions == spec_total_minions(parts[kp]));
        }
        Ok(
            MatchPlayerInfo {
                champion,
                kda: Kda(participant.kills, participant.deaths, participant.assists),
                minions_killed: minions as i32,
                time_played: max_time,
                game_result,
                team_position,
                gold_diff_15: gold_diff,
            },
        )
    }
}

impl Kda {
    /// Accumulates another score into this one.
    pub fn add(&mut self, other: &Kda)
        requires
            i32::MIN <= old(self).0 + other.0 <= i32::MAX,
            i32::MIN <= old(self).1 + other.1 <= i32::MAX,
            i32::MIN <= old(self).2 + other.2 <= i32::MAX,
        ensures
            final(self).0 == old(self).0 + other.0,
            final(self).1 == old(self).1 + other.1,
            final(self).2 == old(self).2 + other.2,
    {
        self.0 = self.0 + other.0;
        self.1 = self.1 + other.1;
        self.2 = self.2 + other.2;
    }
}

} // verus!
