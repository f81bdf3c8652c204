//! Per-player analysis of a match: participant lookup, lane opponent, gold
//! difference and the assembled summary.

use lolfetch::info::get_team_position;
use lolfetch::models::matches::{
    Frame, GameInfo, GameTimeline, Kda, MatchInfo, MatchPlayerInfo, MatchPlayerInfoError,
    Participant, ParticipantFrame, Team, TeamPosition, TeamPositionError,
};

fn participant(puuid: &str, team_id: i32, position: &str, pid: i32) -> Participant {
    Participant {
        puuid: puuid.to_string(),
        champion: Some("Ahri".to_string()),
        kills: 7,
        deaths: 2,
        assists: 11,
        total_minions_killed: 180,
        total_ally_jungle_minions_killed: Some(4),
        total_enemy_jungle_minions_killed: None,
        neutral_minions_killed: 12,
        time_played: 1850,
        team_position: position.to_string(),
        team_id,
        participant_id: pid,
    }
}

fn sample_match() -> MatchInfo {
    let mut me = participant("me", 100, "MIDDLE", 1);
    me.time_played = 1850;
    let mut foe = participant("foe", 200, "MIDDLE", 2);
    foe.time_played = 1900;
    MatchInfo {
        id: "EUW1_1".to_string(),
        info: GameInfo {
            game_creation: 1000,
            game_duration: 1900,
            game_start_timestamp: 1000,
            game_version: "14.15.1".to_string(),
            participants: vec![me, foe],
            teams: vec![
                Team { team_id: 100, win: true },
                Team { team_id: 200, win: false },
            ],
        },
        timeline: Some(GameTimeline {
            frames: vec![
                Frame {
                    timestamp: 60_000,
                    participant_frames: vec![
                        ParticipantFrame { participant_id: 1, total_gold: 500 },
                        ParticipantFrame { participant_id: 2, total_gold: 480 },
                    ],
                },
                Frame {
                    // The first frame past fifteen minutes.
                    timestamp: 960_000,
                    participant_frames: vec![
                        ParticipantFrame { participant_id: 1, total_gold: 6100 },
                        ParticipantFrame { participant_id: 2, total_gold: 5400 },
                    ],
                },
            ],
        }),
    }
}

#[test]
fn summary_collects_the_player_view() {
    let m = sample_match();
    let info = MatchPlayerInfo::from_match_info(&m, "me").expect("summary should build");
    assert_eq!(info.champion, "Ahri");
    assert_eq!(info.kda, Kda(7, 2, 11));
    // 180 lane minions + 4 ally-jungle + 0 enemy-jungle.
    assert_eq!(info.minions_killed, 184);
    // The longest time any participant stayed in the game.
    assert_eq!(info.time_played, 1900);
    assert_eq!(info.team_position, TeamPosition::Mid);
    // Gold at the first frame past 15:00: 6100 against 5400.
    assert_eq!(info.gold_diff_15, Some(700));
}

#[test]
fn unknown_player_is_reported() {
    let m = sample_match();
    assert!(matches!(
        MatchPlayerInfo::from_match_info(&m, "stranger"),
        Err(MatchPlayerInfoError::ParticipantNotFound(_))
    ));
}

#[test]
fn missing_team_is_reported() {
    let mut m = sample_match();
    m.info.teams.clear();
    assert!(matches!(
        MatchPlayerInfo::from_match_info(&m, "me"),
        Err(MatchPlayerInfoError::TeamNotFound(_))
    ));
}

#[test]
fn missing_champion_is_reported() {
    let mut m = sample_match();
    m.info.participants[0].champion = None;
    assert_eq!(
        MatchPlayerInfo::from_match_info(&m, "me"),
        Err(MatchPlayerInfoError::ChampionNotFound)
    );
}

#[test]
fn unknown_position_is_reported() {
    let mut m = sample_match();
    m.info.participants[0].team_position = "BENCH".to_string();
    assert!(matches!(
        MatchPlayerInfo::from_match_info(&m, "me"),
        Err(MatchPlayerInfoError::InvalidPosition(_))
    ));
}

#[test]
fn gold_diff_needs_a_timeline() {
    let mut m = sample_match();
    m.timeline = None;
    assert_eq!(m.get_gold_diff("me", 900), None);
    let info = MatchPlayerInfo::from_match_info(&m, "me").expect("summary still builds");
    assert_eq!(info.gold_diff_15, None);
}

#[test]
fn gold_diff_needs_an_opponent_in_lane() {
    let mut m = sample_match();
    m.info.participants[1].team_position = "TOP".to_string();
    assert_eq!(m.get_gold_diff("me", 900), None);
}

#[test]
fn gold_diff_picks_the_first_frame_past_the_time() {
    let m = sample_match();
    // One minute in, the earlier frame answers: 500 against 480.
    assert_eq!(m.get_gold_diff("me", 30), Some(20));
    assert_eq!(m.get_gold_diff("me", 900), Some(700));
    // Past the last frame there is no answer.
    assert_eq!(m.get_gold_diff("me", 2000), None);
}

#[test]
fn remake_and_split_predicates_read_the_record() {
    let mut m = sample_match();
    assert!(!m.is_remake());
    m.info.game_duration = 179;
    assert!(m.is_remake());
    assert!(m.is_current_split(lolfetch::split::Split::Split2));
    assert!(!m.is_current_split(lolfetch::split::Split::Split1));
}

#[test]
fn max_time_needs_a_participant() {
    let mut m = sample_match();
    m.info.participants.clear();
    assert!(m.info.max_time().is_err());
}

#[test]
fn positions_parse_and_print_both_ways() {
    for (name, pos) in [
        ("TOP", TeamPosition::Top),
        ("JUNGLE", TeamPosition::Jungle),
        ("MIDDLE", TeamPosition::Mid),
        ("BOTTOM", TeamPosition::Bot),
        ("UTILITY", TeamPosition::Support),
    ] {
        assert_eq!(TeamPosition::parse(name), Ok(pos));
        assert_eq!(pos.to_riot_api_string(), name);
    }
    assert_eq!(
        TeamPosition::parse("MID"),
        Err(TeamPositionError::InvalidPosition)
    );
}

#[test]
fn short_position_labels() {
    assert_eq!(get_team_position("TOP"), "TOP");
    assert_eq!(get_team_position("JUNGLE"), "JGL");
    assert_eq!(get_team_position("MIDDLE"), "MID");
    assert_eq!(get_team_position("BOTTOM"), "BOT");
    assert_eq!(get_team_position("UTILITY"), "SUP");
    assert_eq!(get_team_position("BENCH"), "BENCH");
}

#[test]
fn kda_accumulates() {
    let mut kda = Kda(1, 2, 3);
    kda.add(&Kda(4, 5, 6));
    assert_eq!(kda, Kda(5, 7, 9));
}
