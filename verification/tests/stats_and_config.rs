//! Statistics accumulation, ranked reduction, configuration assembly and
//! the small text helpers.

use lolfetch::account::RiotId;
use lolfetch::backfill::{MatchCriteria, RANKED_SOLO_QUEUE_ID};
use lolfetch::cache::CacheSaveOptions;
use lolfetch::cli::lolfetch::{
    parse_number_of_parsed_games, Custom, DisplayConfig, Globals, ImageSource, InfoKind, Lolfetch,
    Mastery, Ranked, RecentMatches,
};
use lolfetch::cli::{LeagueServer, SummonerConfig};
use lolfetch::config::{Config, ConfigError, Image};
use lolfetch::dragon::{champion_icon_url, profile_icon_url};
use lolfetch::info::{max_champion_name_width, ChampionRankedInfo};
use lolfetch::models::champion_stats::{GameStats, RecentChampionInfo};
use lolfetch::models::matches::{GameResult, Kda, MatchPlayerInfo, TeamPosition};
use lolfetch::models::ranked::{
    Division, ImgUrlGetter, LeagueEntryData, QueueKind, RankedInfo, Tier,
};
use lolfetch::text::{str_eq_str, u64_to_string};

fn summary(won: bool) -> MatchPlayerInfo {
    MatchPlayerInfo {
        champion: "Ahri".to_string(),
        kda: Kda(5, 3, 9),
        minions_killed: 200,
        time_played: 1800,
        game_result: if won { GameResult::Win } else { GameResult::Loss },
        team_position: TeamPosition::Mid,
        gold_diff_15: Some(300),
    }
}

#[test]
fn game_stats_accumulate_games() {
    let mut stats = GameStats::new();
    assert_eq!(stats.total_games(), 0);
    stats.add_game(&summary(true));
    stats.add_game(&summary(false));
    stats.add_game(&summary(true));
    assert_eq!(stats.wins, 2);
    assert_eq!(stats.losses, 1);
    assert_eq!(stats.total_games(), 3);
    assert_eq!(stats.time_played, 5400);
    assert_eq!(stats.minions_killed, 600);
    assert_eq!(stats.kda, Kda(15, 9, 27));
}

#[test]
fn champion_ranked_info_accumulates_games() {
    let mut info = ChampionRankedInfo::new();
    info.add_game(true, 1200, 150, Kda(3, 1, 4));
    info.add_game(false, 1500, 180, Kda(2, 5, 6));
    assert_eq!(info.wins, 1);
    assert_eq!(info.losses, 1);
    assert_eq!(info.time_played, 2700);
    assert_eq!(info.minions_killed, 330);
    assert_eq!(info.kda, Kda(5, 6, 10));
}

fn named_summary(champion: &str, won: bool) -> MatchPlayerInfo {
    let mut s = summary(won);
    s.champion = champion.to_string();
    s
}

#[test]
fn recent_champion_info_ranks_most_played_first() {
    let ms = vec![
        named_summary("Ahri", true),
        named_summary("Jax", false),
        named_summary("Ahri", false),
        named_summary("Sona", true),
        named_summary("Ahri", true),
        named_summary("Jax", true),
    ];
    let info = RecentChampionInfo::new(&ms, 2);
    assert_eq!(info.games_processed, 6);
    assert_eq!(info.stats.len(), 2);
    assert_eq!(info.stats[0].champion, "Ahri");
    assert_eq!(info.stats[0].stats.total_games(), 3);
    assert_eq!(info.stats[0].stats.wins, 2);
    assert_eq!(info.stats[1].champion, "Jax");
    assert_eq!(info.stats[1].stats.total_games(), 2);
}

#[test]
fn recent_champion_info_keeps_every_champion_when_room_allows() {
    let ms = vec![named_summary("Ahri", true), named_summary("Jax", false)];
    let info = RecentChampionInfo::new(&ms, 10);
    assert_eq!(info.stats.len(), 2);
    let empty = RecentChampionInfo::new(&Vec::new(), 5);
    assert_eq!(empty.stats.len(), 0);
    assert_eq!(empty.games_processed, 0);
}

#[test]
fn ranked_info_keeps_only_ranked_queues() {
    let entry = LeagueEntryData {
        queue_type: QueueKind::RankedSolo5x5,
        tier: Some(Tier::Gold),
        rank: Some(Division::II),
        league_points: 57,
        wins: 40,
        losses: 35,
    };
    let info = RankedInfo::from_entry(entry).expect("solo queue qualifies");
    assert_eq!(info.tier, Tier::Gold);
    assert_eq!(info.division, Some(Division::II));
    assert_eq!(info.lp, 57);

    let missing_tier = LeagueEntryData {
        queue_type: QueueKind::RankedFlexSr,
        tier: None,
        rank: None,
        league_points: 0,
        wins: 1,
        losses: 2,
    };
    assert_eq!(
        RankedInfo::from_entry(missing_tier).expect("flex queue qualifies").tier,
        Tier::Unranked
    );

    let other = LeagueEntryData {
        queue_type: QueueKind::Other,
        tier: Some(Tier::Iron),
        rank: None,
        league_points: 0,
        wins: 0,
        losses: 0,
    };
    assert!(RankedInfo::from_entry(other).is_none());
}

#[test]
fn tier_icons_and_apex_flag() {
    assert_eq!(
        Tier::Iron.get_image_url(),
        "https://static.wikia.nocookie.net/leagueoflegends/images/f/f8/Season_2023_-_Iron.png/revision/latest"
    );
    assert!(Tier::Master.is_apex());
    assert!(!Tier::Gold.is_apex());
}

#[test]
fn games_count_parses_positive_decimals_only() {
    assert_eq!(parse_number_of_parsed_games("10"), Ok(10));
    assert_eq!(parse_number_of_parsed_games("1"), Ok(1));
    assert_eq!(
        parse_number_of_parsed_games("0"),
        Err("Number of games must be greater than 0".to_string())
    );
    assert_eq!(
        parse_number_of_parsed_games("-5"),
        Err("Number of games must be greater than 0".to_string())
    );
    assert_eq!(
        parse_number_of_parsed_games("abc"),
        Err("Invalid number of games".to_string())
    );
    assert_eq!(
        parse_number_of_parsed_games(""),
        Err("Invalid number of games".to_string())
    );
    assert_eq!(
        parse_number_of_parsed_games("99999999999"),
        Err("Invalid number of games".to_string())
    );
}

#[test]
fn each_display_mode_asks_for_its_matches() {
    let ranked = InfoKind::Ranked(Ranked { games: 25, top_champions: 5, recent_matches: 5 });
    assert_eq!(
        ranked.to_match_criteria(),
        Some(MatchCriteria {
            count: 25,
            queue: Some(RANKED_SOLO_QUEUE_ID),
            start_at: None,
        })
    );
    let mastery = InfoKind::Mastery(Mastery { games: 10, mastery_champions: 10 });
    assert_eq!(
        mastery.to_match_criteria(),
        Some(MatchCriteria { count: 10, queue: None, start_at: None })
    );
    let recent = InfoKind::RecentMatches(RecentMatches { recent_matches: 5 });
    assert_eq!(
        recent.to_match_criteria(),
        Some(MatchCriteria { count: 5, queue: None, start_at: None })
    );
    assert_eq!(InfoKind::Custom(Custom {}).to_match_criteria(), None);
}

fn display_command(image: ImageSource, champion: Option<&str>, url: Option<&str>) -> Lolfetch {
    Lolfetch {
        info_config: InfoKind::RecentMatches(RecentMatches { recent_matches: 5 }),
        summoner: SummonerConfig {
            riot_id: RiotId::new("sev".to_string(), "cat".to_string()),
            server: LeagueServer::Euw,
        },
        display_config: DisplayConfig {
            image,
            champion: champion.map(|c| c.to_string()),
            custom_img_url: url.map(|u| u.to_string()),
        },
        globals: Globals { no_save: false },
    }
}

#[test]
fn config_is_assembled_from_the_command_line() {
    let config = Config::from_cli(display_command(ImageSource::Default, None, None))
        .expect("complete options");
    assert_eq!(config.account.server, LeagueServer::Euw);
    assert_eq!(config.account.riot_id.username, "sev");
    assert_eq!(config.globals.cache_save, CacheSaveOptions::Save);
    assert!(matches!(config.image, Image::Default));

    let with_champion =
        Config::from_cli(display_command(ImageSource::ChampionIcon, Some("Ahri"), None))
            .expect("champion given");
    assert!(matches!(with_champion.image, Image::ChampionIcon(name) if name == "Ahri"));
}

#[test]
fn incomplete_image_options_are_refused() {
    assert!(matches!(
        Config::from_cli(display_command(ImageSource::ChampionIcon, None, None)),
        Err(ConfigError::ChampionNotProvided)
    ));
    assert!(matches!(
        Config::from_cli(display_command(ImageSource::Custom, None, None)),
        Err(ConfigError::CustomUrlNotProvided)
    ));
}

#[test]
fn no_save_flag_reaches_the_save_options() {
    let mut command = display_command(ImageSource::Default, None, None);
    command.globals.no_save = true;
    let config = Config::from_cli(command).expect("complete options");
    assert_eq!(config.globals.cache_save, CacheSaveOptions::DontSave);
}

#[test]
fn servers_map_to_platform_routes() {
    assert_eq!(LeagueServer::Euw.to_route_str(), "EUW1");
    assert_eq!(LeagueServer::Na.to_route_str(), "NA1");
    assert_eq!(LeagueServer::Kr.to_route_str(), "KR");
    assert_eq!(LeagueServer::Mena.to_route_str(), "ME1");
}

#[test]
fn numbers_render_in_decimal() {
    assert_eq!(u64_to_string(0), "0");
    assert_eq!(u64_to_string(7), "7");
    assert_eq!(u64_to_string(12345), "12345");
    assert_eq!(u64_to_string(u64::MAX), "18446744073709551615");
}

#[test]
fn icon_urls_embed_patch_and_subject() {
    assert_eq!(
        profile_icon_url("14.15.1", 4567),
        "https://cdn.communitydragon.org/14.15.1/profile-icon/4567"
    );
    assert_eq!(
        champion_icon_url("14.15.1", "Ahri"),
        "http://ddragon.leagueoflegends.com/cdn/14.15.1/img/champion/Ahri.png"
    );
}

#[test]
fn name_width_takes_the_longest() {
    let names = vec!["Ahri".to_string(), "Aurelion Sol".to_string(), "Jax".to_string()];
    assert_eq!(max_champion_name_width(&names), Some(12));
    assert_eq!(max_champion_name_width(&Vec::new()), None);
}

#[test]
fn string_slices_compare_by_content() {
    assert!(str_eq_str("TOP", "TOP"));
    assert!(!str_eq_str("TOP", "TOP "));
    assert!(!str_eq_str("TOP", "BOT"));
    assert!(str_eq_str("", ""));
}
