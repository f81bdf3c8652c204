//! The application configuration assembled from the command line.

use vstd::prelude::*;

verus! {

use crate::account::RiotId;
use crate::cache::CacheSaveOptions;
use crate::cli::lolfetch::{DisplayConfig, ImageSource, InfoKind, Lolfetch};
use crate::cli::{LeagueServer, SummonerConfig};

/// Global run options.
#[derive(Debug, Clone, Copy, PartialEq, Eq, Structural)]
pub struct Globals {
    /// Whether to save the cache after the run.
    pub cache_save: CacheSaveOptions,
}

/// Configuration of one display run.
#[derive(Debug, Clone)]
pub struct Config {
    /// Account information.
    pub account: Account,
    /// Type of image to display.
    pub image: Image,
    /// Display mode.
    pub mode: InfoKind,
    /// Global run options.
    pub globals: Globals,
}

/// Which account, on which server.
#[derive(Debug, Clone)]
pub struct Account {
    /// Riot ID of the summoner.
    pub riot_id: RiotId,
    /// Server the account is registered on.
    pub server: LeagueServer,
}

impl From<SummonerConfig> for Account {
    fn from(value: SummonerConfig) -> Account {
        Account { riot_id: value.riot_id, server: value.server }
    }
}

impl vstd::std_specs::convert::FromSpecImpl<SummonerConfig> for Account {
    open spec fn obeys_from_spec() -> bool {
        true
    }

    open spec fn from_spec(value: SummonerConfig) -> Account {
        Account { riot_id: value.riot_id, server: value.server }
    }
}

/// The image rendered next to the data.
#[derive(Debug, Clone)]
pub enum Image {
    /// Based on the display mode.
    Default,
    /// The player's rank icon.
    RankIcon,
    /// A chosen champion's icon, by name.
    ChampionIcon(String),
    /// The player's profile icon.
    SummonerIcon,
    /// A custom image URL.
    Custom(String),
}

/// Why the command line could not be turned into a configuration.
#[derive(Debug, Clone, Copy, PartialEq, Eq, Structural)]
pub enum ConfigError {
    /// The champion-icon image source needs a champion.
    ChampionNotProvided,
    /// The custom image source needs a URL.
    CustomUrlNotProvided,
}

/// What image the display options ask for, when they are complete.
pub open spec fn spec_image_of(display: DisplayConfig) -> Result<Image, ConfigError> {
    match display.image {
        ImageSource::Default => Result::Ok(Image::Default),
        ImageSource::RankIcon => Result::Ok(Image::RankIcon),
        ImageSource::ChampionIcon => match display.champion {
            Option::Some(champ) => Result::Ok(Image::ChampionIcon(champ)),
            Option::None => Result::Err(ConfigError::ChampionNotProvided),
        },
        ImageSource::SummonerIcon => Result::Ok(Image::SummonerIcon),
        ImageSource::Custom => match display.custom_img_url {
            Option::Some(url) => Result::Ok(Image::Custom(url)),
            Option::None => Result::Err(ConfigError::CustomUrlNotProvided),
        },
    }
}

impl Config {
    /// Assembles the run configuration from the display command's options.
    pub fn from_cli(value: Lolfetch) -> (r: Result<Config, ConfigError>)
        ensures
            match r {
                Ok(c) => {
                    &&& c.account.riot_id == value.summoner.riot_id
                    &&& c.account.server == value.summoner.server
                    &&& c.mode == value.info_config
                    &&& (c.globals.cache_save == CacheSaveOptions::Save) == !value.globals.no_save
                    &&& spec_image_of(value.display_config) == Result::<Image, ConfigError>::Ok(
                        c.image,
                    )
                },
                Err(e) => spec_image_of(value.display_config) == Result::<Image, ConfigError>::Err(
                    e,
                ),
            },
    {
        let image = match Self::parse_image_config(value.display_config) {
            Ok(image) => image,
            Err(e) => {
                return Err(e);
            },
        };
        Ok(
            Config {
                account: Account {
                    riot_id: value.summoner.riot_id,
                    server: value.summoner.server,
                },
                image,
                mode: value.info_config,
                globals: Globals {
                    cache_save: CacheSaveOptions::from_bool(!value.globals.no_save),
                },
            },
        )
    }

    /// Picks the image the display options ask for.
    fn parse_image_config(display: DisplayConfig) -> (r: Result<Image, ConfigError>)
        ensures
            r == spec_image_of(display),
    {
        match display.image {
            ImageSource::Default => Ok(Image::Default),
            ImageSource::RankIcon => Ok(Image::RankIcon),
            ImageSource::ChampionIcon => match display.champion {
                Some(champ) => Ok(Image::ChampionIcon(champ)),
                None => Err(ConfigError::ChampionNotProvided),
            },
            ImageSource::SummonerIcon => Ok(Image::SummonerIcon),
            ImageSource::Custom => match display.custom_img_url {
                Some(url) => Ok(Image::Custom(url)),
                None => Err(ConfigError::CustomUrlNotProvided),
            },
        }
    }
}

} // verus!
