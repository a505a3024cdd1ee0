//! Configuration for tracking and player admission.
//!
//! The fractional play threshold enters as thousandths, so that the
//! qualification rule stays in integers.  Loading and saving these settings
//! is the surrounding process's business; the library holds the values and
//! validates them.

use vstd::prelude::*;
use vstd::string::StringExecFns;

use crate::strutil::eq_ignore_ascii_case_str;
use crate::strutil::spec_eq_nocase;

verus! {

/// General application settings.
#[derive(Debug, Clone)]
pub struct GeneralConfig {
    /// Log level name: one of trace, debug, info, warn, error.
    pub log_level: String,
    /// Data directory; absent means the platform default.
    pub data_dir: Option<String>,
}

/// Database settings.
#[derive(Debug, Clone)]
pub struct DatabaseConfig {
    /// Database file path; absent means the default under the data
    /// directory.
    pub path: Option<String>,
}

/// Tracking behaviour settings.
#[derive(Debug, Clone, Copy)]
pub struct TrackingConfig {
    /// Minimum seconds of wall-clock play to count as a play.
    pub min_play_seconds: u64,
    /// Minimum played fraction of the track, in thousandths.
    pub min_play_permille: u32,
    /// Only log local sources.
    pub local_only: bool,
    /// Account for seeks.
    pub track_seeks: bool,
    /// Sample volumes.
    pub track_volume: bool,
    /// Capture the listening context at log time.
    pub track_context: bool,
    /// Seconds of an empty registry after which the process may exit; zero
    /// disables the idle exit.
    pub idle_timeout_seconds: u64,
}

/// Player admission settings.
#[derive(Debug, Clone)]
pub struct PlayerConfig {
    /// Substring allow-list over player names; empty admits all.
    pub whitelist: Vec<String>,
    /// Substring deny-list over player names, checked first.
    pub blacklist: Vec<String>,
    /// Player names always treated as local sources.
    pub local_only_players: Vec<String>,
}

/// The whole configuration.
#[derive(Debug, Clone)]
pub struct Config {
    pub general: GeneralConfig,
    pub database: DatabaseConfig,
    pub tracking: TrackingConfig,
    pub players: PlayerConfig,
}

impl Default for GeneralConfig {
    /// Info-level logging, platform-default data directory.
    fn default() -> (r: GeneralConfig)
        ensures
            r.log_level@ == "info"@,
            r.data_dir is None,
    {
        GeneralConfig { log_level: "info".to_owned(), data_dir: None }
    }
}

impl Default for DatabaseConfig {
    /// The default database location.
    fn default() -> (r: DatabaseConfig)
        ensures
            r.path is None,
    {
        DatabaseConfig { path: None }
    }
}

impl Default for TrackingConfig {
    /// Thirty seconds minimum, half the track as the alternative
    /// qualifier, local sources only, full accounting, a thirty-second
    /// idle exit.
    fn default() -> (r: TrackingConfig)
        ensures
            r.min_play_seconds == 30,
            r.min_play_permille == 500,
            r.local_only,
            r.track_seeks,
            r.track_volume,
            r.track_context,
            r.idle_timeout_seconds == 30,
    {
        TrackingConfig {
            min_play_seconds: 30,
            min_play_permille: 500,
            local_only: true,
            track_seeks: true,
            track_volume: true,
            track_context: true,
            idle_timeout_seconds: 30,
        }
    }
}

impl Default for PlayerConfig {
    /// No allow- or deny-list, and the well-known local-only players.
    fn default() -> (r: PlayerConfig)
        ensures
            r.whitelist@.len() == 0,
            r.blacklist@.len() == 0,
            r.local_only_players.deep_view() == seq![
                "io.bassi.Amberol"@,
                "org.gnome.Lollypop"@,
                "org.gnome.Music"@,
                "audacious"@,
                "deadbeef"@,
                "quodlibet"@,
                "clementine"@,
                "strawberry"@,
                "rhythmbox"@,
                "elisa"@,
                "sayonara"@,
                "cantata"@,
            ],
    {
        let mut lp: Vec<String> = Vec::new();
        lp.push("io.bassi.Amberol".to_owned());
        lp.push("org.gnome.Lollypop".to_owned());
        lp.push("org.gnome.Music".to_owned());
        lp.push("audacious".to_owned());
        lp.push("deadbeef".to_owned());
        lp.push("quodlibet".to_owned());
        lp.push("clementine".to_owned());
        lp.push("strawberry".to_owned());
        lp.push("rhythmbox".to_owned());
        lp.push("elisa".to_owned());
        lp.push("sayonara".to_owned());
        lp.push("cantata".to_owned());
        proof {
            assert(lp.deep_view() =~= seq![
                "io.bassi.Amberol"@,
                "org.gnome.Lollypop"@,
                "org.gnome.Music"@,
                "audacious"@,
                "deadbeef"@,
                "quodlibet"@,
                "clementine"@,
                "strawberry"@,
                "rhythmbox"@,
                "elisa"@,
                "sayonara"@,
                "cantata"@,
            ]);
        }
        PlayerConfig { whitelist: Vec::new(), blacklist: Vec::new(), local_only_players: lp }
    }
}

impl Default for Config {
    /// All component defaults.
    fn default() -> (r: Config)
        ensures
            r.tracking.min_play_seconds == 30,
            r.tracking.min_play_permille == 500,
            r.tracking.local_only,
            r.tracking.idle_timeout_seconds == 30,
    {
        Config {
            general: GeneralConfig::default(),
            database: DatabaseConfig::default(),
            tracking: TrackingConfig::default(),
            players: PlayerConfig::default(),
        }
    }
}

/// Why a configuration was rejected.
#[derive(Debug, Clone, Copy, PartialEq, Eq, Structural)]
pub enum ConfigError {
    /// The fractional play threshold is beyond the whole.
    InvalidPlayPercent,
    /// The minimum play time exceeds one hour.
    PlaySecondsTooLarge,
    /// The log level is not a recognised name.
    UnknownLogLevel,
}

impl ConfigError {
    /// A short description of the rejection.
    pub fn message(&self) -> (r: String)
        ensures
            *self is InvalidPlayPercent ==> r@ == "min_play_percent must be between 0 and 1"@,
            *self is PlaySecondsTooLarge ==> r@ == "min_play_seconds should not exceed 3600"@,
            *self is UnknownLogLevel ==> r@
                == "log_level must be one of trace, debug, info, warn, error"@,
    {
        match self {
            ConfigError::InvalidPlayPercent => "min_play_percent must be between 0 and 1".to_owned(),
            ConfigError::PlaySecondsTooLarge => "min_play_seconds should not exceed 3600".to_owned(),
            ConfigError::UnknownLogLevel => "log_level must be one of trace, debug, info, warn, error".to_owned(),
        }
    }
}

/// A recognised log level name, compared without regard to ASCII case.
pub open spec fn spec_valid_log_level(s: Seq<char>) -> bool {
    ||| spec_eq_nocase(s, "trace"@)
    ||| spec_eq_nocase(s, "debug"@)
    ||| spec_eq_nocase(s, "info"@)
    ||| spec_eq_nocase(s, "warn"@)
    ||| spec_eq_nocase(s, "error"@)
}

impl Config {
    /// Validate the configuration: the fractional threshold within the
    /// whole, the minimum play time at most an hour, and a recognised log
    /// level.  Returns the first failing check, in that order.
    pub fn validate(&self) -> (r: Result<(), ConfigError>)
        ensures
            r is Ok <==> (self.tracking.min_play_permille <= 1000
                && self.tracking.min_play_seconds <= 3600 && spec_valid_log_level(
                self.general.log_level@,
            )),
            self.tracking.min_play_permille > 1000 ==> r == Result::<(), ConfigError>::Err(
                ConfigError::InvalidPlayPercent,
            ),
            self.tracking.min_play_permille <= 1000 && self.tracking.min_play_seconds > 3600
                ==> r == Result::<(), ConfigError>::Err(ConfigError::PlaySecondsTooLarge),
            self.tracking.min_play_permille <= 1000 && self.tracking.min_play_seconds <= 3600
                && !spec_valid_log_level(self.general.log_level@) ==> r == Result::<
                (),
                ConfigError,
            >::Err(ConfigError::UnknownLogLevel),
    {
        if self.tracking.min_play_permille > 1000 {
            return Err(ConfigError::InvalidPlayPercent);
        }
        if self.tracking.min_play_seconds > 3600 {
            return Err(ConfigError::PlaySecondsTooLarge);
        }
        let level = self.general.log_level.as_str();
        if eq_ignore_ascii_case_str(level, "trace") || eq_ignore_ascii_case_str(level, "debug")
            || eq_ignore_ascii_case_str(level, "info") || eq_ignore_ascii_case_str(level, "warn")
            || eq_ignore_ascii_case_str(level, "error") {
            Ok(())
        } else {
            Err(ConfigError::UnknownLogLevel)
        }
    }
}

} // verus!
