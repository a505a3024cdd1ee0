//! Listening-history tracking core for MPRIS media players.
//!
//! The library reconstructs per-player playback state from bus signals,
//! decides which listening episodes qualify as a logged play, and prepares
//! the resulting records for an append-only sink.  All state transitions,
//! qualification rules and formatting helpers are verified; the surrounding
//! process (bus connection, clocks, probes, the sink itself) hands plain
//! values in and takes plain values back.

pub mod config;
pub mod context;
pub mod date_range;
pub mod display;
pub mod filter;
pub mod metadata;
pub mod monitor;
pub mod queries;
pub mod stats;
pub mod strutil;
pub mod track;
pub mod types;
pub mod views;

pub use config::Config;
pub use config::ConfigError;
pub use config::DatabaseConfig;
pub use config::GeneralConfig;
pub use config::PlayerConfig;
pub use config::TrackingConfig;
pub use context::ListeningContext;
pub use context::get_season;
pub use date_range::Date;
pub use date_range::DateRange;
pub use date_range::days_in_month;
pub use date_range::format_date_sql;
pub use date_range::from_cli_flags;
pub use metadata::MetaValue;
pub use metadata::parse_metadata;
pub use metadata::track_to_metadata;
pub use monitor::MprisEvent;
pub use monitor::MprisMonitor;
pub use monitor::PlayRecord;
pub use monitor::PlayerEntry;
pub use track::Track;
pub use track::TrackState;
pub use types::Milliseconds;
pub use types::Microseconds;
pub use types::PlayCount;
