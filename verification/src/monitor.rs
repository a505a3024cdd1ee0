//! The player registry and the playback event handler.
//!
//! [`MprisMonitor`] holds the per-player states, keyed by unique bus name,
//! beside each player's well-known name.  [`MprisMonitor::handle_event`]
//! drives every transition: it decides, before mutating, whether the
//! outgoing episode qualifies as a play, and hands the qualifying snapshots
//! back as [`PlayRecord`] values for the sink.  The surrounding process
//! reads the bus, supplies clock readings, performs the fetches the handler
//! asks for, and appends the records; every decision lives here.
//!
//! Each transition is pinned to a specification-level step function over
//! the registry's view, so that whole event histories can be reasoned
//! about; the laws at the end of the module are proved over those steps.

use vstd::prelude::*;
use vstd::string::StringExecFns;

use crate::config::PlayerConfig;
use crate::config::TrackingConfig;
use crate::metadata::parse_metadata;
use crate::metadata::spec_entries;
use crate::metadata::spec_parse;
use crate::metadata::MetaValue;
use crate::strutil::spec_starts_with;
use crate::strutil::starts_with_str;
use crate::strutil::str_eq;
use crate::strutil::strip_prefix_or_self;
use crate::track::any_name_matches;
use crate::track::spec_can_seek;
use crate::track::spec_is_local_source;
use crate::track::spec_new_state;
use crate::track::spec_on_seeked;
use crate::track::spec_player_id;
use crate::track::spec_player_match;
use crate::track::spec_played_ms;
use crate::track::spec_should_log;
use crate::track::spec_start_playing;
use crate::track::spec_track_change;
use crate::track::Track;
use crate::track::TrackState;
use crate::track::MPRIS_PREFIX;

verus! {

/// An event produced from the bus signals.
#[derive(Debug, Clone)]
pub enum MprisEvent {
    /// A new track started playing.
    TrackChanged { player: String, track: Track, is_local: bool },
    /// Playback started.
    Playing { player: String },
    /// Playback paused.
    Paused { player: String },
    /// Playback stopped.
    Stopped { player: String },
    /// A player appeared on the bus, under its well-known name.
    PlayerAppeared { player: String },
    /// A player disappeared from the bus, under its well-known name.
    PlayerDisappeared { player: String },
    /// A seek occurred.
    Seeked { player: String, position_us: i64 },
}

/// One tracked player: its unique bus name, its well-known name, and the
/// episode in progress.
#[derive(Debug, Clone)]
pub struct PlayerEntry {
    /// Unique connection name, the registry key.
    pub unique: String,
    /// Well-known bus name, for display.
    pub well_known: String,
    /// The episode in progress.
    pub state: TrackState,
}

/// A qualifying episode, snapshotted at the moment of the decision, ready
/// for the sink.
#[derive(Debug, Clone)]
pub struct PlayRecord {
    /// The player's unique connection name.
    pub player: String,
    /// The episode as it qualified.
    pub state: TrackState,
    /// Wall-clock play time at the moment of the decision, in
    /// milliseconds.
    pub played_ms: i64,
}

/// The player registry and its tracking settings.
#[derive(Debug)]
pub struct MprisMonitor {
    /// The tracked players, unique names distinct.
    pub players: Vec<PlayerEntry>,
    /// Monotonic clock reading at which the registry became empty; absent
    /// while players are tracked.
    pub idle_since_ms: Option<i64>,
    /// Cleared by [`MprisMonitor::stop`] to request shutdown.
    pub running: bool,
    /// Tracking behaviour settings.
    pub tracking: TrackingConfig,
    /// Player admission settings.
    pub player_config: PlayerConfig,
}

/// The specification-level image of the registry.
pub struct MonitorView {
    pub players: Seq<PlayerEntry>,
    pub idle_since_ms: Option<i64>,
    pub running: bool,
    pub tracking: TrackingConfig,
    pub whitelist: Seq<Seq<char>>,
    pub blacklist: Seq<Seq<char>>,
    pub local_only_players: Seq<Seq<char>>,
}

impl View for MprisMonitor {
    type V = MonitorView;

    open spec fn view(&self) -> MonitorView {
        MonitorView {
            players: self.players@,
            idle_since_ms: self.idle_since_ms,
            running: self.running,
            tracking: self.tracking,
            whitelist: self.player_config.whitelist.deep_view(),
            blacklist: self.player_config.blacklist.deep_view(),
            local_only_players: self.player_config.local_only_players.deep_view(),
        }
    }
}

/// First position of the unique name in the registry, scanning from `i`.
pub open spec fn spec_find_from(s: Seq<PlayerEntry>, unique: Seq<char>, i: int) -> Option<int>
    decreases s.len() - i,
{
    if i < 0 || i >= s.len() {
        None
    } else if s[i].unique@ == unique {
        Some(i)
    } else {
        spec_find_from(s, unique, i + 1)
    }
}

/// First position of the unique name in the registry.
pub open spec fn spec_find(s: Seq<PlayerEntry>, unique: Seq<char>) -> Option<int> {
    spec_find_from(s, unique, 0)
}

/// First position of the well-known name in the registry, scanning from
/// `i`.
pub open spec fn spec_find_wk_from(s: Seq<PlayerEntry>, well_known: Seq<char>, i: int) -> Option<
    int,
>
    decreases s.len() - i,
{
    if i < 0 || i >= s.len() {
        None
    } else if s[i].well_known@ == well_known {
        Some(i)
    } else {
        spec_find_wk_from(s, well_known, i + 1)
    }
}

/// First position of the well-known name in the registry.
pub open spec fn spec_find_wk(s: Seq<PlayerEntry>, well_known: Seq<char>) -> Option<int> {
    spec_find_wk_from(s, well_known, 0)
}

/// The admission rule: the deny-list is checked first, then a non-empty
/// allow-list restricts to its names.
pub open spec fn spec_should_track(m: MonitorView, name: Seq<char>) -> bool {
    let id = spec_player_id(name);
    !spec_player_match(m.blacklist, id) && (m.whitelist.len() == 0 || spec_player_match(
        m.whitelist,
        id,
    ))
}

/// The qualification applied on the way out of an episode, at a pause, a
/// stop, a track change or the player's removal: playing, past the
/// thresholds, and past the local-source gate.
pub open spec fn spec_qualifies(st: TrackState, now: int, t: TrackingConfig) -> bool {
    st.is_playing && spec_should_log(st, now, t.min_play_seconds, t.min_play_permille)
        && (!t.local_only || st.is_local)
}

/// The snapshot taken of a qualifying episode.
pub open spec fn spec_record(e: PlayerEntry, now: int) -> PlayRecord {
    PlayRecord { player: e.unique, state: e.state, played_ms: spec_played_ms(e.state, now) as i64 }
}

/// One operation on the registry, for reasoning about whole histories:
/// either a bus event, with the clock readings it was handled at, or an
/// admission with the fetched initial state.
pub enum MonitorOp {
    /// A track change for a tracked player.
    TrackChanged { player: Seq<char>, track: Track, is_local: bool, now: i64, wall: i64 },
    /// Playback started.
    Playing { player: Seq<char>, now: i64, wall: i64 },
    /// Playback paused or stopped.
    Paused { player: Seq<char>, now: i64 },
    /// A player disappeared, by well-known name.
    Disappeared { player: Seq<char>, now: i64 },
    /// A seek; with seek tracking off, only the position is remembered.
    Seeked { player: Seq<char>, position_us: i64 },
    /// A player admitted, with its resolved names, its display name, and
    /// its fetched initial track and status.
    Add {
        unique: String,
        well_known: String,
        pname: String,
        track: Option<Track>,
        playing: bool,
        now: i64,
        wall: i64,
    },
}

/// The initial state built for an admitted player.
pub open spec fn spec_initial_state(
    m: MonitorView,
    pname: String,
    track: Option<Track>,
    playing: bool,
    now: int,
    wall: int,
) -> TrackState {
    let base = TrackState { player_name: Some(pname), ..spec_new_state() };
    let with_track = match track {
        Some(t) => TrackState {
            track: t,
            is_local: spec_is_local_source(t, m.local_only_players, Some(pname@)),
            ..base
        },
        None => base,
    };
    if playing {
        spec_start_playing(with_track, now, wall)
    } else {
        with_track
    }
}

/// One operation applied to the registry's view: the next view and the
/// records to log.
pub open spec fn spec_apply(m: MonitorView, op: MonitorOp) -> (MonitorView, Seq<PlayRecord>) {
    match op {
        MonitorOp::TrackChanged { player, track, is_local, now, wall } => {
            match spec_find(m.players, player) {
                Some(i) => {
                    let ent = m.players[i];
                    let recs: Seq<PlayRecord> = if spec_qualifies(ent.state, now as int, m.tracking) {
                        seq![spec_record(ent, now as int)]
                    } else {
                        seq![]
                    };
                    let ent2 = PlayerEntry {
                        state: spec_track_change(ent.state, track, is_local, now as int, wall as int),
                        ..ent
                    };
                    (MonitorView { players: m.players.update(i, ent2), ..m }, recs)
                },
                None => (m, seq![]),
            }
        },
        MonitorOp::Playing { player, now, wall } => {
            match spec_find(m.players, player) {
                Some(i) => {
                    let ent = m.players[i];
                    if !ent.state.is_playing {
                        let ent2 = PlayerEntry {
                            state: spec_start_playing(ent.state, now as int, wall as int),
                            ..ent
                        };
                        (MonitorView { players: m.players.update(i, ent2), ..m }, seq![])
                    } else {
                        (m, seq![])
                    }
                },
                None => (m, seq![]),
            }
        },
        MonitorOp::Paused { player, now } => {
            match spec_find(m.players, player) {
                Some(i) => {
                    let ent = m.players[i];
                    let recs: Seq<PlayRecord> = if spec_qualifies(ent.state, now as int, m.tracking) {
                        seq![spec_record(ent, now as int)]
                    } else {
                        seq![]
                    };
                    let ent2 = PlayerEntry {
                        state: TrackState { is_playing: false, ..ent.state },
                        ..ent
                    };
                    (MonitorView { players: m.players.update(i, ent2), ..m }, recs)
                },
                None => (m, seq![]),
            }
        },
        MonitorOp::Disappeared { player, now } => {
            match spec_find_wk(m.players, player) {
                Some(i) => {
                    let ent = m.players[i];
                    let recs: Seq<PlayRecord> = if spec_qualifies(ent.state, now as int, m.tracking) {
                        seq![spec_record(ent, now as int)]
                    } else {
                        seq![]
                    };
                    let rest = m.players.remove(i);
                    let idle = if rest.len() == 0 {
                        Some(now)
                    } else {
                        m.idle_since_ms
                    };
                    (MonitorView { players: rest, idle_since_ms: idle, ..m }, recs)
                },
                None => (m, seq![]),
            }
        },
        MonitorOp::Seeked { player, position_us } => {
            match spec_find(m.players, player) {
                Some(i) => {
                    let ent = m.players[i];
                    if m.tracking.track_seeks {
                        if spec_can_seek(ent.state, position_us as int) {
                            let ent2 = PlayerEntry {
                                state: spec_on_seeked(ent.state, position_us as int),
                                ..ent
                            };
                            (MonitorView { players: m.players.update(i, ent2), ..m }, seq![])
                        } else {
                            (m, seq![])
                        }
                    } else {
                        let ent2 = PlayerEntry {
                            state: TrackState { last_position_us: position_us, ..ent.state },
                            ..ent
                        };
                        (MonitorView { players: m.players.update(i, ent2), ..m }, seq![])
                    }
                },
                None => (m, seq![]),
            }
        },
        MonitorOp::Add { unique, well_known, pname, track, playing, now, wall } => {
            match spec_find(m.players, unique@) {
                Some(_) => (m, seq![]),
                None => {
                    let st = spec_initial_state(m, pname, track, playing, now as int, wall as int);
                    let ent = PlayerEntry { unique: unique, well_known: well_known, state: st };
                    (
                        MonitorView { players: m.players.push(ent), idle_since_ms: None, ..m },
                        seq![],
                    )
                },
            }
        },
    }
}

/// The image of a bus event, carrying the clock readings it is handled at.
pub open spec fn spec_op_of_event(e: MprisEvent, now: i64, wall: i64) -> Option<MonitorOp> {
    match e {
        MprisEvent::TrackChanged { player, track, is_local } => Some(
            MonitorOp::TrackChanged { player: player@, track: track, is_local: is_local, now, wall },
        ),
        MprisEvent::Playing { player } => Some(MonitorOp::Playing { player: player@, now, wall }),
        MprisEvent::Paused { player } => Some(MonitorOp::Paused { player: player@, now }),
        MprisEvent::Stopped { player } => Some(MonitorOp::Paused { player: player@, now }),
        MprisEvent::PlayerDisappeared { player } => Some(
            MonitorOp::Disappeared { player: player@, now },
        ),
        MprisEvent::Seeked { player, position_us } => Some(
            MonitorOp::Seeked { player: player@, position_us },
        ),
        MprisEvent::PlayerAppeared { player: _ } => None,
    }
}

/// What a handled event leaves behind: for most events the applied step;
/// for an appearance, no change and possibly a fetch request.
pub open spec fn spec_handle_outcome(
    m: MonitorView,
    e: MprisEvent,
    now: i64,
    wall: i64,
) -> (MonitorView, Seq<PlayRecord>) {
    match spec_op_of_event(e, now, wall) {
        Some(op) => spec_apply(m, op),
        None => (m, seq![]),
    }
}

/// The fetch request a handled event produces: the well-known name of an
/// admitted appearing player.
pub open spec fn spec_fetch_request(m: MonitorView, e: MprisEvent) -> Option<Seq<char>> {
    match e {
        MprisEvent::PlayerAppeared { player } => if spec_should_track(m, player@) {
            Some(player@)
        } else {
            None
        },
        _ => None,
    }
}

/// The records of the episodes still playing and qualifying at shutdown.
pub open spec fn spec_finalize_from(
    s: Seq<PlayerEntry>,
    now: int,
    t: TrackingConfig,
    i: int,
) -> Seq<PlayRecord>
    decreases s.len() - i,
{
    if i < 0 || i >= s.len() {
        seq![]
    } else {
        let rest = spec_finalize_from(s, now, t, i + 1);
        if spec_qualifies(s[i].state, now, t) {
            seq![spec_record(s[i], now)] + rest
        } else {
            rest
        }
    }
}

/// The records of a final pass over the registry.
pub open spec fn spec_finalize(m: MonitorView, now: int) -> Seq<PlayRecord> {
    spec_finalize_from(m.players, now, m.tracking, 0)
}

/// The loop's exit rule: a stop was requested, or the idle exit is enabled
/// and the registry has been empty for at least the idle timeout.
pub open spec fn spec_should_exit(m: MonitorView, now: int) -> bool {
    !m.running || (m.tracking.idle_timeout_seconds > 0 && match m.idle_since_ms {
        Some(t0) => now - t0 >= m.tracking.idle_timeout_seconds * 1000,
        None => false,
    })
}

impl MprisMonitor {
    /// The registry's well-formedness: the idle clock runs only while the
    /// registry is empty, and unique names are distinct.
    pub open spec fn inv(self) -> bool {
        spec_monitor_inv(self@)
    }

    /// Create a monitor with no tracked players.
    pub fn new(tracking: TrackingConfig, player_config: PlayerConfig) -> (r: MprisMonitor)
        ensures
            r@.players.len() == 0,
            r@.idle_since_ms is None,
            r@.running,
            r.tracking == tracking,
            r.player_config == player_config,
            r.inv(),
    {
        MprisMonitor {
            players: Vec::new(),
            idle_since_ms: None,
            running: true,
            tracking,
            player_config,
        }
    }

    /// Request shutdown: the loop exits at its next turn.
    pub fn stop(&mut self)
        ensures
            final(self)@ == (MonitorView { running: false, ..old(self)@ }),
    {
        self.running = false;
    }

    /// Start the idle clock where the registry is empty, as after a
    /// discovery pass that found no players.
    pub fn arm_idle_if_empty(&mut self, now_ms: i64)
        ensures
            old(self)@.players.len() == 0 ==> final(self)@ == (MonitorView {
                idle_since_ms: Some(now_ms),
                ..old(self)@
            }),
            old(self)@.players.len() > 0 ==> final(self)@ == old(self)@,
            old(self).inv() ==> final(self).inv(),
    {
        if self.players.len() == 0 {
            self.idle_since_ms = Some(now_ms);
        }
    }

    /// Whether a well-known name passes the admission rule.
    pub fn should_track_player(&self, name: &str) -> (r: bool)
        ensures
            r == spec_should_track(self@, name@),
    {
        let player_id = strip_prefix_or_self(name, MPRIS_PREFIX);
        proof {
            assert(player_id@ == spec_player_id(name@));
        }
        if any_name_matches(&self.player_config.blacklist, player_id) {
            return false;
        }
        if self.player_config.whitelist.len() == 0 {
            return true;
        }
        any_name_matches(&self.player_config.whitelist, player_id)
    }

    /// Whether the loop should exit at clock reading `now_ms`.
    pub fn should_exit(&self, now_ms: i64) -> (r: bool)
        ensures
            r == spec_should_exit(self@, now_ms as int),
    {
        if !self.running {
            return true;
        }
        if self.tracking.idle_timeout_seconds == 0 {
            return false;
        }
        match self.idle_since_ms {
            Some(t0) => {
                (now_ms as i128) - (t0 as i128) >= (self.tracking.idle_timeout_seconds as i128)
                    * 1000
            },
            None => false,
        }
    }

    /// Position of the unique name in the registry.
    fn find_player(&self, unique: &str) -> (r: Option<usize>)
        ensures
            match r {
                Some(i) => i < self.players@.len() && spec_find(self.players@, unique@) == Some(
                    i as int,
                ),
                None => spec_find(self.players@, unique@) is None,
            },
    {
        let n = self.players.len();
        let mut i: usize = 0;
        while i < n
            invariant
                0 <= i <= n,
                n == self.players@.len(),
                spec_find(self.players@, unique@) == spec_find_from(
                    self.players@,
                    unique@,
                    i as int,
                ),
            decreases n - i,
        {
            if crate::strutil::str_eq(self.players[i].unique.as_str(), unique) {
                return Some(i);
            }
            i = i + 1;
        }
        None
    }

    /// Position of the well-known name in the registry.
    fn find_by_well_known(&self, well_known: &str) -> (r: Option<usize>)
        ensures
            match r {
                Some(i) => i < self.players@.len() && spec_find_wk(self.players@, well_known@)
                    == Some(i as int),
                None => spec_find_wk(self.players@, well_known@) is None,
            },
    {
        let n = self.players.len();
        let mut i: usize = 0;
        while i < n
            invariant
                0 <= i <= n,
                n == self.players@.len(),
                spec_find_wk(self.players@, well_known@) == spec_find_wk_from(
                    self.players@,
                    well_known@,
                    i as int,
                ),
            decreases n - i,
        {
            if crate::strutil::str_eq(self.players[i].well_known.as_str(), well_known) {
                return Some(i);
            }
            i = i + 1;
        }
        None
    }

    /// Whether the entry's episode qualifies at a pause, a stop or a track
    /// change.
    fn qualifies(&self, state: &TrackState, now_ms: i64) -> (r: bool)
        ensures
            r == spec_qualifies(*state, now_ms as int, self.tracking),
    {
        state.is_playing && state.should_log(
            now_ms,
            self.tracking.min_play_seconds,
            self.tracking.min_play_permille,
        ) && (!self.tracking.local_only || state.is_local)
    }

    /// Snapshot a qualifying episode for the sink.
    fn make_record(entry: &PlayerEntry, now_ms: i64) -> (r: PlayRecord)
        ensures
            r == spec_record(*entry, now_ms as int),
    {
        PlayRecord {
            player: entry.unique.clone(),
            state: entry.state.clone(),
            played_ms: entry.state.played_ms(now_ms),
        }
    }

    /// Handle one event at the given clock readings.
    ///
    /// Returns the qualifying snapshots to append to the sink, and, for an
    /// admitted appearing player, the well-known name whose initial state
    /// the caller should fetch and hand to [`MprisMonitor::add_player`].
    pub fn handle_event(&mut self, event: &MprisEvent, now_ms: i64, wall_ms: i64) -> (r: (
        Vec<PlayRecord>,
        Option<String>,
    ))
        ensures
            (final(self)@, r.0@) == spec_handle_outcome(old(self)@, *event, now_ms, wall_ms),
            match r.1 {
                Some(n) => spec_fetch_request(old(self)@, *event) == Some(n@),
                None => spec_fetch_request(old(self)@, *event) is None,
            },
    {
        let mut records: Vec<PlayRecord> = Vec::new();
        match event {
            MprisEvent::TrackChanged { player, track, is_local } => {
                if let Some(i) = self.find_player(player.as_str()) {
                    let ghost before = self.players@;
                    let mut entry = self.players.remove(i);
                    if self.qualifies(&entry.state, now_ms) {
                        records.push(Self::make_record(&entry, now_ms));
                    }
                    entry.state.apply_track_change(track.clone(), *is_local, now_ms, wall_ms);
                    self.players.insert(i, entry);
                    proof {
                        assert(self.players@ =~= before.update(
                            i as int,
                            self.players@[i as int],
                        ));
                    }
                }
                (records, None)
            },
            MprisEvent::Playing { player } => {
                if let Some(i) = self.find_player(player.as_str()) {
                    let ghost before = self.players@;
                    if !self.players[i].state.is_playing {
                        let mut entry = self.players.remove(i);
                        entry.state.start_playing(now_ms, wall_ms);
                        self.players.insert(i, entry);
                        proof {
                            assert(self.players@ =~= before.update(
                                i as int,
                                self.players@[i as int],
                            ));
                        }
                    }
                }
                (records, None)
            },
            MprisEvent::Paused { player } => {
                self.pause_player(player.as_str(), now_ms, &mut records);
                (records, None)
            },
            MprisEvent::Stopped { player } => {
                self.pause_player(player.as_str(), now_ms, &mut records);
                (records, None)
            },
            MprisEvent::PlayerDisappeared { player } => {
                if let Some(i) = self.find_by_well_known(player.as_str()) {
                    let entry = self.players.remove(i);
                    if self.qualifies(&entry.state, now_ms) {
                        records.push(Self::make_record(&entry, now_ms));
                    }
                    if self.players.len() == 0 {
                        self.idle_since_ms = Some(now_ms);
                    }
                }
                (records, None)
            },
            MprisEvent::Seeked { player, position_us } => {
                if let Some(i) = self.find_player(player.as_str()) {
                    let ghost before = self.players@;
                    if self.tracking.track_seeks {
                        if self.players[i].state.can_apply_seek(*position_us) {
                            let mut entry = self.players.remove(i);
                            entry.state.on_seeked(*position_us);
                            self.players.insert(i, entry);
                            proof {
                                assert(self.players@ =~= before.update(
                                    i as int,
                                    self.players@[i as int],
                                ));
                            }
                        }
                    } else {
                        let mut entry = self.players.remove(i);
                        entry.state.last_position_us = *position_us;
                        self.players.insert(i, entry);
                        proof {
                            assert(self.players@ =~= before.update(
                                i as int,
                                self.players@[i as int],
                            ));
                        }
                    }
                }
                (records, None)
            },
            MprisEvent::PlayerAppeared { player } => {
                if self.should_track_player(player.as_str()) {
                    (records, Some(player.clone()))
                } else {
                    (records, None)
                }
            },
        }
    }

    /// Judge and end the episode of a pausing or stopping player.
    fn pause_player(&mut self, player: &str, now_ms: i64, records: &mut Vec<PlayRecord>)
        ensures
            (final(self)@, final(records)@) == ({
                let (m2, recs) = spec_apply(
                    old(self)@,
                    MonitorOp::Paused { player: player@, now: now_ms },
                );
                (m2, old(records)@ + recs)
            }),
    {
        if let Some(i) = self.find_player(player) {
            let ghost before = self.players@;
            let mut entry = self.players.remove(i);
            if self.qualifies(&entry.state, now_ms) {
                records.push(Self::make_record(&entry, now_ms));
            }
            entry.state.stop_playing();
            self.players.insert(i, entry);
            proof {
                assert(self.players@ =~= before.update(i as int, self.players@[i as int]));
            }
        } else {
            proof {
                assert(final(records)@ =~= old(records)@);
            }
        }
    }

    /// Admit a player: build its initial state from the fetched track and
    /// status, insert it, and stop the idle clock.  A unique name already
    /// tracked is left as it is.
    pub fn add_player(
        &mut self,
        unique: String,
        well_known: String,
        track: Option<Track>,
        status_playing: bool,
        now_ms: i64,
        wall_ms: i64,
    )
        ensures
            spec_find(old(self)@.players, unique@) is Some ==> final(self)@ == old(self)@,
            spec_find(old(self)@.players, unique@) is None ==> match final(self)@.players.last().state.player_name {
                Some(pn) => pn@ == spec_player_id(well_known@) && final(self)@ == spec_apply(
                    old(self)@,
                    MonitorOp::Add {
                        unique: unique,
                        well_known: well_known,
                        pname: pn,
                        track: track,
                        playing: status_playing,
                        now: now_ms,
                        wall: wall_ms,
                    },
                ).0,
                None => false,
            },
    {
        if let Some(_) = self.find_player(unique.as_str()) {
            return;
        }
        let pname = strip_prefix_or_self(well_known.as_str(), MPRIS_PREFIX).to_owned();
        proof {
            assert(pname@ == spec_player_id(well_known@));
        }
        let mut state = TrackState::new();
        state.player_name = Some(pname);
        match &track {
            Some(t) => {
                let local = t.is_local_source(
                    &self.player_config.local_only_players,
                    match &state.player_name {
                        Some(p) => Some(p.as_str()),
                        None => None,
                    },
                );
                state.track = t.clone();
                state.is_local = local;
            },
            None => {},
        }
        if status_playing {
            state.start_playing(now_ms, wall_ms);
        }
        let entry = PlayerEntry { unique, well_known, state };
        self.players.push(entry);
        self.idle_since_ms = None;
    }

    /// A final pass over the registry: the records of every episode still
    /// playing and qualifying.  The registry itself is left as it is.
    pub fn finalize(&self, now_ms: i64) -> (r: Vec<PlayRecord>)
        ensures
            r@ == spec_finalize(self@, now_ms as int),
    {
        let mut records: Vec<PlayRecord> = Vec::new();
        let n = self.players.len();
        let mut i: usize = n;
        while i > 0
            invariant
                0 <= i <= n,
                n == self.players@.len(),
                records@ == spec_finalize_from(self.players@, now_ms as int, self.tracking, i as int),
            decreases i,
        {
            i = i - 1;
            let qualifies = self.qualifies(&self.players[i].state, now_ms);
            if qualifies {
                let rec = Self::make_record(&self.players[i], now_ms);
                records.insert(0, rec);
                proof {
                    assert(records@ =~= seq![
                        spec_record(self.players@[i as int], now_ms as int),
                    ] + spec_finalize_from(
                        self.players@,
                        now_ms as int,
                        self.tracking,
                        i as int + 1,
                    ));
                }
            }
        }
        records
    }
}

/// Classify a name-ownership change on the bus: an emptied owner of a
/// player name is a disappearance, a freshly filled one an appearance;
/// anything else is no event.
pub fn classify_name_owner_changed(name: &str, old_owner: &str, new_owner: &str) -> (r: Option<
    MprisEvent,
>)
    ensures
        ({
            let mpris = spec_starts_with(name@, MPRIS_PREFIX@);
            let disappeared = mpris && new_owner@.len() == 0 && old_owner@.len() > 0;
            let appeared = mpris && new_owner@.len() > 0 && old_owner@.len() == 0;
            match r {
                Some(MprisEvent::PlayerDisappeared { player }) => disappeared && player@ == name@,
                Some(MprisEvent::PlayerAppeared { player }) => appeared && player@ == name@,
                Some(_) => false,
                None => !disappeared && !appeared,
            }
        }),
{
    if starts_with_str(name, MPRIS_PREFIX) {
        if new_owner.is_empty() && !old_owner.is_empty() {
            return Some(MprisEvent::PlayerDisappeared { player: name.to_owned() });
        }
        if !new_owner.is_empty() && old_owner.is_empty() {
            return Some(MprisEvent::PlayerAppeared { player: name.to_owned() });
        }
    }
    None
}

/// Classify a playback-status change: the three status strings map to
/// their events; any other status is no event.
pub fn classify_playback_status(player: &str, status: &str) -> (r: Option<MprisEvent>)
    ensures
        ({
            match r {
                Some(MprisEvent::Playing { player: p }) => status@ == "Playing"@ && p@ == player@,
                Some(MprisEvent::Paused { player: p }) => status@ == "Paused"@ && p@ == player@,
                Some(MprisEvent::Stopped { player: p }) => status@ == "Stopped"@ && p@ == player@,
                Some(_) => false,
                None => status@ != "Playing"@ && status@ != "Paused"@ && status@ != "Stopped"@,
            }
        }),
{
    if str_eq(status, "Playing") {
        Some(MprisEvent::Playing { player: player.to_owned() })
    } else if str_eq(status, "Paused") {
        Some(MprisEvent::Paused { player: player.to_owned() })
    } else if str_eq(status, "Stopped") {
        Some(MprisEvent::Stopped { player: player.to_owned() })
    } else {
        None
    }
}

/// Build the track-change event for a metadata signal: parse the map and
/// classify the source against the configured local-only players, the
/// sending connection's name standing in for the player.
pub fn track_changed_event(
    player: &str,
    metadata: &Vec<(String, MetaValue)>,
    local_players: &Vec<String>,
) -> (r: MprisEvent)
    ensures
        ({
            match r {
                MprisEvent::TrackChanged { player: p, track, is_local } => p@ == player@ && track@
                    == spec_parse(spec_entries(metadata@)) && is_local == spec_is_local_source(
                    track,
                    local_players.deep_view(),
                    Some(player@),
                ),
                _ => false,
            }
        }),
{
    let track = parse_metadata(metadata);
    let is_local = track.is_local_source(local_players, Some(player));
    MprisEvent::TrackChanged { player: player.to_owned(), track, is_local }
}

/// The registry's well-formedness over its view.
pub open spec fn spec_monitor_inv(m: MonitorView) -> bool {
    &&& (m.idle_since_ms is Some ==> m.players.len() == 0)
    &&& (forall|i: int, j: int|
        0 <= i < j < m.players.len() ==> #[trigger] m.players[i].unique@ != #[trigger] m.players[j].unique@)
}

/// A missed scan means no entry from `i` on carries the name.
proof fn lemma_find_none(s: Seq<PlayerEntry>, u: Seq<char>, i: int)
    requires
        0 <= i,
        spec_find_from(s, u, i) is None,
    ensures
        forall|j: int| i <= j < s.len() ==> s[j].unique@ != u,
    decreases s.len() - i,
{
    if i < s.len() {
        lemma_find_none(s, u, i + 1);
    }
}

/// A hit at `k` means the entry at `k` carries the name.
proof fn lemma_find_some(s: Seq<PlayerEntry>, u: Seq<char>, i: int, k: int)
    requires
        0 <= i,
        spec_find_from(s, u, i) == Some(k),
    ensures
        i <= k < s.len(),
        s[k].unique@ == u,
    decreases s.len() - i,
{
    if i < s.len() && s[i].unique@ != u {
        lemma_find_some(s, u, i + 1, k);
    }
}

/// A hit at `k` in the well-known scan means the entry at `k` carries the
/// name.
proof fn lemma_find_wk_some(s: Seq<PlayerEntry>, u: Seq<char>, i: int, k: int)
    requires
        0 <= i,
        spec_find_wk_from(s, u, i) == Some(k),
    ensures
        i <= k < s.len(),
        s[k].well_known@ == u,
    decreases s.len() - i,
{
    if i < s.len() && s[i].well_known@ != u {
        lemma_find_wk_some(s, u, i + 1, k);
    }
}

/// With distinct names, every entry is found at its own position.
proof fn lemma_find_self(s: Seq<PlayerEntry>, i: int)
    requires
        forall|a: int, b: int|
            0 <= a < b < s.len() ==> #[trigger] s[a].unique@ != #[trigger] s[b].unique@,
        0 <= i < s.len(),
    ensures
        spec_find(s, s[i].unique@) == Some(i),
{
    lemma_find_self_from(s, i, 0);
}

/// Helper for [`lemma_find_self`]: the scan from any position at or before
/// the entry hits it.
proof fn lemma_find_self_from(s: Seq<PlayerEntry>, i: int, j: int)
    requires
        forall|a: int, b: int|
            0 <= a < b < s.len() ==> #[trigger] s[a].unique@ != #[trigger] s[b].unique@,
        0 <= j <= i < s.len(),
    ensures
        spec_find_from(s, s[i].unique@, j) == Some(i),
    decreases i - j,
{
    if j < i {
        assert(s[j].unique@ != s[i].unique@);
        lemma_find_self_from(s, i, j + 1);
    }
}

/// Replacing an entry with one under the same name keeps the names
/// distinct.
proof fn lemma_update_keeps_distinct(s: Seq<PlayerEntry>, i: int, e: PlayerEntry)
    requires
        forall|a: int, b: int|
            0 <= a < b < s.len() ==> #[trigger] s[a].unique@ != #[trigger] s[b].unique@,
        0 <= i < s.len(),
        e.unique@ == s[i].unique@,
    ensures
        forall|a: int, b: int|
            0 <= a < b < s.update(i, e).len() ==> #[trigger] s.update(i, e)[a].unique@
                != #[trigger] s.update(i, e)[b].unique@,
{
    let s2 = s.update(i, e);
    assert forall|a: int, b: int|
        0 <= a < b < s2.len() implies #[trigger] s2[a].unique@ != #[trigger] s2[b].unique@ by {
        assert(s2[a] == if a == i {
            e
        } else {
            s[a]
        });
        assert(s2[b] == if b == i {
            e
        } else {
            s[b]
        });
    }
}

/// Law: every step preserves the registry's well-formedness: distinct
/// names, and an idle clock only over an empty registry.
pub proof fn lemma_step_preserves_inv(m: MonitorView, op: MonitorOp)
    requires
        spec_monitor_inv(m),
    ensures
        spec_monitor_inv(spec_apply(m, op).0),
{
    let m2 = spec_apply(m, op).0;
    match op {
        MonitorOp::Disappeared { player, now } => {
            match spec_find_wk(m.players, player) {
                Some(i) => {
                    lemma_find_wk_some(m.players, player, 0, i);
                    m.players.remove_ensures(i);
                    assert forall|a: int, b: int|
                        0 <= a < b < m2.players.len() implies #[trigger] m2.players[a].unique@
                        != #[trigger] m2.players[b].unique@ by {
                        assert(m2.players[a] == if a < i {
                            m.players[a]
                        } else {
                            m.players[a + 1]
                        });
                        assert(m2.players[b] == if b < i {
                            m.players[b]
                        } else {
                            m.players[b + 1]
                        });
                    }
                },
                None => {},
            }
        },
        MonitorOp::Add { unique, well_known, pname, track, playing, now, wall } => {
            match spec_find(m.players, unique@) {
                Some(_) => {},
                None => {
                    lemma_find_none(m.players, unique@, 0);
                },
            }
        },
        MonitorOp::TrackChanged { player, track, is_local, now, wall } => {
            match spec_find(m.players, player) {
                Some(k) => {
                    lemma_find_some(m.players, player, 0, k);
                    let ent2 = spec_apply(m, op).0.players[k];
                    lemma_update_keeps_distinct(m.players, k, ent2);
                },
                None => {},
            }
        },
        MonitorOp::Playing { player, now, wall } => {
            match spec_find(m.players, player) {
                Some(k) => {
                    lemma_find_some(m.players, player, 0, k);
                    let ent2 = spec_apply(m, op).0.players[k];
                    lemma_update_keeps_distinct(m.players, k, ent2);
                },
                None => {},
            }
        },
        MonitorOp::Paused { player, now } => {
            match spec_find(m.players, player) {
                Some(k) => {
                    lemma_find_some(m.players, player, 0, k);
                    let ent2 = spec_apply(m, op).0.players[k];
                    lemma_update_keeps_distinct(m.players, k, ent2);
                },
                None => {},
            }
        },
        MonitorOp::Seeked { player, position_us } => {
            match spec_find(m.players, player) {
                Some(k) => {
                    lemma_find_some(m.players, player, 0, k);
                    if k < spec_apply(m, op).0.players.len() {
                        let ent2 = spec_apply(m, op).0.players[k];
                        if spec_apply(m, op).0.players != m.players {
                            lemma_update_keeps_distinct(m.players, k, ent2);
                        }
                    }
                },
                None => {},
            }
        },
    }
}

/// Law: the loop never exits over a non-empty registry unless a stop was
/// requested: without one, the exit rule fires only off the idle clock,
/// which runs only while the registry is empty.
pub proof fn lemma_idle_exit_sound(m: MonitorView, now: int)
    requires
        spec_monitor_inv(m),
        spec_should_exit(m, now),
        m.running,
    ensures
        m.players.len() == 0,
{
}

/// The wall-clock reading at which an operation can start an episode, for
/// the operations that can.
pub open spec fn spec_op_wall(op: MonitorOp) -> Option<int> {
    match op {
        MonitorOp::TrackChanged { wall, .. } => Some(wall as int),
        MonitorOp::Playing { wall, .. } => Some(wall as int),
        MonitorOp::Add { wall, .. } => Some(wall as int),
        _ => None,
    }
}

/// The episode-starting wall readings of a history are strictly ascending,
/// all above `w`.
pub open spec fn spec_walls_ascending(ops: Seq<MonitorOp>, w: int) -> bool
    decreases ops.len(),
{
    if ops.len() == 0 {
        true
    } else {
        match spec_op_wall(ops[0]) {
            Some(w0) => w0 > w && spec_walls_ascending(ops.subrange(1, ops.len() as int), w0),
            None => spec_walls_ascending(ops.subrange(1, ops.len() as int), w),
        }
    }
}

/// The wall bound after a history: the last episode-starting reading, or
/// the starting bound where there was none.
pub open spec fn spec_walls_bound(ops: Seq<MonitorOp>, w: int) -> int
    decreases ops.len(),
{
    if ops.len() == 0 {
        w
    } else {
        match spec_op_wall(ops[0]) {
            Some(w0) => spec_walls_bound(ops.subrange(1, ops.len() as int), w0),
            None => spec_walls_bound(ops.subrange(1, ops.len() as int), w),
        }
    }
}

/// A whole history applied in order, with every emitted record collected.
pub open spec fn spec_run(m: MonitorView, ops: Seq<MonitorOp>) -> (MonitorView, Seq<PlayRecord>)
    decreases ops.len(),
{
    if ops.len() == 0 {
        (m, seq![])
    } else {
        let stepped = spec_apply(m, ops[0]);
        let rest = spec_run(stepped.0, ops.subrange(1, ops.len() as int));
        (rest.0, stepped.1 + rest.1)
    }
}

/// The log already holds a record for the player and episode start.
pub open spec fn spec_log_has(log: Seq<PlayRecord>, u: Seq<char>, ts: Option<i64>) -> bool {
    exists|i: int|
        0 <= i < log.len() && (#[trigger] log[i]).player@ == u && log[i].state.start_timestamp_ms
            == ts
}

/// No (player, episode start) pair is logged twice.
pub open spec fn spec_no_double(log: Seq<PlayRecord>) -> bool {
    forall|i: int, j: int|
        #![trigger log[i], log[j]]
        0 <= i < j < log.len() ==> !(log[i].player@ == log[j].player@
            && log[i].state.start_timestamp_ms == log[j].state.start_timestamp_ms)
}

/// The bookkeeping that ties registry, log and clock together: the
/// registry is well formed; every logged record carries an episode start
/// at or before the wall bound; every playing episode carries one too, and
/// is not yet in the log; and no pair is logged twice.
pub open spec fn spec_log_inv(m: MonitorView, log: Seq<PlayRecord>, w: int) -> bool {
    &&& spec_monitor_inv(m)
    &&& (forall|i: int|
        0 <= i < log.len() ==> match (#[trigger] log[i]).state.start_timestamp_ms {
            Some(ts) => ts <= w,
            None => false,
        })
    &&& (forall|i: int|
        0 <= i < m.players.len() && (#[trigger] m.players[i]).state.is_playing ==> {
            &&& (match m.players[i].state.start_timestamp_ms {
                Some(ts) => ts <= w,
                None => false,
            })
            &&& !spec_log_has(log, m.players[i].unique@, m.players[i].state.start_timestamp_ms)
        })
    &&& spec_no_double(log)
}

/// One step keeps the bookkeeping, moving the wall bound forward where the
/// step can start an episode.
proof fn lemma_apply_preserves_log_inv(
    m: MonitorView,
    log: Seq<PlayRecord>,
    w: int,
    op: MonitorOp,
)
    requires
        spec_log_inv(m, log, w),
        match spec_op_wall(op) {
            Some(w2) => w2 > w,
            None => true,
        },
    ensures
        spec_log_inv(
            spec_apply(m, op).0,
            log + spec_apply(m, op).1,
            match spec_op_wall(op) {
                Some(w2) => w2,
                None => w,
            },
        ),
{
    lemma_step_preserves_inv(m, op);
    let m2 = spec_apply(m, op).0;
    let recs = spec_apply(m, op).1;
    let log2 = log + recs;
    let w2 = match spec_op_wall(op) {
        Some(x) => x,
        None => w,
    };
    assert(forall|k: int| 0 <= k < log.len() ==> log2[k] == log[k]);
    assert forall|u: Seq<char>, ts: Option<i64>|
        !spec_log_has(log2, u, ts) implies !spec_log_has(log, u, ts) by {}
    match op {
        MonitorOp::TrackChanged { player, track, is_local, now, wall } => {
            match spec_find(m.players, player) {
                Some(k) => {
                    lemma_find_some(m.players, player, 0, k);
                },
                None => {},
            }
        },
        MonitorOp::Playing { player, now, wall } => {
            match spec_find(m.players, player) {
                Some(k) => {
                    lemma_find_some(m.players, player, 0, k);
                },
                None => {},
            }
        },
        MonitorOp::Paused { player, now } => {
            match spec_find(m.players, player) {
                Some(k) => {
                    lemma_find_some(m.players, player, 0, k);
                },
                None => {},
            }
        },
        MonitorOp::Disappeared { player, now } => {
            match spec_find_wk(m.players, player) {
                Some(k) => {
                    lemma_find_wk_some(m.players, player, 0, k);
                    m.players.remove_ensures(k);
                },
                None => {},
            }
        },
        MonitorOp::Seeked { player, position_us } => {
            match spec_find(m.players, player) {
                Some(k) => {
                    lemma_find_some(m.players, player, 0, k);
                },
                None => {},
            }
        },
        MonitorOp::Add { unique, well_known, pname, track, playing, now, wall } => {
            match spec_find(m.players, unique@) {
                Some(_) => {},
                None => {
                    lemma_find_none(m.players, unique@, 0);
                },
            }
        },
    }
}

/// A whole ascending history keeps the bookkeeping.
proof fn lemma_run_preserves_log_inv(
    m: MonitorView,
    log: Seq<PlayRecord>,
    w: int,
    ops: Seq<MonitorOp>,
)
    requires
        spec_log_inv(m, log, w),
        spec_walls_ascending(ops, w),
    ensures
        spec_log_inv(spec_run(m, ops).0, log + spec_run(m, ops).1, spec_walls_bound(ops, w)),
    decreases ops.len(),
{
    if ops.len() == 0 {
        assert(log + spec_run(m, ops).1 =~= log);
    } else {
        let op = ops[0];
        let rest = ops.subrange(1, ops.len() as int);
        lemma_apply_preserves_log_inv(m, log, w, op);
        let m1 = spec_apply(m, op).0;
        let r1 = spec_apply(m, op).1;
        let w1 = match spec_op_wall(op) {
            Some(x) => x,
            None => w,
        };
        lemma_run_preserves_log_inv(m1, log + r1, w1, rest);
        assert((log + r1) + spec_run(m1, rest).1 =~= log + (r1 + spec_run(m1, rest).1));
    }
}

/// Law: across any history of events and admissions from an empty
/// registry, a given (player, episode start timestamp) pair is logged at
/// most once, provided the wall-clock readings at which episodes start are
/// strictly ascending along the history.
///
/// The ascending-clock hypothesis is what the surrounding process's wall
/// clock supplies; no contract over the events alone can force it, since
/// two episodes started within one clock reading would share their
/// identifying pair.
pub proof fn lemma_no_double_log(m0: MonitorView, ops: Seq<MonitorOp>, w0: int)
    requires
        spec_monitor_inv(m0),
        m0.players.len() == 0,
        spec_walls_ascending(ops, w0),
    ensures
        spec_no_double(spec_run(m0, ops).1),
{
    assert(spec_log_inv(m0, Seq::<PlayRecord>::empty(), w0));
    lemma_run_preserves_log_inv(m0, Seq::<PlayRecord>::empty(), w0, ops);
    assert(Seq::<PlayRecord>::empty() + spec_run(m0, ops).1 =~= spec_run(m0, ops).1);
}

/// Law: the records of the final pass at shutdown do not double-log
/// either: against a log produced under the bookkeeping, the combined log
/// still has every (player, episode start) pair at most once.
pub proof fn lemma_finalize_no_double_log(
    m: MonitorView,
    log: Seq<PlayRecord>,
    w: int,
    now: int,
)
    requires
        spec_log_inv(m, log, w),
    ensures
        spec_no_double(log + spec_finalize(m, now)),
{
    lemma_finalize_nd(m, log, w, now, 0);
    assert(spec_no_double(log + spec_finalize_from(m.players, now, m.tracking, 0)));
}

/// Induction for the final pass: processing the registry from position `i`
/// on keeps the log free of doubled pairs.
proof fn lemma_finalize_nd(m: MonitorView, log: Seq<PlayRecord>, w: int, now: int, i: int)
    requires
        0 <= i,
        spec_monitor_inv(m),
        forall|k: int|
            0 <= k < log.len() ==> match (#[trigger] log[k]).state.start_timestamp_ms {
                Some(ts) => ts <= w,
                None => false,
            },
        forall|j: int|
            i <= j < m.players.len() && (#[trigger] m.players[j]).state.is_playing ==> {
                &&& (match m.players[j].state.start_timestamp_ms {
                    Some(ts) => ts <= w,
                    None => false,
                })
                &&& !spec_log_has(log, m.players[j].unique@, m.players[j].state.start_timestamp_ms)
            },
        spec_no_double(log),
    ensures
        spec_no_double(log + spec_finalize_from(m.players, now, m.tracking, i)),
    decreases m.players.len() - i,
{
    let s = m.players;
    let t = m.tracking;
    if i >= s.len() {
        assert(log + spec_finalize_from(s, now, t, i) =~= log);
    } else {
        if spec_qualifies(s[i].state, now, t) {
            let r = spec_record(s[i], now);
            let log1 = log + seq![r];
            assert(forall|k: int| 0 <= k < log.len() ==> log1[k] == log[k]);
            assert(log1[log.len() as int] == r);
            assert forall|j: int|
                i + 1 <= j < s.len() && (#[trigger] s[j]).state.is_playing implies {
                &&& (match s[j].state.start_timestamp_ms {
                    Some(ts) => ts <= w,
                    None => false,
                })
                &&& !spec_log_has(log1, s[j].unique@, s[j].state.start_timestamp_ms)
            } by {
                assert(s[i].unique@ != s[j].unique@);
                if spec_log_has(log1, s[j].unique@, s[j].state.start_timestamp_ms) {
                    let idx = choose|idx: int|
                        0 <= idx < log1.len() && (#[trigger] log1[idx]).player@ == s[j].unique@
                            && log1[idx].state.start_timestamp_ms
                            == s[j].state.start_timestamp_ms;
                    if idx < log.len() {
                        assert(spec_log_has(
                            log,
                            s[j].unique@,
                            s[j].state.start_timestamp_ms,
                        ));
                    } else {
                        assert(log1[idx] == r);
                    }
                }
            }
            lemma_finalize_nd(m, log1, w, now, i + 1);
            assert(log + spec_finalize_from(s, now, t, i) =~= log1 + spec_finalize_from(
                s,
                now,
                t,
                i + 1,
            ));
        } else {
            lemma_finalize_nd(m, log, w, now, i + 1);
        }
    }
}

/// The operation is a track change aimed at the given player.
pub open spec fn spec_is_track_change_for(op: MonitorOp, u: Seq<char>) -> bool {
    match op {
        MonitorOp::TrackChanged { player, .. } => player == u,
        _ => false,
    }
}

/// The seek-count rule for one surviving entry: at least its old count,
/// except at a track change aimed at it, which resets it; a new entry
/// starts at zero.
pub open spec fn spec_seek_count_ok(m: MonitorView, m2: MonitorView, op: MonitorOp, i: int) -> bool {
    match spec_find(m.players, m2.players[i].unique@) {
        Some(j) => m2.players[i].state.seek_count >= m.players[j].state.seek_count || (
        m2.players[i].state.seek_count == 0 && spec_is_track_change_for(op, m2.players[i].unique@)),
        None => m2.players[i].state.seek_count == 0,
    }
}

/// Law: across one step, every surviving player's seek count is at least
/// what it was, except at a track change, which resets it to zero; a newly
/// admitted player starts at zero.
pub proof fn lemma_step_seek_accounting(m: MonitorView, op: MonitorOp)
    requires
        spec_monitor_inv(m),
    ensures
        forall|i: int|
            0 <= i < spec_apply(m, op).0.players.len() ==> #[trigger] spec_seek_count_ok(
                m,
                spec_apply(m, op).0,
                op,
                i,
            ),
{
    let m2 = spec_apply(m, op).0;
    match op {
        MonitorOp::Disappeared { player, now } => {
            match spec_find_wk(m.players, player) {
                Some(k) => {
                    lemma_find_wk_some(m.players, player, 0, k);
                    m.players.remove_ensures(k);
                    assert forall|i: int| 0 <= i < m2.players.len() implies #[trigger] spec_seek_count_ok(m, m2, op, i) by {
                        if i < k {
                            assert(m2.players[i] == m.players[i]);
                            lemma_find_self(m.players, i);
                        } else {
                            assert(m2.players[i] == m.players[i + 1]);
                            lemma_find_self(m.players, i + 1);
                        }
                    }
                },
                None => {
                    assert forall|i: int| 0 <= i < m2.players.len() implies #[trigger] spec_seek_count_ok(m, m2, op, i) by {
                        lemma_find_self(m.players, i);
                    }
                },
            }
        },
        MonitorOp::Add { unique, well_known, pname, track, playing, now, wall } => {
            assert forall|i: int| 0 <= i < m2.players.len() implies #[trigger] spec_seek_count_ok(m, m2, op, i) by {
                if i < m.players.len() {
                    lemma_find_self(m.players, i);
                } else {
                    match spec_find(m.players, unique@) {
                        Some(_) => {
                            lemma_find_self(m.players, i);
                        },
                        None => {},
                    }
                }
            }
        },
        MonitorOp::TrackChanged { player, track, is_local, now, wall } => {
            match spec_find(m.players, player) {
                Some(k) => {
                    lemma_find_some(m.players, player, 0, k);
                },
                None => {},
            }
            assert forall|i: int| 0 <= i < m2.players.len() implies #[trigger] spec_seek_count_ok(m, m2, op, i) by {
                lemma_find_self(m.players, i);
            }
        },
        MonitorOp::Playing { player, now, wall } => {
            match spec_find(m.players, player) {
                Some(k) => {
                    lemma_find_some(m.players, player, 0, k);
                },
                None => {},
            }
            assert forall|i: int| 0 <= i < m2.players.len() implies #[trigger] spec_seek_count_ok(m, m2, op, i) by {
                lemma_find_self(m.players, i);
            }
        },
        MonitorOp::Paused { player, now } => {
            match spec_find(m.players, player) {
                Some(k) => {
                    lemma_find_some(m.players, player, 0, k);
                },
                None => {},
            }
            assert forall|i: int| 0 <= i < m2.players.len() implies #[trigger] spec_seek_count_ok(m, m2, op, i) by {
                lemma_find_self(m.players, i);
            }
        },
        MonitorOp::Seeked { player, position_us } => {
            match spec_find(m.players, player) {
                Some(k) => {
                    lemma_find_some(m.players, player, 0, k);
                },
                None => {},
            }
            assert forall|i: int| 0 <= i < m2.players.len() implies #[trigger] spec_seek_count_ok(m, m2, op, i) by {
                lemma_find_self(m.players, i);
            }
        },
    }
}

} // verus!
