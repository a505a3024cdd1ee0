//! Track metadata and per-player playback state.
//!
//! A [`Track`] is an immutable snapshot of what a player says it is playing.
//! A [`TrackState`] is the episode in progress for one player: the current
//! track, the running clock, and the seek accounting.  Clock readings enter
//! as plain millisecond values so that every transition is an exact function
//! of its arguments.
//!
//! Fractional quantities that the bus delivers as floating point (the user
//! rating, volumes) are carried in thousandths, so that the accounting stays
//! in integers.

use vstd::prelude::*;

use crate::strutil::spec_contains;
use crate::strutil::spec_starts_with;
use crate::strutil::contains_str;
use crate::strutil::starts_with_str;
use crate::strutil::strip_prefix_or_self;

verus! {

/// Position threshold in microseconds under which a seek still starts "near
/// the beginning" of a track.
pub const INTRO_START_THRESHOLD_US: i64 = 5000000;

/// Position threshold in microseconds beyond which a seek has "skipped the
/// intro".
pub const INTRO_SKIP_THRESHOLD_US: i64 = 15000000;

/// The bus-name prefix that all tracked players share.
pub const MPRIS_PREFIX: &'static str = "org.mpris.MediaPlayer2.";

/// Complete track metadata as published by a player.
#[derive(Debug)]
pub struct Track {
    pub title: Option<String>,
    pub artist: Option<String>,
    pub album: Option<String>,
    pub duration_us: Option<i64>,
    pub file_path: Option<String>,
    pub genre: Option<String>,
    pub album_artist: Option<String>,
    pub track_number: Option<i32>,
    pub disc_number: Option<i32>,
    pub release_date: Option<String>,
    pub art_url: Option<String>,
    /// User rating in thousandths of the 0..1 scale.
    pub user_rating_milli: Option<i64>,
    pub bpm: Option<i32>,
    pub composer: Option<String>,
    pub musicbrainz_track_id: Option<String>,
}

/// The specification-level image of a [`Track`]: each text field as its
/// character sequence.
pub struct TrackView {
    pub title: Option<Seq<char>>,
    pub artist: Option<Seq<char>>,
    pub album: Option<Seq<char>>,
    pub duration_us: Option<i64>,
    pub file_path: Option<Seq<char>>,
    pub genre: Option<Seq<char>>,
    pub album_artist: Option<Seq<char>>,
    pub track_number: Option<i32>,
    pub disc_number: Option<i32>,
    pub release_date: Option<Seq<char>>,
    pub art_url: Option<Seq<char>>,
    pub user_rating_milli: Option<i64>,
    pub bpm: Option<i32>,
    pub composer: Option<Seq<char>>,
    pub musicbrainz_track_id: Option<Seq<char>>,
}

/// The view of an optional string: its characters, where it is there.
pub open spec fn spec_opt_str_view(s: Option<String>) -> Option<Seq<char>> {
    match s {
        Some(x) => Some(x@),
        None => None,
    }
}

impl View for Track {
    type V = TrackView;

    open spec fn view(&self) -> TrackView {
        TrackView {
            title: spec_opt_str_view(self.title),
            artist: spec_opt_str_view(self.artist),
            album: spec_opt_str_view(self.album),
            duration_us: self.duration_us,
            file_path: spec_opt_str_view(self.file_path),
            genre: spec_opt_str_view(self.genre),
            album_artist: spec_opt_str_view(self.album_artist),
            track_number: self.track_number,
            disc_number: self.disc_number,
            release_date: spec_opt_str_view(self.release_date),
            art_url: spec_opt_str_view(self.art_url),
            user_rating_milli: self.user_rating_milli,
            bpm: self.bpm,
            composer: spec_opt_str_view(self.composer),
            musicbrainz_track_id: spec_opt_str_view(self.musicbrainz_track_id),
        }
    }
}

/// The view of the empty track.
pub open spec fn spec_empty_track_view() -> TrackView {
    TrackView {
        title: None,
        artist: None,
        album: None,
        duration_us: None,
        file_path: None,
        genre: None,
        album_artist: None,
        track_number: None,
        disc_number: None,
        release_date: None,
        art_url: None,
        user_rating_milli: None,
        bpm: None,
        composer: None,
        musicbrainz_track_id: None,
    }
}

/// A track with every field absent.
pub open spec fn spec_empty_track() -> Track {
    Track {
        title: None,
        artist: None,
        album: None,
        duration_us: None,
        file_path: None,
        genre: None,
        album_artist: None,
        track_number: None,
        disc_number: None,
        release_date: None,
        art_url: None,
        user_rating_milli: None,
        bpm: None,
        composer: None,
        musicbrainz_track_id: None,
    }
}

/// Copy an optional string.
fn clone_opt_string(s: &Option<String>) -> (r: Option<String>)
    ensures
        r == *s,
{
    match s {
        Some(x) => Some(x.clone()),
        None => None,
    }
}

impl Clone for Track {
    /// An exact copy, field for field.
    fn clone(&self) -> (r: Self)
        ensures
            r == *self,
    {
        Track {
            title: clone_opt_string(&self.title),
            artist: clone_opt_string(&self.artist),
            album: clone_opt_string(&self.album),
            duration_us: self.duration_us,
            file_path: clone_opt_string(&self.file_path),
            genre: clone_opt_string(&self.genre),
            album_artist: clone_opt_string(&self.album_artist),
            track_number: self.track_number,
            disc_number: self.disc_number,
            release_date: clone_opt_string(&self.release_date),
            art_url: clone_opt_string(&self.art_url),
            user_rating_milli: self.user_rating_milli,
            bpm: self.bpm,
            composer: clone_opt_string(&self.composer),
            musicbrainz_track_id: clone_opt_string(&self.musicbrainz_track_id),
        }
    }
}

impl Default for Track {
    /// The empty track: every field absent.
    fn default() -> (r: Track)
        ensures
            r == spec_empty_track(),
    {
        Track {
            title: None,
            artist: None,
            album: None,
            duration_us: None,
            file_path: None,
            genre: None,
            album_artist: None,
            track_number: None,
            disc_number: None,
            release_date: None,
            art_url: None,
            user_rating_milli: None,
            bpm: None,
            composer: None,
            musicbrainz_track_id: None,
        }
    }
}

/// The player half of the local-source rule: the player's well-known name,
/// with the shared prefix removed, contains one of the configured
/// local-only player names.
pub open spec fn spec_player_id(player: Seq<char>) -> Seq<char> {
    if spec_starts_with(player, MPRIS_PREFIX@) {
        player.subrange(MPRIS_PREFIX@.len() as int, player.len() as int)
    } else {
        player
    }
}

/// Some configured name occurs in the given player id.
pub open spec fn spec_player_match(local_players: Seq<Seq<char>>, player_id: Seq<char>) -> bool {
    exists|i: int| 0 <= i < local_players.len() && spec_contains(player_id, #[trigger] local_players[i])
}

pub open spec fn spec_player_is_local(local_players: Seq<Seq<char>>, player: Seq<char>) -> bool {
    spec_player_match(local_players, spec_player_id(player))
}

/// Whether any configured name occurs in the given player id.
pub fn any_name_matches(list: &Vec<String>, player_id: &str) -> (r: bool)
    ensures
        r == spec_player_match(list.deep_view(), player_id@),
{
    let ghost lp = list.deep_view();
    proof {
        assert(lp.len() == list@.len());
    }
    let n = list.len();
    let mut i: usize = 0;
    while i < n
        invariant
            0 <= i <= n,
            n == list.len(),
            lp == list.deep_view(),
            lp.len() == list@.len(),
            forall|j: int| 0 <= j < i ==> !spec_contains(player_id@, #[trigger] lp[j]),
        decreases n - i,
    {
        if contains_str(player_id, list[i].as_str()) {
            proof {
                assert(lp[i as int] == list@[i as int]@);
                assert(spec_contains(player_id@, lp[i as int]));
            }
            return true;
        }
        proof {
            assert(lp[i as int] == list@[i as int]@);
        }
        i = i + 1;
    }
    false
}

/// The location half of the local-source rule: the track's location is a
/// `file://` URL or an absolute path.  A remote scheme, any other scheme and
/// a missing location all count as non-local.
pub open spec fn spec_url_is_local(track: Track) -> bool {
    match track.file_path {
        Some(p) => spec_starts_with(p@, "file://"@) || spec_starts_with(p@, "/"@),
        None => false,
    }
}

/// Whether a track counts as a local source for the given player: either
/// the player is configured as local-only, or the track's location is local.
pub open spec fn spec_is_local_source(
    track: Track,
    local_players: Seq<Seq<char>>,
    player: Option<Seq<char>>,
) -> bool {
    match player {
        Some(name) => spec_player_is_local(local_players, name) || spec_url_is_local(track),
        None => spec_url_is_local(track),
    }
}

impl Track {
    /// Classify this track as local or not, from the track's location and
    /// the player's name alone.
    pub fn is_local_source(&self, local_players: &Vec<String>, player_name: Option<&str>) -> (r:
        bool)
        ensures
            r == spec_is_local_source(
                *self,
                local_players.deep_view(),
                match player_name {
                    Some(n) => Some(n@),
                    None => None,
                },
            ),
    {
        if let Some(name) = player_name {
            let player_id = strip_prefix_or_self(name, MPRIS_PREFIX);
            let ghost id_view = spec_player_id(name@);
            let ghost lp = local_players.deep_view();
            proof {
                assert(lp.len() == local_players@.len());
            }
            let n = local_players.len();
            let mut i: usize = 0;
            while i < n
                invariant
                    0 <= i <= n,
                    n == local_players.len(),
                    player_id@ == id_view,
                    id_view == spec_player_id(name@),
                    player_name == Some(name),
                    lp == local_players.deep_view(),
                    lp.len() == local_players@.len(),
                    forall|j: int| 0 <= j < i ==> !spec_contains(id_view, #[trigger] lp[j]),
                decreases n - i,
            {
                if contains_str(player_id, local_players[i].as_str()) {
                    proof {
                        assert(lp[i as int] == local_players@[i as int]@);
                        assert(spec_contains(id_view, lp[i as int]));
                        assert(spec_player_match(lp, id_view));
                        assert(spec_player_is_local(lp, name@));
                        assert(player_name == Some(name));
                        assert(spec_is_local_source(*self, lp, Some(name@)));
                    }
                    return true;
                }
                proof {
                    assert(lp[i as int] == local_players@[i as int]@);
                }
                i = i + 1;
            }
            proof {
                assert(!spec_player_match(lp, id_view));
            }
        }
        if let Some(path) = &self.file_path {
            if starts_with_str(path.as_str(), "file://") || starts_with_str(path.as_str(), "/") {
                return true;
            }
        }
        false
    }
}

/// The episode in progress for one player.
#[derive(Debug)]
pub struct TrackState {
    /// Current track metadata.
    pub track: Track,
    /// Monotonic clock reading, in milliseconds, at which the current
    /// playing episode began; absent while no episode has begun.
    pub start_time_ms: Option<i64>,
    /// Wall-clock reading, in milliseconds, at which the episode began;
    /// recorded for the sink.
    pub start_timestamp_ms: Option<i64>,
    /// Whether the player is currently playing.
    pub is_playing: bool,
    /// Cached local-source classification for the current track.
    pub is_local: bool,
    /// Player name: the well-known bus name without the shared prefix.
    pub player_name: Option<String>,
    /// Number of seeks within the current track.
    pub seek_count: u32,
    /// Whether a seek jumped from near the start past the intro.
    pub intro_skipped: bool,
    /// Total distance seeked forward, in milliseconds.
    pub seek_forward_ms: i64,
    /// Total distance seeked backward, in milliseconds.
    pub seek_backward_ms: i64,
    /// Last playback position reported by a seek, in microseconds.
    pub last_position_us: i64,
    /// Player-side volume in thousandths, where known.
    pub app_volume_milli: Option<i64>,
    /// System-side volume in thousandths, where known.
    pub system_volume_milli: Option<i64>,
}

/// A fresh state: empty track, clock cleared, all counters zero.
pub open spec fn spec_new_state() -> TrackState {
    TrackState {
        track: spec_empty_track(),
        start_time_ms: None,
        start_timestamp_ms: None,
        is_playing: false,
        is_local: false,
        player_name: None,
        seek_count: 0,
        intro_skipped: false,
        seek_forward_ms: 0,
        seek_backward_ms: 0,
        last_position_us: 0,
        app_volume_milli: None,
        system_volume_milli: None,
    }
}

/// Wall-clock play time of the current episode, in milliseconds: the
/// distance from the episode's start to `now`, zero while no episode has
/// begun, and never negative.  A distance beyond the millisecond range
/// saturates.
pub open spec fn spec_played_ms(st: TrackState, now_ms: int) -> int {
    match st.start_time_ms {
        None => 0,
        Some(start) => {
            if now_ms <= start {
                0
            } else if now_ms - start > i64::MAX {
                i64::MAX as int
            } else {
                now_ms - start
            }
        },
    }
}

/// The qualification rule: an episode counts as a play when the track has a
/// title, an episode actually began, at least `min_seconds` of wall-clock
/// time played, and one of: the duration is unknown or non-positive, the
/// played fraction reaches `min_permille` thousandths of the duration, or
/// at least four minutes played.
pub open spec fn spec_should_log(
    st: TrackState,
    now_ms: int,
    min_seconds: u64,
    min_permille: u32,
) -> bool {
    let played = spec_played_ms(st, now_ms);
    &&& st.track.title is Some
    &&& st.start_time_ms is Some
    &&& played / 1000 >= min_seconds
    &&& match st.track.duration_us {
        None => true,
        Some(d) => d <= 0 || played * 1000000 >= d * min_permille || played / 1000 >= 240,
    }
}

/// The state after a seek to `pos`: one more seek, the distance added to
/// the forward or backward total, the intro-skip flag raised where the jump
/// crossed from before [`INTRO_START_THRESHOLD_US`] to past
/// [`INTRO_SKIP_THRESHOLD_US`], and the position remembered.
pub open spec fn spec_on_seeked(st: TrackState, pos: int) -> TrackState {
    let delta_us = pos - st.last_position_us;
    let delta_ms = crate::types::spec_trunc_div_1000(delta_us);
    TrackState {
        seek_count: (st.seek_count + 1) as u32,
        seek_forward_ms: if delta_us > 0 {
            (st.seek_forward_ms + delta_ms) as i64
        } else {
            st.seek_forward_ms
        },
        seek_backward_ms: if delta_us > 0 {
            st.seek_backward_ms
        } else {
            (st.seek_backward_ms - delta_ms) as i64
        },
        intro_skipped: st.intro_skipped || (st.last_position_us < INTRO_START_THRESHOLD_US && pos
            > INTRO_SKIP_THRESHOLD_US),
        last_position_us: pos as i64,
        ..st
    }
}

/// The machine can account for a seek to `pos`: the counter and the
/// accumulated distances stay within their integer ranges.
pub open spec fn spec_can_seek(st: TrackState, pos: int) -> bool {
    let delta_us = pos - st.last_position_us;
    let delta_ms = crate::types::spec_trunc_div_1000(delta_us);
    &&& st.seek_count < u32::MAX
    &&& i64::MIN <= delta_us <= i64::MAX
    &&& st.seek_forward_ms + delta_ms <= i64::MAX
    &&& st.seek_backward_ms - delta_ms <= i64::MAX
}

/// The state after playback starts: the playing flag raised and both clocks
/// recorded.
pub open spec fn spec_start_playing(st: TrackState, now_ms: int, wall_ms: int) -> TrackState {
    TrackState {
        is_playing: true,
        start_time_ms: Some(now_ms as i64),
        start_timestamp_ms: Some(wall_ms as i64),
        ..st
    }
}

/// The state after a track change: the new track and its classification
/// installed, the seek accounting reset, and, where the player was playing,
/// a fresh episode started on the spot.
pub open spec fn spec_track_change(
    st: TrackState,
    track: Track,
    is_local: bool,
    now_ms: int,
    wall_ms: int,
) -> TrackState {
    let base = TrackState {
        track: track,
        is_local: is_local,
        seek_count: 0,
        intro_skipped: false,
        seek_forward_ms: 0,
        seek_backward_ms: 0,
        last_position_us: 0,
        ..st
    };
    if st.is_playing {
        spec_start_playing(base, now_ms, wall_ms)
    } else {
        base
    }
}

/// The effective volume in thousandths: the product of the two samples
/// where both are known, whichever is known where only one is, absent where
/// neither is.  A product outside the integer range saturates.
pub open spec fn spec_effective_volume(st: TrackState) -> Option<i64> {
    match (st.app_volume_milli, st.system_volume_milli) {
        (Some(a), Some(s)) => {
            let p = crate::types::spec_trunc_div_1000(a * s);
            if p > i64::MAX {
                Some(i64::MAX)
            } else if p < i64::MIN {
                Some(i64::MIN)
            } else {
                Some(p as i64)
            }
        },
        (Some(v), None) => Some(v),
        (None, Some(v)) => Some(v),
        (None, None) => None,
    }
}

impl Clone for TrackState {
    /// An exact copy, field for field.
    fn clone(&self) -> (r: Self)
        ensures
            r == *self,
    {
        TrackState {
            track: self.track.clone(),
            start_time_ms: self.start_time_ms,
            start_timestamp_ms: self.start_timestamp_ms,
            is_playing: self.is_playing,
            is_local: self.is_local,
            player_name: clone_opt_string(&self.player_name),
            seek_count: self.seek_count,
            intro_skipped: self.intro_skipped,
            seek_forward_ms: self.seek_forward_ms,
            seek_backward_ms: self.seek_backward_ms,
            last_position_us: self.last_position_us,
            app_volume_milli: self.app_volume_milli,
            system_volume_milli: self.system_volume_milli,
        }
    }
}

impl Default for TrackState {
    /// A fresh state, as [`TrackState::new`] builds it.
    fn default() -> (r: TrackState)
        ensures
            r == spec_new_state(),
    {
        TrackState::new()
    }
}

impl TrackState {
    /// Create a new empty track state.
    pub fn new() -> (r: Self)
        ensures
            r == spec_new_state(),
    {
        TrackState {
            track: Track::default(),
            start_time_ms: None,
            start_timestamp_ms: None,
            is_playing: false,
            is_local: false,
            player_name: None,
            seek_count: 0,
            intro_skipped: false,
            seek_forward_ms: 0,
            seek_backward_ms: 0,
            last_position_us: 0,
            app_volume_milli: None,
            system_volume_milli: None,
        }
    }

    /// Wall-clock play time of the current episode, in milliseconds.
    pub fn played_ms(&self, now_ms: i64) -> (r: i64)
        ensures
            r == spec_played_ms(*self, now_ms as int),
            r >= 0,
    {
        match self.start_time_ms {
            None => 0,
            Some(start) => {
                if now_ms <= start {
                    0
                } else {
                    match now_ms.checked_sub(start) {
                        Some(d) => d,
                        None => i64::MAX,
                    }
                }
            },
        }
    }

    /// Whether the current episode qualifies for logging under the given
    /// thresholds, judged at clock reading `now_ms`.
    ///
    /// `min_permille` is the minimum played fraction in thousandths.
    pub fn should_log(&self, now_ms: i64, min_seconds: u64, min_permille: u32) -> (r: bool)
        ensures
            r == spec_should_log(*self, now_ms as int, min_seconds, min_permille),
    {
        if self.track.title.is_none() || self.start_time_ms.is_none() {
            return false;
        }
        let played = self.played_ms(now_ms);
        let played_seconds = (played / 1000) as u64;
        if played_seconds < min_seconds {
            return false;
        }
        let duration_us = match self.track.duration_us {
            None => {
                return true;
            },
            Some(d) => d,
        };
        if duration_us <= 0 {
            return true;
        }
        proof {
            assert((duration_us as int) * (min_permille as int) <= (i64::MAX as int) * (u32::MAX
                as int)) by (nonlinear_arith)
                requires
                    0 < duration_us <= i64::MAX,
                    0 <= min_permille <= u32::MAX,
            ;
            assert((duration_us as int) * (min_permille as int) >= 0) by (nonlinear_arith)
                requires
                    0 < duration_us,
                    0 <= min_permille,
            ;
        }
        (played as i128) * 1000000 >= (duration_us as i128) * (min_permille as i128)
            || played_seconds >= 240
    }

    /// Whether the machine can account for a seek to the given position:
    /// the counter and the accumulated distances stay within range.
    pub fn can_apply_seek(&self, new_position_us: i64) -> (r: bool)
        ensures
            r == spec_can_seek(*self, new_position_us as int),
    {
        if self.seek_count >= u32::MAX {
            return false;
        }
        let delta: i128 = (new_position_us as i128) - (self.last_position_us as i128);
        if delta < i64::MIN as i128 || delta > i64::MAX as i128 {
            return false;
        }
        let delta_ms = crate::types::div1000_trunc(delta as i64);
        if !((self.seek_forward_ms as i128) + (delta_ms as i128) <= i64::MAX as i128) {
            return false;
        }
        if !((self.seek_backward_ms as i128) - (delta_ms as i128) <= i64::MAX as i128) {
            return false;
        }
        true
    }

    /// Account for a seek to position `new_position_us`.
    pub fn on_seeked(&mut self, new_position_us: i64)
        requires
            spec_can_seek(*old(self), new_position_us as int),
        ensures
            *final(self) == spec_on_seeked(*old(self), new_position_us as int),
    {
        self.seek_count = self.seek_count + 1;
        let delta_us = new_position_us - self.last_position_us;
        let delta_ms = if delta_us >= 0 {
            ((delta_us as u64) / 1000) as i64
        } else {
            let m: u64 = ((-(delta_us + 1)) as u64) + 1;
            -((m / 1000) as i64)
        };
        if delta_us > 0 {
            self.seek_forward_ms = self.seek_forward_ms + delta_ms;
        } else {
            self.seek_backward_ms = self.seek_backward_ms - delta_ms;
        }
        if self.last_position_us < INTRO_START_THRESHOLD_US && new_position_us
            > INTRO_SKIP_THRESHOLD_US {
            self.intro_skipped = true;
        }
        self.last_position_us = new_position_us;
    }

    /// Start a playing episode at the given clock readings.
    pub fn start_playing(&mut self, now_ms: i64, wall_ms: i64)
        ensures
            *final(self) == spec_start_playing(*old(self), now_ms as int, wall_ms as int),
    {
        self.is_playing = true;
        self.start_time_ms = Some(now_ms);
        self.start_timestamp_ms = Some(wall_ms);
    }

    /// Stop the playing episode; the clocks keep their readings.
    pub fn stop_playing(&mut self)
        ensures
            *final(self) == (TrackState { is_playing: false, ..*old(self) }),
    {
        self.is_playing = false;
    }

    /// Install a new track, reset the seek accounting, and restart the
    /// episode clock where the player was playing.
    pub fn apply_track_change(&mut self, track: Track, is_local: bool, now_ms: i64, wall_ms: i64)
        ensures
            *final(self) == spec_track_change(
                *old(self),
                track,
                is_local,
                now_ms as int,
                wall_ms as int,
            ),
    {
        self.track = track;
        self.is_local = is_local;
        self.seek_count = 0;
        self.intro_skipped = false;
        self.seek_forward_ms = 0;
        self.seek_backward_ms = 0;
        self.last_position_us = 0;
        if self.is_playing {
            self.start_playing(now_ms, wall_ms);
        }
    }

    /// The effective volume in thousandths.
    pub fn effective_volume(&self) -> (r: Option<i64>)
        ensures
            r == spec_effective_volume(*self),
    {
        match (self.app_volume_milli, self.system_volume_milli) {
            (Some(a), Some(s)) => {
                proof {
                    assert(-(0x40000000000000000000000000000000int) <= (a as int) * (s as int)
                        <= 0x40000000000000000000000000000000int) by (nonlinear_arith)
                        requires
                            i64::MIN <= a <= i64::MAX,
                            i64::MIN <= s <= i64::MAX,
                    ;
                }
                let prod: i128 = (a as i128) * (s as i128);
                let q: i128 = if prod >= 0 {
                    (((prod as u128) / 1000) as i128)
                } else {
                    let m: u128 = ((-(prod + 1)) as u128) + 1;
                    let d: u128 = m / 1000;
                    -(d as i128)
                };
                if q > i64::MAX as i128 {
                    Some(i64::MAX)
                } else if q < i64::MIN as i128 {
                    Some(i64::MIN)
                } else {
                    Some(q as i64)
                }
            },
            (Some(v), None) => Some(v),
            (None, Some(v)) => Some(v),
            (None, None) => None,
        }
    }
}

/// One operation on a per-player state, for reasoning about whole
/// histories of a player.
pub enum TrackOp {
    /// A seek to the given position in microseconds.
    Seeked(i64),
    /// Playback paused or stopped.
    Stopped,
    /// A track change, with the new track, its classification and the two
    /// clock readings.
    Changed(Track, bool, i64, i64),
    /// Playback started at the two clock readings.
    Started(i64, i64),
}

/// The state after one operation.
pub open spec fn spec_apply_op(st: TrackState, op: TrackOp) -> TrackState {
    match op {
        TrackOp::Seeked(p) => spec_on_seeked(st, p as int),
        TrackOp::Stopped => TrackState { is_playing: false, ..st },
        TrackOp::Changed(t, l, now, wall) => spec_track_change(st, t, l, now as int, wall as int),
        TrackOp::Started(now, wall) => spec_start_playing(st, now as int, wall as int),
    }
}

/// The state after a whole history of operations, applied in order.
pub open spec fn spec_apply_ops(st: TrackState, ops: Seq<TrackOp>) -> TrackState
    decreases ops.len(),
{
    if ops.len() == 0 {
        st
    } else {
        spec_apply_ops(spec_apply_op(st, ops[0]), ops.subrange(1, ops.len() as int))
    }
}

/// A history with no start keeps a never-started state never-started.
proof fn lemma_no_start_keeps_clock_clear(st: TrackState, ops: Seq<TrackOp>)
    requires
        !st.is_playing,
        st.start_time_ms is None,
        forall|i: int| 0 <= i < ops.len() ==> !(#[trigger] ops[i] is Started),
    ensures
        !spec_apply_ops(st, ops).is_playing,
        spec_apply_ops(st, ops).start_time_ms is None,
    decreases ops.len(),
{
    if ops.len() > 0 {
        let st1 = spec_apply_op(st, ops[0]);
        assert(!st1.is_playing && st1.start_time_ms is None);
        lemma_no_start_keeps_clock_clear(st1, ops.subrange(1, ops.len() as int));
    }
}

/// Law: play time is never negative, and is exactly zero for a player whose
/// playback was never started, whatever else happened to it.
pub proof fn lemma_play_time_zero_without_start(ops: Seq<TrackOp>, now_ms: int)
    requires
        forall|i: int| 0 <= i < ops.len() ==> !(#[trigger] ops[i] is Started),
    ensures
        spec_played_ms(spec_apply_ops(spec_new_state(), ops), now_ms) == 0,
        forall|st: TrackState, t: int| #[trigger] spec_played_ms(st, t) >= 0,
{
    lemma_no_start_keeps_clock_clear(spec_new_state(), ops);
}

/// Law: a track change resets the seek count to zero, and every other
/// operation leaves it the same or higher.
pub proof fn lemma_seek_count_monotone(st: TrackState, op: TrackOp)
    requires
        match op {
            TrackOp::Seeked(p) => spec_can_seek(st, p as int),
            _ => true,
        },
    ensures
        op is Changed ==> spec_apply_op(st, op).seek_count == 0,
        !(op is Changed) ==> spec_apply_op(st, op).seek_count >= st.seek_count,
{
}

/// Law: two consecutive seeks to one position add two to the seek count and
/// give no net displacement: the second seek adds nothing to either
/// accumulated distance, and the position rests where both seeks aimed.
pub proof fn lemma_seek_twice_same_position(st: TrackState, pos_us: i64)
    requires
        spec_can_seek(st, pos_us as int),
        spec_can_seek(spec_on_seeked(st, pos_us as int), pos_us as int),
    ensures
        spec_on_seeked(spec_on_seeked(st, pos_us as int), pos_us as int).seek_count
            == st.seek_count + 2,
        spec_on_seeked(spec_on_seeked(st, pos_us as int), pos_us as int).seek_forward_ms
            == spec_on_seeked(st, pos_us as int).seek_forward_ms,
        spec_on_seeked(spec_on_seeked(st, pos_us as int), pos_us as int).seek_backward_ms
            == spec_on_seeked(st, pos_us as int).seek_backward_ms,
        spec_on_seeked(spec_on_seeked(st, pos_us as int), pos_us as int).last_position_us
            == pos_us,
{
    let s1 = spec_on_seeked(st, pos_us as int);
    assert(s1.last_position_us == pos_us);
    assert(crate::types::spec_trunc_div_1000(0) == 0);
}

/// Law: for a state that has not yet skipped its intro, a seek raises the
/// intro-skipped flag exactly when it crosses from before the start
/// threshold to past the skip threshold.
pub proof fn lemma_intro_skip_iff(st: TrackState, pos_us: i64)
    requires
        !st.intro_skipped,
    ensures
        spec_on_seeked(st, pos_us as int).intro_skipped <==> (st.last_position_us
            < INTRO_START_THRESHOLD_US && pos_us > INTRO_SKIP_THRESHOLD_US),
{
}

/// Law: an episode shorter than the minimum never qualifies, whatever the
/// played fraction.
pub proof fn lemma_under_minimum_never_qualifies(
    st: TrackState,
    now_ms: int,
    min_seconds: u64,
    min_permille: u32,
)
    requires
        spec_played_ms(st, now_ms) / 1000 < min_seconds,
    ensures
        !spec_should_log(st, now_ms, min_seconds, min_permille),
{
}

/// Law: where the duration is unknown or non-positive, reaching the minimum
/// play time alone qualifies.
pub proof fn lemma_unknown_duration_qualifies(
    st: TrackState,
    now_ms: int,
    min_seconds: u64,
    min_permille: u32,
)
    requires
        st.track.title is Some,
        st.start_time_ms is Some,
        spec_played_ms(st, now_ms) / 1000 >= min_seconds,
        match st.track.duration_us {
            None => true,
            Some(d) => d <= 0,
        },
    ensures
        spec_should_log(st, now_ms, min_seconds, min_permille),
{
}

/// Law: past the minimum play time, reaching the configured fraction of the
/// duration or playing at least four minutes qualifies.
pub proof fn lemma_fraction_or_four_minutes_qualifies(
    st: TrackState,
    now_ms: int,
    min_seconds: u64,
    min_permille: u32,
)
    requires
        st.track.title is Some,
        st.start_time_ms is Some,
        spec_played_ms(st, now_ms) / 1000 >= min_seconds,
        match st.track.duration_us {
            None => true,
            Some(d) => spec_played_ms(st, now_ms) * 1000000 >= d * min_permille || spec_played_ms(
                st,
                now_ms,
            ) / 1000 >= 240,
        },
    ensures
        spec_should_log(st, now_ms, min_seconds, min_permille),
{
}

} // verus!
