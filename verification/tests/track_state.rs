use music_analytics::{Track, TrackState};

fn make_playing_state(title: &str, duration_us: Option<i64>) -> TrackState {
    let mut state = TrackState::new();
    state.track.title = Some(title.to_string());
    state.track.duration_us = duration_us;
    state.is_playing = true;
    state.start_playing(0, 0);
    state
}

#[test]
fn test_should_log_no_title_returns_false() {
    let mut state = TrackState::new();
    state.start_playing(0, 0);
    assert!(!state.should_log(50, 0, 0));
}

#[test]
fn test_should_log_no_start_time_returns_false() {
    let mut state = TrackState::new();
    state.track.title = Some("Test".to_string());
    assert!(!state.should_log(50, 0, 0));
}

#[test]
fn test_should_log_under_min_seconds() {
    let state = make_playing_state("Test", Some(300_000_000));
    assert!(!state.should_log(0, 30, 500));
}

#[test]
fn test_should_log_unknown_duration_only_needs_min_seconds() {
    let state = make_playing_state("Test", None);
    assert!(state.should_log(35_000, 30, 500));
}

#[test]
fn test_should_log_zero_duration_only_needs_min_seconds() {
    let state = make_playing_state("Test", Some(0));
    assert!(state.should_log(35_000, 30, 500));
}

#[test]
fn test_should_log_negative_duration_only_needs_min_seconds() {
    let state = make_playing_state("Test", Some(-1000));
    assert!(state.should_log(35_000, 30, 500));
}

#[test]
fn test_should_log_50_percent_rule() {
    let state = make_playing_state("Test", Some(60_000_000));
    assert!(state.should_log(35_000, 30, 500));
}

#[test]
fn test_should_log_under_50_percent_under_4_minutes() {
    let state = make_playing_state("Test", Some(600_000_000));
    assert!(!state.should_log(200_000, 30, 500));
    assert!(!state.should_log(239_000, 30, 500));
    assert!(state.should_log(240_000, 30, 500));
}

#[test]
fn test_should_log_4_minute_rule() {
    let state = make_playing_state("Test", Some(3_600_000_000));
    assert!(state.should_log(240_000, 30, 500));
}

#[test]
fn test_on_seeked_tracks_forward_seek() {
    let mut state = TrackState::new();
    state.last_position_us = 10_000_000;
    state.on_seeked(20_000_000);
    assert_eq!(state.seek_count, 1);
    assert_eq!(state.seek_forward_ms, 10_000);
    assert_eq!(state.seek_backward_ms, 0);
}

#[test]
fn test_on_seeked_tracks_backward_seek() {
    let mut state = TrackState::new();
    state.last_position_us = 30_000_000;
    state.on_seeked(10_000_000);
    assert_eq!(state.seek_count, 1);
    assert_eq!(state.seek_forward_ms, 0);
    assert_eq!(state.seek_backward_ms, 20_000);
}

#[test]
fn test_on_seeked_detects_intro_skip() {
    let mut state = TrackState::new();
    state.last_position_us = 2_000_000;
    state.on_seeked(20_000_000);
    assert!(state.intro_skipped);
}

#[test]
fn test_on_seeked_no_intro_skip_from_later_position() {
    let mut state = TrackState::new();
    state.last_position_us = 10_000_000;
    state.on_seeked(30_000_000);
    assert!(!state.intro_skipped);
}

#[test]
fn test_is_local_source_known_player() {
    let track = Track::default();
    let local_players = vec!["mpv".to_string(), "cmus".to_string()];
    assert!(track.is_local_source(&local_players, Some("mpv")));
    assert!(track.is_local_source(&local_players, Some("org.mpris.MediaPlayer2.cmus")));
    assert!(!track.is_local_source(&local_players, Some("spotify")));
}

#[test]
fn test_is_local_source_file_url() {
    let mut track = Track::default();
    track.file_path = Some("file:///home/user/music/song.mp3".to_string());
    assert!(track.is_local_source(&Vec::new(), None));
}

#[test]
fn test_is_local_source_absolute_path() {
    let mut track = Track::default();
    track.file_path = Some("/home/user/music/song.mp3".to_string());
    assert!(track.is_local_source(&Vec::new(), None));
}

#[test]
fn test_is_local_source_streaming_urls() {
    let local_players: Vec<String> = Vec::new();
    for url in &[
        "http://stream.example.com/song",
        "https://stream.example.com/song",
        "spotify:track:abc123",
        "deezer:track:123",
        "tidal:track:123",
    ] {
        let mut track = Track::default();
        track.file_path = Some(url.to_string());
        assert!(!track.is_local_source(&local_players, None), "URL {} should not be local", url);
    }
}

#[test]
fn test_effective_volume() {
    let mut state = TrackState::new();

    state.app_volume_milli = Some(800);
    state.system_volume_milli = Some(500);
    assert_eq!(state.effective_volume(), Some(400));

    state.system_volume_milli = None;
    assert_eq!(state.effective_volume(), Some(800));

    state.app_volume_milli = None;
    state.system_volume_milli = Some(700);
    assert_eq!(state.effective_volume(), Some(700));

    state.system_volume_milli = None;
    assert_eq!(state.effective_volume(), None);
}

#[test]
fn seek_twice_to_same_position_adds_two_and_nothing_else() {
    let mut state = TrackState::new();
    state.on_seeked(9_000_000);
    let fwd = state.seek_forward_ms;
    let back = state.seek_backward_ms;
    state.on_seeked(9_000_000);
    assert_eq!(state.seek_count, 2);
    assert_eq!(state.seek_forward_ms, fwd);
    assert_eq!(state.seek_backward_ms, back);
    assert_eq!(state.last_position_us, 9_000_000);
}

#[test]
fn played_ms_is_zero_without_start_and_never_negative() {
    let state = TrackState::new();
    assert_eq!(state.played_ms(1_000_000), 0);
    let mut started = TrackState::new();
    started.start_playing(5_000, 5_000);
    assert_eq!(started.played_ms(4_000), 0);
    assert_eq!(started.played_ms(9_000), 4_000);
}
