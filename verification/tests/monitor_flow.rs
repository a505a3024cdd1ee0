use music_analytics::context::{
    battery_discharging_from_status, battery_state_from_upower, screen_on_from_screensaver,
    screen_on_from_xset, window_title_from_output,
};
use music_analytics::monitor::{
    classify_name_owner_changed, classify_playback_status, track_changed_event,
};
use music_analytics::{
    Config, ConfigError, MetaValue, MprisEvent, MprisMonitor, PlayerConfig, Track, TrackingConfig,
};

fn test_monitor() -> MprisMonitor {
    MprisMonitor::new(TrackingConfig::default(), PlayerConfig::default())
}

fn add_amberol(monitor: &mut MprisMonitor) {
    monitor.add_player(
        ":1.10".to_string(),
        "org.mpris.MediaPlayer2.io.bassi.Amberol".to_string(),
        None,
        false,
        0,
        0,
    );
}

fn track(title: &str, duration_us: Option<i64>) -> Track {
    let mut t = Track::default();
    t.title = Some(title.to_string());
    t.artist = Some("X".to_string());
    t.duration_us = duration_us;
    t
}

#[test]
fn classic_full_play_logs_once() {
    let mut m = test_monitor();
    add_amberol(&mut m);
    let ev = MprisEvent::TrackChanged {
        player: ":1.10".to_string(),
        track: track("A", Some(180_000_000)),
        is_local: true,
    };
    let (recs, _) = m.handle_event(&ev, 0, 1_000);
    assert!(recs.is_empty());
    let (recs, _) = m.handle_event(&MprisEvent::Playing { player: ":1.10".to_string() }, 0, 1_000);
    assert!(recs.is_empty());
    let (recs, _) = m.handle_event(
        &MprisEvent::Paused { player: ":1.10".to_string() },
        120_000,
        121_000,
    );
    assert_eq!(recs.len(), 1);
    assert_eq!(recs[0].state.track.title.as_deref(), Some("A"));
    assert_eq!(recs[0].played_ms, 120_000);
    assert!(recs[0].state.is_local);
}

#[test]
fn short_play_is_skipped() {
    let mut m = test_monitor();
    add_amberol(&mut m);
    m.handle_event(
        &MprisEvent::TrackChanged {
            player: ":1.10".to_string(),
            track: track("A", Some(180_000_000)),
            is_local: true,
        },
        0,
        1_000,
    );
    m.handle_event(&MprisEvent::Playing { player: ":1.10".to_string() }, 0, 1_000);
    let (recs, _) = m.handle_event(
        &MprisEvent::Paused { player: ":1.10".to_string() },
        10_000,
        11_000,
    );
    assert!(recs.is_empty());
}

#[test]
fn four_minute_rule_logs_long_track() {
    let mut m = test_monitor();
    add_amberol(&mut m);
    m.handle_event(
        &MprisEvent::TrackChanged {
            player: ":1.10".to_string(),
            track: track("A", Some(3_600_000_000)),
            is_local: true,
        },
        0,
        1_000,
    );
    m.handle_event(&MprisEvent::Playing { player: ":1.10".to_string() }, 0, 1_000);
    let (recs, _) = m.handle_event(
        &MprisEvent::Paused { player: ":1.10".to_string() },
        241_000,
        242_000,
    );
    assert_eq!(recs.len(), 1);
}

#[test]
fn seamless_track_change_logs_both() {
    let mut m = test_monitor();
    add_amberol(&mut m);
    m.handle_event(
        &MprisEvent::TrackChanged {
            player: ":1.10".to_string(),
            track: track("A", Some(90_000_000)),
            is_local: true,
        },
        0,
        1_000,
    );
    m.handle_event(&MprisEvent::Playing { player: ":1.10".to_string() }, 0, 1_000);
    let (recs, _) = m.handle_event(
        &MprisEvent::TrackChanged {
            player: ":1.10".to_string(),
            track: track("B", Some(120_000_000)),
            is_local: true,
        },
        60_000,
        61_000,
    );
    assert_eq!(recs.len(), 1);
    assert_eq!(recs[0].state.track.title.as_deref(), Some("A"));
    assert_eq!(recs[0].played_ms, 60_000);
    let (recs, _) = m.handle_event(
        &MprisEvent::Paused { player: ":1.10".to_string() },
        120_000,
        122_000,
    );
    assert_eq!(recs.len(), 1);
    assert_eq!(recs[0].state.track.title.as_deref(), Some("B"));
    assert_eq!(recs[0].played_ms, 60_000);
}

#[test]
fn seek_accounting_detects_intro_skip() {
    let mut m = test_monitor();
    add_amberol(&mut m);
    m.handle_event(
        &MprisEvent::TrackChanged {
            player: ":1.10".to_string(),
            track: track("A", Some(180_000_000)),
            is_local: true,
        },
        0,
        1_000,
    );
    m.handle_event(&MprisEvent::Playing { player: ":1.10".to_string() }, 0, 1_000);
    m.handle_event(
        &MprisEvent::Seeked { player: ":1.10".to_string(), position_us: 1_000_000 },
        5_000,
        6_000,
    );
    m.handle_event(
        &MprisEvent::Seeked { player: ":1.10".to_string(), position_us: 20_000_000 },
        6_000,
        7_000,
    );
    let st = &m.players[0].state;
    assert_eq!(st.seek_count, 2);
    assert!(st.intro_skipped);
    assert_eq!(st.seek_forward_ms, 20_000);
}

#[test]
fn three_records_on_disappearance_and_idle_armed() {
    let mut m = test_monitor();
    add_amberol(&mut m);
    m.handle_event(
        &MprisEvent::TrackChanged {
            player: ":1.10".to_string(),
            track: track("A", None),
            is_local: true,
        },
        0,
        1_000,
    );
    m.handle_event(&MprisEvent::Playing { player: ":1.10".to_string() }, 0, 1_000);
    let (recs, _) = m.handle_event(
        &MprisEvent::PlayerDisappeared {
            player: "org.mpris.MediaPlayer2.io.bassi.Amberol".to_string(),
        },
        45_000,
        46_000,
    );
    assert_eq!(recs.len(), 1);
    assert_eq!(recs[0].played_ms, 45_000);
    assert!(m.players.is_empty());
    assert_eq!(m.idle_since_ms, Some(45_000));
}

#[test]
fn admission_filter_checks_lists() {
    let mut cfg = PlayerConfig::default();
    cfg.blacklist = vec!["chromium".to_string()];
    cfg.whitelist = Vec::new();
    let m = MprisMonitor::new(TrackingConfig::default(), cfg);
    assert!(m.should_track_player("org.mpris.MediaPlayer2.mpv"));
    assert!(!m.should_track_player("org.mpris.MediaPlayer2.chromium.instance42"));

    let mut cfg = PlayerConfig::default();
    cfg.whitelist = vec!["mpv".to_string()];
    let m = MprisMonitor::new(TrackingConfig::default(), cfg);
    assert!(m.should_track_player("org.mpris.MediaPlayer2.mpv"));
    assert!(!m.should_track_player("org.mpris.MediaPlayer2.vlc"));
}

#[test]
fn appearance_requests_fetch_only_for_admitted_players() {
    let mut m = test_monitor();
    let (recs, fetch) = m.handle_event(
        &MprisEvent::PlayerAppeared { player: "org.mpris.MediaPlayer2.mpv".to_string() },
        0,
        0,
    );
    assert!(recs.is_empty());
    assert_eq!(fetch.as_deref(), Some("org.mpris.MediaPlayer2.mpv"));

    let mut cfg = PlayerConfig::default();
    cfg.blacklist = vec!["mpv".to_string()];
    let mut m = MprisMonitor::new(TrackingConfig::default(), cfg);
    let (_, fetch) = m.handle_event(
        &MprisEvent::PlayerAppeared { player: "org.mpris.MediaPlayer2.mpv".to_string() },
        0,
        0,
    );
    assert!(fetch.is_none());
}

#[test]
fn local_only_gate_skips_remote_sources() {
    let mut m = test_monitor();
    add_amberol(&mut m);
    m.handle_event(
        &MprisEvent::TrackChanged {
            player: ":1.10".to_string(),
            track: track("A", Some(180_000_000)),
            is_local: false,
        },
        0,
        1_000,
    );
    m.handle_event(&MprisEvent::Playing { player: ":1.10".to_string() }, 0, 1_000);
    let (recs, _) = m.handle_event(
        &MprisEvent::Paused { player: ":1.10".to_string() },
        120_000,
        121_000,
    );
    assert!(recs.is_empty());
}

#[test]
fn finalize_collects_qualifying_episodes() {
    let mut m = test_monitor();
    add_amberol(&mut m);
    m.handle_event(
        &MprisEvent::TrackChanged {
            player: ":1.10".to_string(),
            track: track("A", Some(180_000_000)),
            is_local: true,
        },
        0,
        1_000,
    );
    m.handle_event(&MprisEvent::Playing { player: ":1.10".to_string() }, 0, 1_000);
    let recs = m.finalize(100_000);
    assert_eq!(recs.len(), 1);
    assert_eq!(recs[0].state.track.title.as_deref(), Some("A"));
}

#[test]
fn idle_exit_only_when_stopped_or_idle() {
    let mut m = test_monitor();
    assert!(!m.should_exit(0));
    m.arm_idle_if_empty(0);
    assert!(!m.should_exit(29_999));
    assert!(m.should_exit(30_000));
    let mut m2 = test_monitor();
    m2.stop();
    assert!(m2.should_exit(0));
}

#[test]
fn playing_while_already_playing_keeps_episode_clock() {
    let mut m = test_monitor();
    add_amberol(&mut m);
    m.handle_event(
        &MprisEvent::TrackChanged {
            player: ":1.10".to_string(),
            track: track("A", None),
            is_local: true,
        },
        0,
        1_000,
    );
    m.handle_event(&MprisEvent::Playing { player: ":1.10".to_string() }, 0, 1_000);
    m.handle_event(&MprisEvent::Playing { player: ":1.10".to_string() }, 50_000, 51_000);
    assert_eq!(m.players[0].state.start_time_ms, Some(0));
}

#[test]
fn config_validation_reports_each_error() {
    let mut config = Config::default();
    assert!(config.validate().is_ok());
    config.tracking.min_play_permille = 1001;
    assert_eq!(config.validate(), Err(ConfigError::InvalidPlayPercent));
    config.tracking.min_play_permille = 500;
    config.tracking.min_play_seconds = 3601;
    assert_eq!(config.validate(), Err(ConfigError::PlaySecondsTooLarge));
    config.tracking.min_play_seconds = 30;
    config.general.log_level = "chatty".to_string();
    assert_eq!(config.validate(), Err(ConfigError::UnknownLogLevel));
    config.general.log_level = "INFO".to_string();
    assert!(config.validate().is_ok());
    assert_eq!(
        ConfigError::UnknownLogLevel.message(),
        "log_level must be one of trace, debug, info, warn, error"
    );
}

#[test]
fn seeks_with_tracking_off_update_position_only() {
    let mut tracking = TrackingConfig::default();
    tracking.track_seeks = false;
    let mut m = MprisMonitor::new(tracking, PlayerConfig::default());
    add_amberol(&mut m);
    m.handle_event(
        &MprisEvent::TrackChanged {
            player: ":1.10".to_string(),
            track: track("A", None),
            is_local: true,
        },
        0,
        1_000,
    );
    m.handle_event(
        &MprisEvent::Seeked { player: ":1.10".to_string(), position_us: 20_000_000 },
        5_000,
        6_000,
    );
    let st = &m.players[0].state;
    assert_eq!(st.last_position_us, 20_000_000);
    assert_eq!(st.seek_count, 0);
    assert_eq!(st.seek_forward_ms, 0);
    assert_eq!(st.seek_backward_ms, 0);
    assert!(!st.intro_skipped);
}

#[test]
fn local_only_gate_holds_at_removal() {
    let mut m = test_monitor();
    add_amberol(&mut m);
    m.handle_event(
        &MprisEvent::TrackChanged {
            player: ":1.10".to_string(),
            track: track("A", None),
            is_local: false,
        },
        0,
        1_000,
    );
    m.handle_event(&MprisEvent::Playing { player: ":1.10".to_string() }, 0, 1_000);
    let (recs, _) = m.handle_event(
        &MprisEvent::PlayerDisappeared {
            player: "org.mpris.MediaPlayer2.io.bassi.Amberol".to_string(),
        },
        45_000,
        46_000,
    );
    assert!(recs.is_empty());
    assert!(m.players.is_empty());
}

#[test]
fn signal_classification_builds_the_right_events() {
    let appeared =
        classify_name_owner_changed("org.mpris.MediaPlayer2.mpv", "", ":1.5").unwrap();
    assert!(
        matches!(appeared, MprisEvent::PlayerAppeared { ref player } if player == "org.mpris.MediaPlayer2.mpv")
    );
    let gone = classify_name_owner_changed("org.mpris.MediaPlayer2.mpv", ":1.5", "").unwrap();
    assert!(matches!(gone, MprisEvent::PlayerDisappeared { .. }));
    assert!(classify_name_owner_changed("org.mpris.MediaPlayer2.mpv", ":1.5", ":1.6").is_none());
    assert!(classify_name_owner_changed("org.gnome.Shell", "", ":1.5").is_none());

    assert!(matches!(
        classify_playback_status(":1.5", "Playing"),
        Some(MprisEvent::Playing { .. })
    ));
    assert!(matches!(
        classify_playback_status(":1.5", "Paused"),
        Some(MprisEvent::Paused { .. })
    ));
    assert!(matches!(
        classify_playback_status(":1.5", "Stopped"),
        Some(MprisEvent::Stopped { .. })
    ));
    assert!(classify_playback_status(":1.5", "Buffering").is_none());

    let metadata = vec![
        ("xesam:title".to_string(), MetaValue::Str("A".to_string())),
        ("xesam:url".to_string(), MetaValue::Str("/music/a.flac".to_string())),
    ];
    let ev = track_changed_event(":1.5", &metadata, &Vec::new());
    match ev {
        MprisEvent::TrackChanged { player, track, is_local } => {
            assert_eq!(player, ":1.5");
            assert_eq!(track.title.as_deref(), Some("A"));
            assert!(is_local);
        },
        _ => panic!("expected a track change"),
    }
}

#[test]
fn probe_outputs_are_interpreted_exactly() {
    assert_eq!(window_title_from_output("  my editor \n"), Some("my editor".to_string()));
    assert_eq!(window_title_from_output(" \n\t "), None);
    let long = "x".repeat(300);
    assert_eq!(window_title_from_output(&long).unwrap().chars().count(), 200);

    assert!(!screen_on_from_screensaver("The screensaver is active\n"));
    assert!(screen_on_from_screensaver("The screensaver is inactive\n"));
    assert!(!screen_on_from_xset("...\n  Monitor is Off\n"));
    assert!(screen_on_from_xset("...\n  Monitor is On\n"));

    assert!(battery_discharging_from_status("Discharging\n"));
    assert!(!battery_discharging_from_status("Charging\n"));
    assert_eq!(battery_state_from_upower("  state: discharging\n"), Some(true));
    assert_eq!(battery_state_from_upower("  state: charging\n"), Some(false));
    assert_eq!(battery_state_from_upower("no battery here\n"), None);
}
