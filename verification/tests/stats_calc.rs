use music_analytics::queries::{insert_play_sql, play_insert_params, SqlValue};
use music_analytics::display::{display_top_artists, display_top_tracks};
use music_analytics::stats::{contributions_from_rows, heatmap_from_rows, streaks_from_dates, ArtistStats, TrackStats};
use music_analytics::{Date, ListeningContext, MprisEvent, MprisMonitor, PlayerConfig, Track, TrackingConfig};

#[test]
fn streaks_find_longest_and_current_runs() {
    let dates = vec![
        Date { year: 2024, month: 1, day: 1 },
        Date { year: 2024, month: 1, day: 2 },
        Date { year: 2024, month: 1, day: 3 },
        Date { year: 2024, month: 1, day: 10 },
        Date { year: 2024, month: 1, day: 11 },
    ];
    let info = streaks_from_dates(&dates, Date { year: 2024, month: 1, day: 11 });
    assert_eq!(info.longest_streak, 3);
    assert_eq!(info.longest_streak_start.as_deref(), Some("2024-01-01"));
    assert_eq!(info.longest_streak_end.as_deref(), Some("2024-01-03"));
    assert_eq!(info.current_streak, 2);

    let stale = streaks_from_dates(&dates, Date { year: 2024, month: 2, day: 1 });
    assert_eq!(stale.current_streak, 0);

    let empty = streaks_from_dates(&Vec::new(), Date { year: 2024, month: 1, day: 1 });
    assert_eq!(empty.longest_streak, 0);
    assert!(empty.longest_streak_start.is_none());
}

#[test]
fn heatmap_peak_is_first_highest_hour() {
    let rows = vec![(0, 2), (9, 10), (18, 10), (23, 4)];
    let hm = heatmap_from_rows(rows.clone());
    assert_eq!(hm.hours, rows);
    assert_eq!(hm.peak_hour, 9);
    assert_eq!(hm.peak_count, 10);

    let none = heatmap_from_rows(Vec::new());
    assert_eq!(none.peak_hour, 0);
    assert_eq!(none.peak_count, 0);
}

#[test]
fn contributions_sum_and_maximum() {
    let rows = vec![
        ("2024-01-01".to_string(), 3),
        ("2024-01-02".to_string(), 7),
        ("2024-01-03".to_string(), 5),
    ];
    let c = contributions_from_rows(rows);
    assert_eq!(c.max_plays, 7);
    assert_eq!(c.total_plays, 15);
    assert_eq!(c.days.len(), 3);
}

#[test]
fn insert_params_follow_column_order() {
    let mut m = MprisMonitor::new(TrackingConfig::default(), PlayerConfig::default());
    m.add_player(
        ":1.9".to_string(),
        "org.mpris.MediaPlayer2.mpv".to_string(),
        None,
        false,
        0,
        0,
    );
    let mut t = Track::default();
    t.title = Some("A".to_string());
    t.duration_us = Some(100_000_000);
    m.handle_event(
        &MprisEvent::TrackChanged { player: ":1.9".to_string(), track: t, is_local: true },
        0,
        1_000,
    );
    m.handle_event(&MprisEvent::Playing { player: ":1.9".to_string() }, 0, 1_000);
    let (recs, _) = m.handle_event(&MprisEvent::Paused { player: ":1.9".to_string() }, 60_000, 61_000);
    assert_eq!(recs.len(), 1);

    let ctx = ListeningContext::from_parts(22, 6, 7, None, Some(true), Some(false));
    let params = play_insert_params(&recs[0], &ctx);
    assert_eq!(params.len(), 32);
    assert!(matches!(&params[0], SqlValue::Text(t) if t == "A"));
    assert!(matches!(params[3], SqlValue::Int(100_000)));
    assert!(matches!(params[4], SqlValue::Int(60_000)));
    assert!(matches!(params[16], SqlValue::Null));
    assert!(matches!(params[23], SqlValue::Int(22)));
    assert!(matches!(&params[26], SqlValue::Text(s) if s == "summer"));
    assert!(matches!(params[28], SqlValue::Int(1)));
    assert!(matches!(params[29], SqlValue::Int(0)));
    assert!(matches!(&params[30], SqlValue::Text(s) if s == "mpv"));
    assert!(matches!(params[31], SqlValue::Int(1)));
    assert!(insert_play_sql().starts_with("INSERT INTO plays"));
}

#[test]
fn ranked_lines_count_matches_items() {
    let artists = vec![
        ArtistStats { artist: "One".to_string(), play_count: 12, total_ms: 3_600_000 },
        ArtistStats { artist: "Two".to_string(), play_count: 5, total_ms: 1_800_000 },
    ];
    let lines = display_top_artists(&artists, false);
    assert_eq!(lines.len(), 2);
    assert!(lines[0].contains("One"));
    assert!(lines[0].contains("12 plays (1.0h)"));

    let tracks = vec![TrackStats {
        title: "Song".to_string(),
        artist: Some("One".to_string()),
        play_count: 3,
        total_ms: 540_000,
        art_url: None,
    }];
    let lines = display_top_tracks(&tracks, true);
    assert_eq!(lines.len(), 1);
    assert!(lines[0].contains("Song"));
}

#[test]
fn streak_tie_keeps_the_last_run() {
    let dates = vec![
        Date { year: 2024, month: 1, day: 1 },
        Date { year: 2024, month: 1, day: 2 },
        Date { year: 2024, month: 1, day: 10 },
        Date { year: 2024, month: 1, day: 11 },
    ];
    let info = streaks_from_dates(&dates, Date { year: 2024, month: 2, day: 1 });
    assert_eq!(info.longest_streak, 2);
    assert_eq!(info.longest_streak_start.as_deref(), Some("2024-01-10"));
    assert_eq!(info.longest_streak_end.as_deref(), Some("2024-01-11"));
}
