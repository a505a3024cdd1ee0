use music_analytics::{parse_metadata, track_to_metadata, MetaValue, Track};

#[test]
fn test_parse_empty_metadata() {
    let metadata = Vec::new();
    let track = parse_metadata(&metadata);
    assert!(track.title.is_none());
    assert!(track.artist.is_none());
}

#[test]
fn parse_reads_known_keys() {
    let metadata = vec![
        ("xesam:title".to_string(), MetaValue::Str("A Song".to_string())),
        (
            "xesam:artist".to_string(),
            MetaValue::StrList(vec!["First".to_string(), "Second".to_string()]),
        ),
        ("mpris:length".to_string(), MetaValue::I64(180_000_000)),
        ("xesam:genre".to_string(), MetaValue::StrList(vec!["rock".to_string(), "pop".to_string()])),
        ("xesam:trackNumber".to_string(), MetaValue::U32(7)),
        ("xesam:userRating".to_string(), MetaValue::Milli(800)),
        ("unknown:key".to_string(), MetaValue::Str("ignored".to_string())),
    ];
    let track = parse_metadata(&metadata);
    assert_eq!(track.title.as_deref(), Some("A Song"));
    assert_eq!(track.artist.as_deref(), Some("First"));
    assert_eq!(track.duration_us, Some(180_000_000));
    assert_eq!(track.genre.as_deref(), Some("rock, pop"));
    assert_eq!(track.track_number, Some(7));
    assert_eq!(track.user_rating_milli, Some(800));
    assert!(track.album.is_none());
}

#[test]
fn parse_tolerates_wrong_shapes() {
    let metadata = vec![
        ("xesam:title".to_string(), MetaValue::I64(5)),
        ("mpris:length".to_string(), MetaValue::Str("long".to_string())),
        ("xesam:trackNumber".to_string(), MetaValue::I64(9_000_000_000)),
    ];
    let track = parse_metadata(&metadata);
    assert!(track.title.is_none());
    assert!(track.duration_us.is_none());
    assert!(track.track_number.is_none());
}

#[test]
fn metadata_round_trip_keeps_fields() {
    let mut track = Track::default();
    track.title = Some("A Song".to_string());
    track.artist = Some("Someone".to_string());
    track.album = Some("An Album".to_string());
    track.duration_us = Some(240_000_000);
    track.file_path = Some("file:///music/a.flac".to_string());
    track.genre = Some("rock".to_string());
    track.album_artist = Some("Someone".to_string());
    track.track_number = Some(3);
    track.disc_number = Some(1);
    track.release_date = Some("2020-05-01".to_string());
    track.art_url = Some("file:///art/a.png".to_string());
    track.user_rating_milli = Some(600);
    track.bpm = Some(120);
    track.composer = Some("A Composer".to_string());
    track.musicbrainz_track_id = Some("abc-123".to_string());

    let map = track_to_metadata(&track);
    let back = parse_metadata(&map);
    assert_eq!(back.title, track.title);
    assert_eq!(back.artist, track.artist);
    assert_eq!(back.album, track.album);
    assert_eq!(back.duration_us, track.duration_us);
    assert_eq!(back.file_path, track.file_path);
    assert_eq!(back.genre, track.genre);
    assert_eq!(back.album_artist, track.album_artist);
    assert_eq!(back.track_number, track.track_number);
    assert_eq!(back.disc_number, track.disc_number);
    assert_eq!(back.release_date, track.release_date);
    assert_eq!(back.art_url, track.art_url);
    assert_eq!(back.user_rating_milli, track.user_rating_milli);
    assert_eq!(back.bpm, track.bpm);
    assert_eq!(back.composer, track.composer);
    assert_eq!(back.musicbrainz_track_id, track.musicbrainz_track_id);
}
