use music_analytics::{get_season, ListeningContext};

#[test]
fn test_get_season() {
    assert_eq!(get_season(1), "winter");
    assert_eq!(get_season(4), "spring");
    assert_eq!(get_season(7), "summer");
    assert_eq!(get_season(10), "fall");
}

#[test]
fn context_from_parts_sets_derived_fields() {
    let ctx = ListeningContext::from_parts(23, 5, 12, Some("editor".to_string()), Some(true), None);
    assert_eq!(ctx.hour_of_day, 23);
    assert_eq!(ctx.day_of_week, 5);
    assert!(ctx.is_weekend);
    assert_eq!(ctx.season, "winter");
    assert_eq!(ctx.active_window.as_deref(), Some("editor"));
    assert_eq!(ctx.screen_on, Some(true));
    assert_eq!(ctx.on_battery, None);

    let weekday = ListeningContext::from_parts(9, 2, 6, None, None, Some(false));
    assert!(!weekday.is_weekend);
    assert_eq!(weekday.season, "summer");
}
