use chrono::Datelike;
use music_analytics::views::DateFilter as ViewFilter;
use music_analytics::date_range::DateFilter;
use music_analytics::{from_cli_flags, Date, DateRange};

#[test]
fn test_all_time() {
    let range = DateRange::all_time();
    assert!(range.start.is_none());
    assert!(range.end.is_none());
    assert_eq!(range.display_name, "All Time");
    assert_eq!(range.to_sql_tuple(), (None, None));
}

#[test]
fn test_specific_year() {
    let range = DateRange::year(2024);
    assert_eq!(range.start_sql(), Some("2024-01-01".to_string()));
    assert_eq!(range.end_sql(), Some("2024-12-31".to_string()));
    assert_eq!(range.display_name, "2024");
}

#[test]
fn test_today() {
    let range = DateRange::today();
    let today = chrono::Local::now().date_naive();
    let expected = Date { year: today.year(), month: today.month(), day: today.day() };
    assert_eq!(range.start, Some(expected));
    assert_eq!(range.end, Some(expected));
    assert_eq!(range.display_name, "Today");
}

#[test]
fn test_last_week() {
    let range = DateRange::last_week();
    let today = chrono::Local::now().date_naive();
    let week_ago = today - chrono::Duration::days(7);
    let expected_start = Date {
        year: week_ago.year(),
        month: week_ago.month(),
        day: week_ago.day(),
    };
    let expected_end = Date { year: today.year(), month: today.month(), day: today.day() };
    assert_eq!(range.start, Some(expected_start));
    assert_eq!(range.end, Some(expected_end));
    assert_eq!(range.display_name, "Last 7 Days");
}

#[test]
fn test_end_sql_with_time() {
    let range = DateRange::year(2024);
    assert_eq!(
        range.end_sql_with_time(),
        Some("2024-12-31 23:59:59".to_string())
    );
}

#[test]
fn test_cli_flags_all_time() {
    let range = from_cli_flags(true, false, false, None);
    assert!(range.start.is_none());
    assert!(range.end.is_none());
}

#[test]
fn test_cli_flags_week() {
    let range = from_cli_flags(false, true, false, None);
    assert!(range.start.is_some());
    assert_eq!(range.display_name, "Last 7 Days");
}

#[test]
fn test_cli_flags_specific_year() {
    let range = from_cli_flags(false, false, false, Some(2023));
    assert_eq!(range.start_sql(), Some("2023-01-01".to_string()));
    assert_eq!(range.end_sql(), Some("2023-12-31".to_string()));
}

#[test]
fn test_cli_flags_priority() {
    let range = from_cli_flags(true, true, true, Some(2023));
    assert!(range.start.is_none());

    let range = from_cli_flags(false, true, true, Some(2023));
    assert_eq!(range.display_name, "Last 7 Days");
}

#[test]
fn test_date_filter_conversion() {
    let filter = DateFilter::AllTime;
    let range = filter.to_date_range();
    assert!(range.start.is_none());
    assert!(range.end.is_none());

    let filter = DateFilter::Week;
    let range = filter.to_date_range();
    assert!(range.start.is_some());
    assert!(range.end.is_some());
}

#[test]
fn test_date_filter_display_names() {
    assert_eq!(DateFilter::Today.display_name(), "Today");
    assert_eq!(DateFilter::Week.display_name(), "Past Week");
    assert_eq!(DateFilter::Month.display_name(), "Past Month");
    assert_eq!(DateFilter::Year.display_name(), "Past Year");
    assert_eq!(DateFilter::AllTime.display_name(), "All Time");
}

#[test]
fn test_date_filter_all() {
    let all = DateFilter::all();
    assert_eq!(all.len(), 5);
    assert!(all.contains(&DateFilter::Today));
    assert!(all.contains(&DateFilter::AllTime));
}

#[test]
fn date_arithmetic_crosses_boundaries() {
    let d = Date { year: 2024, month: 3, day: 1 };
    assert_eq!(d.prev_day(), Some(Date { year: 2024, month: 2, day: 29 }));
    let d = Date { year: 2023, month: 3, day: 1 };
    assert_eq!(d.prev_day(), Some(Date { year: 2023, month: 2, day: 28 }));
    let d = Date { year: 2024, month: 1, day: 1 };
    assert_eq!(d.prev_day(), Some(Date { year: 2023, month: 12, day: 31 }));
    let d = Date { year: 2024, month: 3, day: 10 };
    assert_eq!(d.sub_days(10), Some(Date { year: 2024, month: 2, day: 29 }));
    let d = Date { year: 2024, month: 3, day: 31 };
    assert_eq!(d.sub_months(1), Some(Date { year: 2024, month: 2, day: 29 }));
    assert_eq!(d.sub_months(12), Some(Date { year: 2023, month: 3, day: 31 }));
}

#[test]
fn gui_date_filter_names_and_ranges() {
    assert_eq!(ViewFilter::Week.display_name(), "Past Week");
    assert_eq!(ViewFilter::AllTime.display_name(), "All Time");
    assert_eq!(ViewFilter::all().len(), 4);
    assert_eq!(ViewFilter::AllTime.to_date_range(), (None, None));
    let (start, end) = ViewFilter::Week.to_date_range();
    assert!(start.is_some());
    assert!(end.is_some());
}
