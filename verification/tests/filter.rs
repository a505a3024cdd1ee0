use music_analytics::filter::DateFilter;

#[test]
fn test_date_filter_none() {
    let filter = DateFilter::new(None, None);
    let mut query = "SELECT * FROM plays WHERE 1=1".to_string();
    let mut params = Vec::new();
    filter.apply(&mut query, &mut params);

    assert_eq!(query, "SELECT * FROM plays WHERE 1=1");
    assert!(params.is_empty());
}

#[test]
fn test_date_filter_start_only() {
    let filter = DateFilter::new(Some("2024-01-01"), None);
    let mut query = "SELECT * FROM plays WHERE 1=1".to_string();
    let mut params = Vec::new();
    filter.apply(&mut query, &mut params);

    assert_eq!(
        query,
        "SELECT * FROM plays WHERE 1=1 AND datetime(timestamp, 'localtime') >= ?"
    );
    assert_eq!(params, vec!["2024-01-01"]);
}

#[test]
fn test_date_filter_both() {
    let filter = DateFilter::new(Some("2024-01-01"), Some("2024-12-31"));
    let mut query = "SELECT * FROM plays WHERE 1=1".to_string();
    let mut params = Vec::new();
    filter.apply(&mut query, &mut params);

    assert_eq!(
        query,
        "SELECT * FROM plays WHERE 1=1 AND datetime(timestamp, 'localtime') >= ? AND datetime(timestamp, 'localtime') <= ?"
    );
    assert_eq!(params, vec!["2024-01-01", "2024-12-31"]);
}
