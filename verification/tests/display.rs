use music_analytics::display::{make_bar, truncate};

#[test]
fn test_truncate_short_string() {
    assert_eq!(truncate("hello", 10), "hello");
}

#[test]
fn test_truncate_exact_length() {
    assert_eq!(truncate("hello", 5), "hello");
}

#[test]
fn test_truncate_long_string() {
    assert_eq!(truncate("hello world", 8), "hello...");
}

#[test]
fn test_truncate_unicode() {
    assert_eq!(truncate("日本語テスト", 5), "日本...");
}

#[test]
fn test_make_bar_full() {
    assert_eq!(make_bar(100, 100, 10), "██████████");
}

#[test]
fn test_make_bar_half() {
    assert_eq!(make_bar(50, 100, 10), "█████░░░░░");
}

#[test]
fn test_make_bar_zero_max() {
    assert_eq!(make_bar(50, 0, 10), "          ");
}

#[test]
fn test_truncate_small_max_len() {
    assert_eq!(truncate("hello", 2), "he");
    assert_eq!(truncate("hello", 1), "h");
    assert_eq!(truncate("hello", 0), "");
}

#[test]
fn test_truncate_exactly_three() {
    assert_eq!(truncate("hello", 3), "...");
    assert_eq!(truncate("hi", 3), "hi");
}
