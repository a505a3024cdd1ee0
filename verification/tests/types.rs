use music_analytics::{Milliseconds, Microseconds, PlayCount};

#[test]
fn types_basic_operations() {
    let count = PlayCount::new(42);
    assert_eq!(count.get(), 42);
    assert!(!count.is_zero());
    assert!(PlayCount::default().is_zero());

    let ms = Milliseconds::new(5000);
    assert_eq!(ms.get(), 5000);
    assert!(!ms.is_zero());
    assert!(Milliseconds::default().is_zero());

    let us = Microseconds::new(5_000_000);
    assert_eq!(us.get(), 5_000_000);
    assert!(!us.is_zero());
    assert!(Microseconds::default().is_zero());
}

#[test]
fn types_display() {
    assert_eq!(PlayCount::new(100).display_string(), "100");
    assert_eq!(Milliseconds::new(5000).display_string(), "5s");
    assert_eq!(Milliseconds::new(65_000).display_string(), "1m 5s");
    assert_eq!(Milliseconds::new(3_665_000).display_string(), "1h 1m 5s");
}

#[test]
fn types_arithmetic() {
    let a = PlayCount::new(10);
    let b = PlayCount::new(5);
    assert_eq!(a + b, PlayCount::new(15));
    assert_eq!(a - b, PlayCount::new(5));
    let mut c = PlayCount::new(10);
    c = c + PlayCount::new(3);
    assert_eq!(c, PlayCount::new(13));
    c = c - PlayCount::new(2);
    assert_eq!(c, PlayCount::new(11));

    let a = Milliseconds::new(1000);
    let b = Milliseconds::new(500);
    assert_eq!(a + b, Milliseconds::new(1500));
    assert_eq!(a - b, Milliseconds::new(500));
    let mut c = Milliseconds::new(1000);
    c = c + Milliseconds::new(300);
    assert_eq!(c, Milliseconds::new(1300));
    c = c - Milliseconds::new(200);
    assert_eq!(c, Milliseconds::new(1100));

    let a = Microseconds::new(1_000_000);
    let b = Microseconds::new(500_000);
    assert_eq!(a + b, Microseconds::new(1_500_000));
    assert_eq!(a - b, Microseconds::new(500_000));
    let mut c = Microseconds::new(1_000_000);
    c = c + Microseconds::new(300_000);
    assert_eq!(c, Microseconds::new(1_300_000));
    c = c - Microseconds::new(200_000);
    assert_eq!(c, Microseconds::new(1_100_000));
}

#[test]
fn conversions() {
    let count: PlayCount = 42i64.into();
    assert_eq!(count.get(), 42);

    let raw: i64 = count.into();
    assert_eq!(raw, 42);

    let from_i32: PlayCount = 10i32.into();
    assert_eq!(from_i32.get(), 10);
}

#[test]
fn types_factories() {
    assert_eq!(Milliseconds::from_secs(5), Milliseconds::new(5000));
    assert_eq!(Milliseconds::from_mins(2), Milliseconds::new(120_000));
    assert_eq!(Milliseconds::from_hours(1), Milliseconds::new(3_600_000));
    assert_eq!(Microseconds::from_secs(5), Microseconds::new(5_000_000));
    assert_eq!(Microseconds::from_millis(500), Microseconds::new(500_000));
}

#[test]
fn ms_us_conversions() {
    let ms = Milliseconds::new(1500);
    let us = ms.to_microseconds();
    assert_eq!(us, Microseconds::new(1_500_000));

    let back = us.to_milliseconds();
    assert_eq!(back, ms);

    let us_from: Microseconds = ms.into();
    assert_eq!(us_from, Microseconds::new(1_500_000));

    let ms_from: Milliseconds = us.into();
    assert_eq!(ms_from, Milliseconds::new(1500));
}

#[test]
fn ordering() {
    assert!(PlayCount::new(10) > PlayCount::new(5));
    assert!(Milliseconds::new(1000) < Milliseconds::new(2000));
    assert!(Microseconds::new(500) <= Microseconds::new(500));
}
