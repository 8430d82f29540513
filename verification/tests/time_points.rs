use chrono::DateTime;
use tg_assistant::time::{Timestamp, MAX_TIMESTAMP, MIN_TIMESTAMP, TIME_FORMAT};

#[test]
fn accepted_range_is_chrono_range() {
    assert!(DateTime::from_timestamp(MIN_TIMESTAMP, 0).is_some());
    assert!(DateTime::from_timestamp(MIN_TIMESTAMP - 1, 0).is_none());
    assert!(DateTime::from_timestamp(MAX_TIMESTAMP, 999_999_999).is_some());
    assert!(DateTime::from_timestamp(MAX_TIMESTAMP + 1, 0).is_none());
    assert_eq!(DateTime::<chrono::Utc>::MIN_UTC.timestamp(), MIN_TIMESTAMP);
    assert_eq!(DateTime::<chrono::Utc>::MAX_UTC.timestamp(), MAX_TIMESTAMP);
}

#[test]
fn new_agrees_with_chrono() {
    let secs = [
        MIN_TIMESTAMP - 1, MIN_TIMESTAMP, -61, -60, -1, 0, 59, 119, 1_700_000_000, 1_700_000_039,
        MAX_TIMESTAMP, MAX_TIMESTAMP + 1, i64::MIN, i64::MAX,
    ];
    let nanos = [0u32, 1, 999_999_999, 1_000_000_000, 1_500_000_000, 1_999_999_999, 2_000_000_000, u32::MAX];
    for s in secs {
        for n in nanos {
            let ours = Timestamp::new(s, n);
            let theirs = DateTime::from_timestamp(s, n);
            assert_eq!(ours.is_some(), theirs.is_some(), "secs {} nanos {}", s, n);
            if let Some(t) = ours {
                assert_eq!(t.secs(), s);
                assert_eq!(t.nanos(), n);
            }
        }
    }
}

#[test]
fn display_is_day_month_year_hour_minute_zone() {
    let t = Timestamp::new(1_700_000_000, 123).unwrap();
    assert_eq!(t.display(), "14.11.2023 22:13 UTC");
    let expected = DateTime::from_timestamp(1_700_000_000, 123).unwrap().format(TIME_FORMAT).to_string();
    assert_eq!(t.display(), expected);
}

#[test]
fn display_of_leap_second() {
    let t = Timestamp::new(59, 1_500_000_000).unwrap();
    assert_eq!(t.display(), "01.01.1970 00:00 UTC");
}

#[test]
fn now_is_after_epoch() {
    let t = Timestamp::now();
    assert!(t.secs() > 1_600_000_000);
}
