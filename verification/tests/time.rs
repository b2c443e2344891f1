use ghx::ui::time::{is_leap, parse_rfc3339, timeago, timestamp_in_range};

#[test]
fn timestamps_convert_to_seconds_since_1970() {
    assert_eq!(parse_rfc3339("1970-01-01T00:00:00Z"), Ok(0));
    assert_eq!(parse_rfc3339("2000-03-01T00:00:00Z"), Ok(951868800));
    assert_eq!(parse_rfc3339("2024-02-29T12:34:56Z"), Ok(1709210096));
}

#[test]
fn timestamps_without_their_fields_are_refused() {
    assert_eq!(parse_rfc3339("2024-02-29"), Err(()));
    assert_eq!(parse_rfc3339("abcd-02-29T12:34:56Z"), Err(()));
    assert_eq!(parse_rfc3339("2024-xx-29T12:34:56Z"), Err(()));
    assert!(timestamp_in_range("2024-02-29T12:34:56Z"));
    assert!(!timestamp_in_range("2024-00-29T12:34:56Z"));
    assert!(!timestamp_in_range("2024-14-29T12:34:56Z"));
    assert!(timestamp_in_range("short"));
}

#[test]
fn leap_years_follow_the_gregorian_rule() {
    assert!(is_leap(2024));
    assert!(!is_leap(2023));
    assert!(!is_leap(1900));
    assert!(is_leap(2000));
}

#[test]
fn ages_use_the_largest_unit_that_fits() {
    let epoch = "1970-01-01T00:00:00Z";
    assert_eq!(timeago(epoch, 0), "0s ago");
    assert_eq!(timeago(epoch, 59), "59s ago");
    assert_eq!(timeago(epoch, 60), "1m ago");
    assert_eq!(timeago(epoch, 3599), "59m ago");
    assert_eq!(timeago(epoch, 3600), "1h ago");
    assert_eq!(timeago(epoch, 86399), "23h ago");
    assert_eq!(timeago(epoch, 86400), "1d ago");
    assert_eq!(timeago(epoch, 86400 * 30 - 1), "29d ago");
    assert_eq!(timeago(epoch, 86400 * 30), "1mo ago");
    assert_eq!(timeago(epoch, 86400 * 365 - 1), "12mo ago");
    assert_eq!(timeago(epoch, 86400 * 365), "1y ago");
    assert_eq!(timeago(epoch, 86400 * 365 * 3), "3y ago");
}

#[test]
fn future_timestamps_read_as_now() {
    assert_eq!(timeago("2024-02-29T12:34:56Z", 1709210000), "0s ago");
    assert_eq!(timeago("2024-02-29T12:34:56Z", 1709210096), "0s ago");
}

#[test]
fn unreadable_timestamps_show_nothing() {
    assert_eq!(timeago("yesterday", 100), "");
}
