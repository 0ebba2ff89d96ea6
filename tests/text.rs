use noctig::text::{
    date_time_string, format_datetime_string, format_offset_seconds, format_offset_time_string,
    format_time_string, hms_separate, hms_u64, TimeFormatter,
};

#[test]
fn clock_durations() {
    assert_eq!(hms_u64(0), "00:00");
    assert_eq!(hms_u64(59), "00:59");
    assert_eq!(hms_u64(3723), "01:02:03");
    assert_eq!(hms_u64(360_000), "100:00:00");
}

#[test]
fn spelled_out_durations() {
    assert_eq!(hms_separate(0), "0s");
    assert_eq!(hms_separate(3601), "1h 1s");
    assert_eq!(hms_separate(61), "1m 1s");
    assert_eq!(hms_separate(7200), "2h");
    assert_eq!(hms_separate(3723), "1h 2m 3s");
}

#[test]
fn offset_ranges() {
    assert_eq!(format_offset_seconds(99, 12, 42), "12s - 42s");
    assert_eq!(format_offset_time_string(99, 12, 3642), "00:12 - 01:00:42");
}

#[test]
fn utc_ranges() {
    assert_eq!(format_time_string(0, 0, 3661).as_deref(), Some("00:00:00 - 01:01:01"));
    assert_eq!(
        format_datetime_string(86_400, 30, 60).as_deref(),
        Some("02-01-1970 00:00:30 - 02-01-1970 00:01:00")
    );
    assert_eq!(date_time_string(0).as_deref(), Some("01-01-1970 00:00:00"));
    assert_eq!(format_time_string(u64::MAX, 0, 1), None);
    assert_eq!(date_time_string(u64::MAX), None);
}

#[test]
fn formatter_cycle() {
    let f = TimeFormatter::OffsetSeconds;
    assert_eq!(f.next(), TimeFormatter::OffsetTime);
    assert_eq!(f.next().next().next().next(), f);
    assert_eq!(f.format(0, 1, 2).as_deref(), Some("1s - 2s"));
    assert_eq!(TimeFormatter::Time.format(0, 60, 120).as_deref(), Some("00:01:00 - 00:02:00"));
}
