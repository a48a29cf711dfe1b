use statusline::TimeFormat;
use statusline::TimeSegment;

#[test]
fn test_time_segment_disabled() {
    let segment = TimeSegment::new(false);
    assert_eq!(segment.render(1234567), "");
}

#[test]
fn test_time_segment_enabled() {
    let segment = TimeSegment::new(true);
    let result = segment.render(1234567);
    assert!(result.starts_with("\u{1f550}"));
    assert!(result.contains(":"));
}

#[test]
fn hour_minute_renders_padded_clock() {
    let segment = TimeSegment::new(true);
    // 52200 seconds into a day is 14:30.
    assert_eq!(segment.render(52200), "\u{1f550} 14:30");
    // 125 seconds after midnight is 00:02.
    assert_eq!(segment.render(125), "\u{1f550} 00:02");
}

#[test]
fn hour_minute_second_renders_seconds_too() {
    let segment = TimeSegment::new(true).with_format(TimeFormat::HourMinuteSecond);
    assert_eq!(segment.render(52245), "\u{1f550} 14:30:45");
}

#[test]
fn timestamp_renders_raw_seconds() {
    let segment = TimeSegment::new(true).with_format(TimeFormat::Timestamp);
    assert_eq!(segment.render(1234567), "\u{1f550} 1234567");
}

#[test]
fn with_format_keeps_disabled_state() {
    let segment = TimeSegment::new(false).with_format(TimeFormat::Timestamp);
    assert_eq!(segment.render(0), "");
}
