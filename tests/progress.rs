use media_convert::progress::{ProgressEvent, ProgressParser};

#[test]
fn duration_then_time_gives_half() {
    let mut p = ProgressParser::new();
    assert_eq!(p.feed_line("  Duration: 00:01:30.00, start: 0.0, bitrate: 1200 kb/s"), None);
    let e = p.feed_line("frame=1 time=00:00:45.00 bitrate=1000.0kbits/s");
    assert_eq!(
        e,
        Some(ProgressEvent { current_ms: 45_000, total_ms: 90_000, percent_hundredths: 5_000 })
    );
    assert_eq!(p.total_millis(), Some(90_000));
    assert_eq!(p.current_millis(), 45_000);
}

#[test]
fn time_before_duration_gives_zero_percent() {
    let mut p = ProgressParser::new();
    let e = p.feed_line("frame=10 fps=0.0 time=00:00:12.50 bitrate=N/A");
    assert_eq!(
        e,
        Some(ProgressEvent { current_ms: 12_500, total_ms: 0, percent_hundredths: 0 })
    );
    assert_eq!(p.current_millis(), 12_500);
    assert_eq!(p.total_millis(), None);
}

#[test]
fn first_duration_wins() {
    let mut p = ProgressParser::new();
    p.feed_line("Duration: 00:00:10.00, start: 0.000000");
    p.feed_line("Duration: 01:00:00.00, start: 0.000000");
    assert_eq!(p.total_millis(), Some(10_000));
}

#[test]
fn percent_is_clamped() {
    let mut p = ProgressParser::new();
    p.feed_line("Duration: 00:00:10.00, start: 0.0");
    let e = p.feed_line("time=00:00:12.00").unwrap();
    assert_eq!(e.percent_hundredths, 10_000);
}

#[test]
fn malformed_lines_are_ignored() {
    let mut p = ProgressParser::new();
    assert_eq!(p.feed_line("Duration: N/A, start: 0.0"), None);
    assert_eq!(p.total_millis(), None);
    assert_eq!(p.feed_line("frame=1 time=N/A bitrate=N/A"), None);
    assert_eq!(p.feed_line("time=00:12"), None);
    assert_eq!(p.feed_line("Stream #0:0: Video: h264"), None);
    assert_eq!(p.current_millis(), 0);
}

#[test]
fn fractional_and_partial_readings() {
    let mut p = ProgressParser::new();
    p.feed_line("Duration: 01:02:03.456789, start");
    assert_eq!(p.total_millis(), Some(3_723_456));
    let e = p.feed_line("time=0:0:.5 speed=1x").unwrap();
    assert_eq!(e.current_ms, 500);
    let e = p.feed_line("time=00:30:01.5").unwrap();
    assert_eq!(e.current_ms, 1_801_500);
    assert_eq!(e.percent_hundredths, 1_801_500u64 * 10_000 / 3_723_456);
}

#[test]
fn duration_without_space_is_not_read() {
    let mut p = ProgressParser::new();
    p.feed_line("Duration:00:00:10.00, start");
    assert_eq!(p.total_millis(), None);
}

#[test]
fn zero_duration_gives_zero_percent() {
    let mut p = ProgressParser::new();
    p.feed_line("Duration: 00:00:00.00, start: 0.0");
    assert_eq!(p.total_millis(), Some(0));
    let e = p.feed_line("time=00:00:01.00").unwrap();
    assert_eq!(e.percent_hundredths, 0);
}

#[test]
fn signed_readings() {
    let mut p = ProgressParser::new();
    p.feed_line("Duration: 00:00:10.00, start: 0.0");
    let e = p.feed_line("frame=0 time=-00:00:00.04 bitrate=N/A").unwrap();
    assert_eq!(e.current_ms, 40);
    assert_eq!(e.percent_hundredths, 40);
    let e = p.feed_line("frame=0 time=-01:00:00.00 bitrate=N/A").unwrap();
    assert_eq!(e.current_ms, 0);
    assert_eq!(e.percent_hundredths, 0);
    let e = p.feed_line("time=+00:00:05.00").unwrap();
    assert_eq!(e.current_ms, 5_000);
    assert_eq!(e.percent_hundredths, 5_000);
    let e = p.feed_line("time=00:01:-30.00").unwrap();
    assert_eq!(e.current_ms, 30_000);
    assert_eq!(p.feed_line("time=--00:00:01.00"), None);
    assert_eq!(p.current_millis(), 30_000);
}
