use yt_cli::duration::format_duration;

// The padding rule, exercised on the boundary grid: minutes 9, 10, 11
// crossed with seconds 5, 10, 15. Seconds are padded only below ten with
// minutes above ten; minutes are padded only with seconds above ten and
// minutes below ten.

#[test]
fn grid_minutes_9() {
    assert_eq!(format_duration(9 * 60 + 5), "9:5");
    assert_eq!(format_duration(9 * 60 + 10), "9:10");
    assert_eq!(format_duration(9 * 60 + 15), "09:15");
}

#[test]
fn grid_minutes_10() {
    assert_eq!(format_duration(10 * 60 + 5), "10:5");
    assert_eq!(format_duration(10 * 60 + 10), "10:10");
    assert_eq!(format_duration(10 * 60 + 15), "10:15");
}

#[test]
fn grid_minutes_11() {
    assert_eq!(format_duration(11 * 60 + 5), "11:05");
    assert_eq!(format_duration(11 * 60 + 10), "11:10");
    assert_eq!(format_duration(11 * 60 + 15), "11:15");
}

#[test]
fn named_values() {
    assert_eq!(format_duration(65), "1:5");
    assert_eq!(format_duration(600), "10:0");
    assert_eq!(format_duration(661), "11:01");
    assert_eq!(format_duration(59), "00:59");
}

#[test]
fn zero_and_long() {
    assert_eq!(format_duration(0), "0:0");
    assert_eq!(format_duration(3599), "59:59");
    assert_eq!(format_duration(7200), "120:00");
    assert_eq!(format_duration(36000), "600:00");
}

// A live stream is reported with a negative duration; the formatter prints
// it with the machine's truncating division, exactly as the standard
// formatter would.
#[test]
fn negative_durations() {
    assert_eq!(format_duration(-1), "0:-1");
    assert_eq!(format_duration(-700), "-11:-40");
}

#[test]
fn extreme_values() {
    assert_eq!(format_duration(i32::MAX), "35791394:07");
    assert_eq!(format_duration(i32::MIN), "-35791394:-8");
}
