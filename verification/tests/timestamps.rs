use bluefang_player::states::remote_control::MediaInfo;
use bluefang_player::time::{current_unix_time, record_time, Duration, Timestamp};

#[test]
fn test_timestamp() {
    let info: Option<MediaInfo> = None;
    let current = Duration::from_secs(30);
    let end_time = info.as_ref().map(|info| Timestamp::new(info.duration, false));
    let current_time = end_time.map(|end| Timestamp::new(current, end.has_hours()));
    println!(
        "Current Time: {}, End: {}",
        current_time.unwrap_or_default().to_string(),
        end_time.unwrap_or_default().to_string()
    );
}

fn text(secs: u64, force_hours: bool) -> String {
    Timestamp::new(Duration::from_secs(secs), force_hours).to_string()
}

#[test]
fn timestamp_text_is_two_digits_wide() {
    assert_eq!(text(0, false), "00:00");
    assert_eq!(text(9, false), "00:09");
    assert_eq!(text(61, false), "01:01");
    assert_eq!(text(3599, false), "59:59");
}

#[test]
fn timestamp_has_hours_from_an_hour_on() {
    assert_eq!(text(3600, false), "01:00:00");
    assert_eq!(text(3661, false), "01:01:01");
    assert_eq!(text(360_000, false), "100:00:00");
    assert!(Timestamp::new(Duration::from_secs(3600), false).has_hours());
    assert!(!Timestamp::new(Duration::from_secs(3599), false).has_hours());
}

#[test]
fn timestamp_has_hours_where_asked_for() {
    assert_eq!(text(59, true), "00:00:59");
    assert_eq!(text(3661, true), "01:01:01");
}

#[test]
fn timestamp_parts() {
    assert_eq!(
        Timestamp::new(Duration::from_secs(7384), false),
        Timestamp { hours: Some(2), minutes: 3, seconds: 4 }
    );
}

#[test]
fn timestamp_hours_wrap_around() {
    assert_eq!(
        Timestamp::new(Duration::from_secs(65536 * 3600 + 5), false),
        Timestamp { hours: Some(0), minutes: 0, seconds: 5 }
    );
}

#[test]
fn default_timestamp_is_zero() {
    assert_eq!(Timestamp::default().to_string(), "00:00");
}

#[test]
fn durations() {
    assert_eq!(Duration::from_millis(1500), Duration { secs: 1, nanos: 500_000_000 });
    assert_eq!(Duration::from_secs(2), Duration { secs: 2, nanos: 0 });
    assert_eq!(Duration::from_millis(1999).as_secs(), 1);
    assert!(Duration::default().is_zero());
    assert!(!Duration::from_millis(1).is_zero());
}

#[test]
fn recorded_times() {
    assert_eq!(record_time(None), 0);
    let reading = Duration { secs: 1_700_000_000, nanos: 123_999_999 };
    assert_eq!(record_time(Some(reading)), 1_700_000_000_123);
    assert_eq!(record_time(Some(Duration::from_millis(u64::MAX - 1))), u64::MAX - 1);
    assert_eq!(record_time(Some(Duration::from_millis(u64::MAX))), u64::MAX);
    assert_eq!(record_time(Some(Duration::from_secs(u64::MAX / 1000 + 1))), u64::MAX);
    assert_eq!(record_time(Some(Duration::from_secs(u64::MAX))), u64::MAX);
}

#[test]
fn the_clock_is_read_in_milliseconds() {
    let before = std::time::SystemTime::now()
        .duration_since(std::time::SystemTime::UNIX_EPOCH)
        .unwrap()
        .as_millis();
    let now = current_unix_time() as u128;
    assert!(before <= now && now < before + 60_000);
}

#[test]
fn timestamp_text_tells_the_parts_apart() {
    let plain = Timestamp { hours: None, minutes: 61, seconds: 99 };
    let hours = Timestamp { hours: Some(61), minutes: 99, seconds: 0 };
    let long = Timestamp { hours: None, minutes: 6199, seconds: 0 };
    assert_eq!(plain.to_string(), "61:99");
    assert_eq!(hours.to_string(), "61:99:00");
    assert_eq!(long.to_string(), "6199:00");
}
