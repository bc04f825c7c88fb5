use agitech_pump::clock::{get_current_time_sec, reading_at, seconds_or_zero};
use std::time::{Duration, SystemTime, UNIX_EPOCH};

#[test]
fn the_clock_counts_seconds_since_the_epoch() {
    let before = SystemTime::now().duration_since(UNIX_EPOCH).unwrap().as_secs();
    let now = get_current_time_sec();
    let after = SystemTime::now().duration_since(UNIX_EPOCH).unwrap().as_secs();
    assert!(before <= now && now <= after);
}

#[test]
fn moments_read_as_whole_seconds() {
    assert_eq!(reading_at(UNIX_EPOCH), Some(0));
    assert_eq!(reading_at(UNIX_EPOCH + Duration::from_millis(1_999)), Some(1));
    assert_eq!(reading_at(UNIX_EPOCH + Duration::from_secs(1_700_000_000)), Some(1_700_000_000));
    assert_eq!(reading_at(UNIX_EPOCH - Duration::from_secs(5)), None);
}

#[test]
fn before_the_epoch_counts_as_zero() {
    assert_eq!(seconds_or_zero(Some(1_700_000_000)), 1_700_000_000);
    assert_eq!(seconds_or_zero(None), 0);
}

#[test]
fn later_moments_count_no_less() {
    let moments = [
        UNIX_EPOCH - Duration::from_secs(100),
        UNIX_EPOCH - Duration::from_millis(1),
        UNIX_EPOCH,
        UNIX_EPOCH + Duration::from_millis(999),
        UNIX_EPOCH + Duration::from_millis(1_000),
        UNIX_EPOCH + Duration::from_secs(1_000_000),
    ];
    let counts: Vec<u64> = moments.iter().map(|m| seconds_or_zero(reading_at(*m))).collect();
    assert_eq!(counts, vec![0, 0, 0, 0, 1, 1_000_000]);
}
