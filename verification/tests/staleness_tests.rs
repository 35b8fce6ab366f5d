use bdo_market_cache::staleness::{get_timestamp_secs, should_update, MINIMUM_UPDATE_TIME_SECONDS};

#[test]
fn threshold_is_half_an_hour() {
    assert_eq!(MINIMUM_UPDATE_TIME_SECONDS, 1800);
}

#[test]
fn within_window_is_not_stale() {
    assert!(!should_update(1000, 1000));
    assert!(!should_update(1000, 2799));
    assert!(!should_update(1000, 2800));
}

#[test]
fn past_window_is_stale() {
    assert!(should_update(1000, 2801));
    assert!(should_update(0, 1_000_000));
}

#[test]
fn clock_skew_is_not_stale() {
    assert!(!should_update(1000, 900));
    assert!(!should_update(1000, 0));
    assert!(!should_update(i64::MAX, i64::MIN));
}

#[test]
fn extreme_timestamps_do_not_overflow() {
    assert!(should_update(i64::MIN, i64::MAX));
    assert!(!should_update(i64::MAX, i64::MAX));
}

#[test]
fn clock_reads_a_modern_date() {
    let now = get_timestamp_secs();
    assert!(now > 1_600_000_000);
}
