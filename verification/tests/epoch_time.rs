use ferrischat_snowflake_generator::clock::{millis_since_unix_epoch, unix_time_millis, ClockError};
use ferrischat_snowflake_generator::{epoch_time_at, get_epoch_time, since_ferris_epoch, FERRIS_EPOCH};
use std::time::{Duration, SystemTime, UNIX_EPOCH};

#[test]
fn ferris_epoch_is_the_start_of_2020() {
    assert_eq!(FERRIS_EPOCH, 1_577_836_800_000);
    assert_eq!(FERRIS_EPOCH, 18_262 * 24 * 60 * 60 * 1_000);
}

#[test]
fn time_before_the_epoch_saturates_to_zero() {
    assert_eq!(since_ferris_epoch(0), 0);
    assert_eq!(since_ferris_epoch(1), 0);
    assert_eq!(since_ferris_epoch(FERRIS_EPOCH - 1), 0);
}

#[test]
fn first_millisecond_of_the_epoch_is_zero() {
    assert_eq!(since_ferris_epoch(FERRIS_EPOCH), 0);
    assert_eq!(since_ferris_epoch(FERRIS_EPOCH + 1), 1);
}

#[test]
fn time_after_the_epoch_is_the_difference() {
    assert_eq!(since_ferris_epoch(1_577_836_800_123), 123);
    assert_eq!(since_ferris_epoch(1_700_000_000_000), 122_163_200_000);
    assert_eq!(since_ferris_epoch(u128::MAX), u128::MAX - 1_577_836_800_000);
}

#[test]
fn epoch_time_lies_within_the_call_window() {
    let before = SystemTime::now().duration_since(UNIX_EPOCH).unwrap().as_millis();
    let time = get_epoch_time().expect("you're behind the Unix Epoch");
    let after = SystemTime::now().duration_since(UNIX_EPOCH).unwrap().as_millis();
    assert!(before.saturating_sub(FERRIS_EPOCH) <= time);
    assert!(time <= after.saturating_sub(FERRIS_EPOCH));
}

#[test]
fn unix_time_lies_within_the_call_window() {
    let before = SystemTime::now().duration_since(UNIX_EPOCH).unwrap().as_millis();
    let millis = unix_time_millis().expect("you're behind the Unix Epoch");
    let after = SystemTime::now().duration_since(UNIX_EPOCH).unwrap().as_millis();
    assert!(before <= millis);
    assert!(millis <= after);
}

#[test]
fn reading_before_the_unix_epoch_is_an_error() {
    let before = UNIX_EPOCH - Duration::from_millis(1);
    assert_eq!(
        millis_since_unix_epoch(before.duration_since(UNIX_EPOCH)),
        Err(ClockError::BehindUnixEpoch)
    );
    let long_before = UNIX_EPOCH - Duration::from_secs(86_400);
    assert_eq!(
        millis_since_unix_epoch(long_before.duration_since(UNIX_EPOCH)),
        Err(ClockError::BehindUnixEpoch)
    );
}

#[test]
fn reading_from_the_unix_epoch_on_gives_whole_milliseconds() {
    assert_eq!(millis_since_unix_epoch(UNIX_EPOCH.duration_since(UNIX_EPOCH)), Ok(0));
    let later = UNIX_EPOCH + Duration::from_micros(1_234_567);
    assert_eq!(millis_since_unix_epoch(later.duration_since(UNIX_EPOCH)), Ok(1_234));
    assert_eq!(millis_since_unix_epoch(Ok(Duration::from_secs(1_577_836_800))), Ok(FERRIS_EPOCH));
    assert_eq!(millis_since_unix_epoch(Ok(Duration::from_nanos(999_999))), Ok(0));
}

#[test]
fn failed_reading_has_no_epoch_time() {
    assert_eq!(
        epoch_time_at(Err(ClockError::BehindUnixEpoch)),
        Err(ClockError::BehindUnixEpoch)
    );
}

#[test]
fn epoch_time_of_a_reading_saturates_to_zero() {
    assert_eq!(epoch_time_at(Ok(0)), Ok(0));
    assert_eq!(epoch_time_at(Ok(FERRIS_EPOCH - 1)), Ok(0));
    assert_eq!(epoch_time_at(Ok(FERRIS_EPOCH)), Ok(0));
    assert_eq!(epoch_time_at(Ok(FERRIS_EPOCH + 1)), Ok(1));
    assert_eq!(epoch_time_at(Ok(1_577_836_800_123)), Ok(123));
    assert_eq!(epoch_time_at(Ok(u128::MAX)), Ok(u128::MAX - FERRIS_EPOCH));
}

#[test]
fn reading_before_both_epochs_ends_in_the_error() {
    let before = UNIX_EPOCH - Duration::from_secs(1);
    let reading = millis_since_unix_epoch(before.duration_since(UNIX_EPOCH));
    assert_eq!(epoch_time_at(reading), Err(ClockError::BehindUnixEpoch));
}
