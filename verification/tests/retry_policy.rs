use chrono::{DateTime, Utc};

use image_indexer::timestamp::Timestamp;
use image_indexer::worker::RetryPolicy;

fn at(instant: DateTime<Utc>) -> Timestamp {
    Timestamp::new(instant.timestamp(), instant.timestamp_subsec_nanos()).unwrap()
}

fn instant_of(value: Timestamp) -> DateTime<Utc> {
    DateTime::from_timestamp(value.secs(), value.nanos()).unwrap()
}

#[test]
fn zero_attempts_has_no_delay() {
    let policy = RetryPolicy::new(3);

    assert_eq!(policy.backoff_seconds(0), 0);
}

#[test]
fn retry_policy_uses_expected_backoff_table() {
    let policy = RetryPolicy::new(10);

    assert_eq!(policy.backoff_seconds(1), 10);
    assert_eq!(policy.backoff_seconds(2), 30);
    assert_eq!(policy.backoff_seconds(3), 120);
    assert_eq!(policy.backoff_seconds(4), 600);
    assert_eq!(policy.backoff_seconds(5), 1800);
    assert_eq!(policy.backoff_seconds(99), 1800);
}

#[test]
fn retry_policy_allows_retry_before_max_attempts() {
    let now = Utc::now();
    let policy = RetryPolicy::new(3);

    let next_retry_at = policy.next_retry_at(2, at(now));

    assert_eq!(
        next_retry_at.map(|value| (instant_of(value) - now).num_seconds()),
        Some(30)
    );
}

#[test]
fn first_failure_retries_after_10_seconds() {
    let now = Utc::now();
    let policy = RetryPolicy::new(3);

    let next_retry_at = policy.next_retry_at(1, at(now));

    assert_eq!(
        next_retry_at.map(|value| (instant_of(value) - now).num_seconds()),
        Some(10)
    );
}

#[test]
fn second_failure_retries_after_30_seconds() {
    let now = Utc::now();
    let policy = RetryPolicy::new(3);

    let next_retry_at = policy.next_retry_at(2, at(now));

    assert_eq!(
        next_retry_at.map(|value| (instant_of(value) - now).num_seconds()),
        Some(30)
    );
}

#[test]
fn fourth_failure_retries_after_600_seconds_when_still_allowed() {
    let now = Utc::now();
    let policy = RetryPolicy::new(10);

    let next_retry_at = policy.next_retry_at(4, at(now));

    assert_eq!(
        next_retry_at.map(|value| (instant_of(value) - now).num_seconds()),
        Some(600)
    );
}

#[test]
fn fifth_and_later_failures_use_long_backoff_when_still_allowed() {
    let now = Utc::now();
    let policy = RetryPolicy::new(10);

    let next_retry_at = policy.next_retry_at(5, at(now));

    assert_eq!(
        next_retry_at.map(|value| (instant_of(value) - now).num_seconds()),
        Some(1800)
    );
}

#[test]
fn retry_policy_returns_none_when_max_attempts_reached() {
    let now = Utc::now();
    let policy = RetryPolicy::new(3);

    let next_retry_at = policy.next_retry_at(3, at(now));

    assert_eq!(next_retry_at, None);
}

#[test]
fn max_attempts_prevents_retry_even_if_backoff_exists() {
    let now = Utc::now();
    let policy = RetryPolicy::new(5);

    let next_retry_at = policy.next_retry_at(5, at(now));

    assert_eq!(next_retry_at, None);
}

#[test]
fn backoff_never_shrinks_as_failures_add_up() {
    let policy = RetryPolicy::new(100);
    for attempts in 0..20u32 {
        assert!(policy.backoff_seconds(attempts) <= policy.backoff_seconds(attempts + 1));
    }
    assert_eq!(policy.backoff_seconds(u32::MAX), 1800);
}

#[test]
fn default_policy_retries_after_10_then_30_seconds_then_stops() {
    let now = Utc::now();
    let policy = RetryPolicy::new(3);
    let first = policy.next_retry_at(1, at(now)).unwrap();
    let second = policy.next_retry_at(2, at(now)).unwrap();
    assert_eq!(first.secs() - at(now).secs(), 10);
    assert_eq!(second.secs() - at(now).secs(), 30);
    assert_eq!(first.nanos(), at(now).nanos());
    assert_eq!(policy.next_retry_at(3, at(now)), None);
}

#[test]
fn adding_seconds_to_a_leap_second_leaves_it() {
    let leap = Timestamp::new(59, 1_500_000_000).unwrap();
    let later = leap.plus_seconds(10);
    assert_eq!(later.secs(), 69);
    assert_eq!(later.nanos(), 500_000_000);
    assert_eq!(leap.plus_seconds(0), leap);
    let policy = RetryPolicy::new(3);
    assert_eq!(policy.next_retry_at(1, leap), Some(later));
}

#[test]
fn timestamps_hold_only_instants() {
    assert!(Timestamp::new(0, 0).is_some());
    assert!(Timestamp::new(0, 999_999_999).is_some());
    assert!(Timestamp::new(0, 1_000_000_000).is_none());
    assert!(Timestamp::new(-1, 1_000_000_000).is_some());
    assert!(Timestamp::new(-61, 1_999_999_999).is_some());
    assert!(Timestamp::new(59, 2_000_000_000).is_none());
    assert!(Timestamp::new(8210266876799, 0).is_some());
    assert!(Timestamp::new(8210266876800, 0).is_none());
    assert!(Timestamp::new(-8334601228800, 0).is_some());
    assert!(Timestamp::new(-8334601228801, 0).is_none());
    // The same boundaries as chrono's.
    for (secs, nanos) in [(8210266876799i64, 0u32), (8210266876800, 0), (-8334601228800, 0), (-8334601228801, 0), (-1, 1_000_000_000), (0, 1_000_000_000)] {
        assert_eq!(
            Timestamp::new(secs, nanos).is_some(),
            DateTime::from_timestamp(secs, nanos).is_some()
        );
    }
}

#[test]
fn instants_are_ordered_by_second_then_nanosecond() {
    let a = Timestamp::new(10, 5).unwrap();
    let b = Timestamp::new(10, 6).unwrap();
    let c = Timestamp::new(11, 0).unwrap();
    assert!(a.is_at_or_before(&a));
    assert!(a.is_at_or_before(&b));
    assert!(!b.is_at_or_before(&a));
    assert!(b.is_at_or_before(&c));
    assert!(!c.is_at_or_before(&b));
}
