use vstd::prelude::*;

use crate::timestamp::{Timestamp, MAX_TIMESTAMP_SECS, NANOS_PER_SEC};

verus! {

/// The backoff table: seconds to wait after the given number of failed attempts.
pub open spec fn backoff_table(attempts_after_failure: u32) -> i64 {
    if attempts_after_failure == 0 {
        0
    } else if attempts_after_failure == 1 {
        10
    } else if attempts_after_failure == 2 {
        30
    } else if attempts_after_failure == 3 {
        120
    } else if attempts_after_failure == 4 {
        600
    } else {
        1800
    }
}

/// When failed jobs are tried again, and how often at most.
#[derive(Debug, Clone)]
pub struct RetryPolicy {
    max_attempts: u32,
}

impl RetryPolicy {
    /// The most attempts a job gets.
    pub closed spec fn spec_max_attempts(&self) -> u32 {
        self.max_attempts
    }

    /// The retry time after `attempts_after_failure` failed attempts at `now`:
    /// none once the attempts are used up, else `now` plus the backoff.
    pub open spec fn spec_next_retry_at(&self, attempts_after_failure: u32, now: Timestamp) -> Option<Timestamp> {
        if attempts_after_failure >= self.spec_max_attempts() {
            None
        } else {
            Some(now.spec_plus_seconds(backoff_table(attempts_after_failure) as u32))
        }
    }

    /// Whether the retry time after `attempts_after_failure` failures at `now` can be held.
    pub open spec fn retry_time_fits(&self, attempts_after_failure: u32, now: Timestamp) -> bool {
        attempts_after_failure < self.spec_max_attempts() ==> now.spec_secs() + backoff_table(
            attempts_after_failure,
        ) <= MAX_TIMESTAMP_SECS
    }

    /// A policy that allows `max_attempts` attempts.
    pub fn new(max_attempts: u32) -> (res: RetryPolicy)
        ensures
            res.spec_max_attempts() == max_attempts,
    {
        RetryPolicy { max_attempts }
    }

    /// The time to retry after `attempts_after_failure` failed attempts at `now`,
    /// or `None` once the attempts are used up.
    pub fn next_retry_at(&self, attempts_after_failure: u32, now: Timestamp) -> (res: Option<Timestamp>)
        requires
            self.retry_time_fits(attempts_after_failure, now),
        ensures
            res == self.spec_next_retry_at(attempts_after_failure, now),
            attempts_after_failure >= self.spec_max_attempts() ==> res is None,
            attempts_after_failure < self.spec_max_attempts() ==> res == Some(
                now.spec_plus_seconds(backoff_table(attempts_after_failure) as u32),
            ),
            (attempts_after_failure < self.spec_max_attempts() && attempts_after_failure >= 1) ==> (
            res matches Some(at) && at.spec_secs() == now.spec_secs() + backoff_table(
                attempts_after_failure,
            )),
    {
        if attempts_after_failure >= self.max_attempts {
            return None;
        }
        let seconds: i64 = self.backoff_seconds(attempts_after_failure);
        proof {
            lemma_backoff_grows(attempts_after_failure, attempts_after_failure);
        }
        Some(now.plus_seconds(seconds as u32))
    }

    /// Seconds to wait after `attempts_after_failure` failed attempts:
    /// 0, 10, 30, 120, 600, then 1800 from the fifth on.
    pub fn backoff_seconds(&self, attempts_after_failure: u32) -> (res: i64)
        ensures
            res == backoff_table(attempts_after_failure),
            attempts_after_failure == 0 ==> res == 0,
            attempts_after_failure == 1 ==> res == 10,
            attempts_after_failure == 2 ==> res == 30,
            attempts_after_failure == 3 ==> res == 120,
            attempts_after_failure == 4 ==> res == 600,
            attempts_after_failure >= 5 ==> res == 1800,
    {
        match attempts_after_failure {
            0 => 0,
            1 => 10,
            2 => 30,
            3 => 120,
            4 => 600,
            _ => 1800,
        }
    }
}

/// The backoff never shrinks as failures add up, lies between 0 and 30 minutes,
/// and is at least ten seconds after any failure.
pub proof fn lemma_backoff_grows(a: u32, b: u32)
    ensures
        a <= b ==> backoff_table(a) <= backoff_table(b),
        0 <= backoff_table(a) <= 1800,
        a >= 1 ==> backoff_table(a) >= 10,
        a >= 5 ==> backoff_table(a) == 1800,
{
}

/// The backoff table: no wait before a first attempt, then 10 seconds after the
/// first failure, 30 after the second, 2 minutes after the third, 10 minutes after
/// the fourth, and 30 minutes after each later one.
pub proof fn lemma_backoff_table_values(attempts_after_failure: u32)
    ensures
        backoff_table(0) == 0,
        backoff_table(1) == 10,
        backoff_table(2) == 30,
        backoff_table(3) == 120,
        backoff_table(4) == 600,
        attempts_after_failure >= 5 ==> backoff_table(attempts_after_failure) == 1800,
{
}

/// While attempts are left, the retry time lies exactly the table's backoff after
/// the failure (for instance 120 seconds after a third failure); once they are used
/// up there is none.
pub proof fn lemma_retry_waits_the_backoff(policy: RetryPolicy, attempts_after_failure: u32, now: Timestamp)
    requires
        policy.retry_time_fits(attempts_after_failure, now),
    ensures
        attempts_after_failure >= policy.spec_max_attempts() ==> policy.spec_next_retry_at(
            attempts_after_failure,
            now,
        ) is None,
        (attempts_after_failure < policy.spec_max_attempts() && attempts_after_failure >= 1) ==> (
        policy.spec_next_retry_at(attempts_after_failure, now) matches Some(at) && at.spec_secs()
            == now.spec_secs() + backoff_table(attempts_after_failure)),
        (attempts_after_failure < policy.spec_max_attempts() && attempts_after_failure == 0) ==> (
        policy.spec_next_retry_at(attempts_after_failure, now) == Some(now)),
{
    if attempts_after_failure < policy.spec_max_attempts() {
        let seconds: u32 = backoff_table(attempts_after_failure) as u32;
        now.lemma_parts(now.spec_secs() + seconds, now.spec_nanos() - NANOS_PER_SEC);
        now.lemma_parts(now.spec_secs() + seconds, now.spec_nanos() as int);
    }
}

/// A retry time, where there is one, lies strictly after the failure.
pub proof fn lemma_retry_is_later(policy: RetryPolicy, attempts_after_failure: u32, now: Timestamp)
    requires
        attempts_after_failure >= 1,
        policy.retry_time_fits(attempts_after_failure, now),
    ensures
        policy.spec_next_retry_at(attempts_after_failure, now) matches Some(at) ==> now.spec_secs()
            < at.spec_secs(),
{
    if attempts_after_failure < policy.spec_max_attempts() {
        let seconds: u32 = backoff_table(attempts_after_failure) as u32;
        now.lemma_parts(now.spec_secs() + seconds, now.spec_nanos() - NANOS_PER_SEC);
        now.lemma_parts(now.spec_secs() + seconds, now.spec_nanos() as int);
    }
}

} // verus!
