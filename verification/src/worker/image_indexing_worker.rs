use vstd::prelude::*;

use crate::domain::image_job::{ImageJob, ImageJobModel, ImageJobTransitionError};
use crate::error::AppError;
use crate::processing::ProcessingError;
use crate::timestamp::Timestamp;
use crate::worker::retry::RetryPolicy;

verus! {

/// How long an idle worker waits before it looks for work again, in milliseconds.
pub const IDLE_SLEEP_MS: u64 = 500u64;

/// The worker's settings.
#[derive(Debug, Clone)]
pub struct WorkerConfig {
    pub storage_root: String,
    pub idle_sleep_ms: u64,
    pub retry_policy: RetryPolicy,
}

/// The failure message recorded when a thumbnail's path has no text.
pub open spec fn path_failure_message(detail: Seq<char>) -> Seq<char> {
    "failed to convert thumbnail path to string: "@ + detail
}

impl WorkerConfig {
    /// Settings for a worker that stores thumbnails under `storage_root` and gives
    /// each job `max_attempts` attempts, idling 500 ms between empty polls.
    pub fn new(storage_root: String, max_attempts: u32) -> (res: WorkerConfig)
        ensures
            res.storage_root@ == storage_root@,
            res.idle_sleep_ms == IDLE_SLEEP_MS,
            res.retry_policy.spec_max_attempts() == max_attempts,
    {
        WorkerConfig { storage_root, idle_sleep_ms: IDLE_SLEEP_MS, retry_policy: RetryPolicy::new(max_attempts) }
    }

    /// Whether recording a failure of `job` at `now` is within what the worker can do:
    /// one more attempt can be counted and the retry time can be held.
    pub open spec fn can_record_failure(&self, job: ImageJobModel, now: Timestamp) -> bool {
        &&& job.attempts < u32::MAX
        &&& self.retry_policy.retry_time_fits((job.attempts + 1) as u32, now)
    }

    /// The job after a failed attempt recorded at `now` with `message`: the retry
    /// time is the policy's for the attempts counted after this failure.
    pub open spec fn failed_job(&self, job: ImageJobModel, message: Seq<char>, now: Timestamp) -> ImageJobModel {
        job.failed(message, self.retry_policy.spec_next_retry_at((job.attempts + 1) as u32, now), now)
    }

    /// Records a failed attempt of a processing job, with the retry time the policy
    /// gives; `Ok` means the job is to be saved.
    pub fn mark_job_failed(&self, job: &mut ImageJob, message: String, now: Timestamp) -> (res: Result<
        (),
        ImageJobTransitionError,
    >)
        requires
            self.can_record_failure(old(job)@, now),
        ensures
            match old(job)@.completion_refusal() {
                None => res is Ok && final(job)@ == self.failed_job(old(job)@, message@, now),
                Some(e) => res == Err::<(), ImageJobTransitionError>(e) && final(job)@ == old(job)@,
            },
    {
        let attempts_after_failure: u32 = job.attempts + 1;
        let next_retry_at = self.retry_policy.next_retry_at(attempts_after_failure, now);
        job.mark_failed(message, next_retry_at, now)
    }

    /// Settles a claimed job once its thumbnail has been attempted at `now`: a
    /// thumbnail written to a path with text completes the job; a path without text,
    /// or a processing error, is recorded as a failed attempt with its message.
    /// `Ok` means the job is to be saved; an error means the transition was refused.
    pub fn finish_job(
        &self,
        job: &mut ImageJob,
        processing: Result<(), ProcessingError>,
        thumbnail_path: Result<String, AppError>,
        now: Timestamp,
    ) -> (res: Result<(), ImageJobTransitionError>)
        requires
            (processing is Err || thumbnail_path is Err) ==> self.can_record_failure(old(job)@, now),
        ensures
            match (processing, thumbnail_path) {
                (Ok(_), Ok(path)) => match old(job)@.completion_refusal() {
                    None => res is Ok && final(job)@ == old(job)@.done(path@, now),
                    Some(e) => res == Err::<(), ImageJobTransitionError>(e) && final(job)@ == old(job)@,
                },
                (Ok(_), Err(error)) => match old(job)@.completion_refusal() {
                    None => res is Ok && exists|detail: Seq<char>|
                        #[trigger] error.spec_message_known(detail) && final(job)@ == self.failed_job(
                            old(job)@,
                            path_failure_message(detail),
                            now,
                        ),
                    Some(e) => res == Err::<(), ImageJobTransitionError>(e) && final(job)@ == old(job)@,
                },
                (Err(error), _) => match old(job)@.completion_refusal() {
                    None => res is Ok && final(job)@ == self.failed_job(
                        old(job)@,
                        error.spec_message(),
                        now,
                    ),
                    Some(e) => res == Err::<(), ImageJobTransitionError>(e) && final(job)@ == old(job)@,
                },
            },
    {
        match processing {
            Ok(_) => match thumbnail_path {
                Ok(path) => job.mark_done(path, now),
                Err(error) => {
                    let detail = error.message();
                    let mut message = String::from_str("failed to convert thumbnail path to string: ");
                    message.append(detail.as_str());
                    self.mark_job_failed(job, message, now)
                },
            },
            Err(error) => {
                let message = error.message();
                self.mark_job_failed(job, message, now)
            },
        }
    }
}

/// When the policy allows as many attempts as the job, a failure leaves the job
/// waiting exactly the backoff for the attempts counted, or, once they are used up,
/// not waiting for any retry at all.
pub proof fn lemma_failure_waits_backoff(
    config: WorkerConfig,
    job: ImageJobModel,
    message: Seq<char>,
    now: Timestamp,
)
    requires
        config.retry_policy.spec_max_attempts() == job.max_attempts,
        job.status == crate::domain::ImageJobStatus::Processing,
        job.attempts < u32::MAX,
    ensures
        config.failed_job(job, message, now).next_retry_at == config.retry_policy.spec_next_retry_at(
            (job.attempts + 1) as u32,
            now,
        ),
        config.failed_job(job, message, now).next_retry_at is None <==> job.attempts + 1
            >= job.max_attempts,
{
}

} // verus!
