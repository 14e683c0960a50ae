use vstd::prelude::*;

use crate::domain::status::ImageJobStatus;
use crate::ids::{new_v4_id, uuid_variant_bits, uuid_version};
use crate::timestamp::Timestamp;

verus! {

/// One uploaded image and the state of its thumbnail job.
#[derive(Debug, Clone)]
pub struct ImageJob {
    /// The job's identifier, a UUID as a 128-bit big-endian value.
    pub id: u128,
    pub original_filename: String,
    pub stored_path: String,
    pub thumbnail_path: Option<String>,
    pub status: ImageJobStatus,
    pub attempts: u32,
    pub max_attempts: u32,
    pub last_error: Option<String>,
    pub next_retry_at: Option<Timestamp>,
    pub created_at: Timestamp,
    pub updated_at: Timestamp,
    pub indexed_at: Option<Timestamp>,
}

/// What an image job holds, with its texts as character sequences.
pub struct ImageJobModel {
    pub id: u128,
    pub original_filename: Seq<char>,
    pub stored_path: Seq<char>,
    pub thumbnail_path: Option<Seq<char>>,
    pub status: ImageJobStatus,
    pub attempts: u32,
    pub max_attempts: u32,
    pub last_error: Option<Seq<char>>,
    pub next_retry_at: Option<Timestamp>,
    pub created_at: Timestamp,
    pub updated_at: Timestamp,
    pub indexed_at: Option<Timestamp>,
}

impl View for ImageJob {
    type V = ImageJobModel;

    open spec fn view(&self) -> ImageJobModel {
        ImageJobModel {
            id: self.id,
            original_filename: self.original_filename@,
            stored_path: self.stored_path@,
            thumbnail_path: self.thumbnail_path.deep_view(),
            status: self.status,
            attempts: self.attempts,
            max_attempts: self.max_attempts,
            last_error: self.last_error.deep_view(),
            next_retry_at: self.next_retry_at,
            created_at: self.created_at,
            updated_at: self.updated_at,
            indexed_at: self.indexed_at,
        }
    }
}

/// Why a lifecycle transition was refused.
#[derive(Debug, Clone, Copy, PartialEq, Eq, Structural)]
pub enum ImageJobTransitionError {
    AlreadyProcessing,
    AlreadyDone,
    NotProcessing,
    RetryNotAllowed,
}

impl ImageJobTransitionError {
    /// The error's message.
    pub open spec fn spec_message(self) -> Seq<char> {
        match self {
            ImageJobTransitionError::AlreadyProcessing => "image job is already processing"@,
            ImageJobTransitionError::AlreadyDone => "image job is already done"@,
            ImageJobTransitionError::NotProcessing =>
                "image job must be processing before it can be completed or failed"@,
            ImageJobTransitionError::RetryNotAllowed => "image job is not eligible for retry yet"@,
        }
    }

    /// The error's message.
    pub fn message(&self) -> (res: String)
        ensures
            res@ == self.spec_message(),
    {
        match self {
            ImageJobTransitionError::AlreadyProcessing => String::from_str(
                "image job is already processing",
            ),
            ImageJobTransitionError::AlreadyDone => String::from_str("image job is already done"),
            ImageJobTransitionError::NotProcessing => String::from_str(
                "image job must be processing before it can be completed or failed",
            ),
            ImageJobTransitionError::RetryNotAllowed => String::from_str(
                "image job is not eligible for retry yet",
            ),
        }
    }
}

/// The lifecycle's edges: pending to processing, processing to done or failed,
/// and failed back to processing.
pub open spec fn lifecycle_step(from: ImageJobStatus, to: ImageJobStatus) -> bool {
    ||| from == ImageJobStatus::Pending && to == ImageJobStatus::Processing
    ||| from == ImageJobStatus::Processing && to == ImageJobStatus::Done
    ||| from == ImageJobStatus::Processing && to == ImageJobStatus::Failed
    ||| from == ImageJobStatus::Failed && to == ImageJobStatus::Processing
}

impl ImageJobModel {
    /// A fresh job: pending, no attempts yet, created and updated at `now`.
    pub open spec fn fresh(
        id: u128,
        original_filename: Seq<char>,
        stored_path: Seq<char>,
        max_attempts: u32,
        now: Timestamp,
    ) -> ImageJobModel {
        ImageJobModel {
            id,
            original_filename,
            stored_path,
            thumbnail_path: None,
            status: ImageJobStatus::Pending,
            attempts: 0,
            max_attempts,
            last_error: None,
            next_retry_at: None,
            created_at: now,
            updated_at: now,
            indexed_at: None,
        }
    }

    /// Whether the job may be picked up at `now`: a pending job always; a failed one
    /// while it has attempts left and its retry time, if any, has come; never a
    /// job that is processing or done.
    pub open spec fn can_retry(self, now: Timestamp) -> bool {
        match self.status {
            ImageJobStatus::Pending => true,
            ImageJobStatus::Processing => false,
            ImageJobStatus::Done => false,
            ImageJobStatus::Failed => self.attempts < self.max_attempts && match self.next_retry_at {
                Some(at) => at.spec_le(now),
                None => true,
            },
        }
    }

    /// Whether a worker may claim the job at `now`.
    pub open spec fn is_available_for_processing(self, now: Timestamp) -> bool {
        match self.status {
            ImageJobStatus::Pending => true,
            ImageJobStatus::Failed => self.can_retry(now),
            ImageJobStatus::Processing => false,
            ImageJobStatus::Done => false,
        }
    }

    /// Why `mark_processing` at `now` is refused, or `None` where it is allowed.
    pub open spec fn processing_refusal(self, now: Timestamp) -> Option<ImageJobTransitionError> {
        match self.status {
            ImageJobStatus::Pending => None,
            ImageJobStatus::Failed => if self.can_retry(now) {
                None
            } else {
                Some(ImageJobTransitionError::RetryNotAllowed)
            },
            ImageJobStatus::Processing => Some(ImageJobTransitionError::AlreadyProcessing),
            ImageJobStatus::Done => Some(ImageJobTransitionError::AlreadyDone),
        }
    }

    /// Why `mark_done` or `mark_failed` is refused, or `None` where it is allowed
    /// (only a processing job completes or fails).
    pub open spec fn completion_refusal(self) -> Option<ImageJobTransitionError> {
        match self.status {
            ImageJobStatus::Processing => None,
            ImageJobStatus::Pending => Some(ImageJobTransitionError::NotProcessing),
            ImageJobStatus::Failed => Some(ImageJobTransitionError::NotProcessing),
            ImageJobStatus::Done => Some(ImageJobTransitionError::AlreadyDone),
        }
    }

    /// The job once it has started processing at `now`.
    pub open spec fn processing(self, now: Timestamp) -> ImageJobModel {
        ImageJobModel { status: ImageJobStatus::Processing, updated_at: now, ..self }
    }

    /// The job once its thumbnail has been written to `thumbnail_path` at `now`.
    pub open spec fn done(self, thumbnail_path: Seq<char>, now: Timestamp) -> ImageJobModel {
        ImageJobModel {
            status: ImageJobStatus::Done,
            thumbnail_path: Some(thumbnail_path),
            last_error: None,
            next_retry_at: None,
            indexed_at: Some(now),
            updated_at: now,
            ..self
        }
    }

    /// The job once an attempt has failed with `error` at `now`: one more attempt
    /// counted, and the proposed retry time kept only while attempts are left.
    pub open spec fn failed(
        self,
        error: Seq<char>,
        next_retry_at: Option<Timestamp>,
        now: Timestamp,
    ) -> ImageJobModel {
        ImageJobModel {
            status: ImageJobStatus::Failed,
            attempts: (self.attempts + 1) as u32,
            last_error: Some(error),
            updated_at: now,
            next_retry_at: if self.attempts + 1 >= self.max_attempts {
                None
            } else {
                next_retry_at
            },
            ..self
        }
    }
}

impl ImageJob {
    /// A new pending job for an uploaded file, under a fresh random identifier.
    pub fn new(original_filename: String, stored_path: String, max_attempts: u32, now: Timestamp) -> (res: ImageJob)
        ensures
            res@ == ImageJobModel::fresh(res.id, original_filename@, stored_path@, max_attempts, now),
            uuid_version(res.id) == 4,
            uuid_variant_bits(res.id) == 2,
    {
        ImageJob::pending(new_v4_id(), original_filename, stored_path, max_attempts, now)
    }

    /// A new pending job for an uploaded file under the identifier `id`.
    pub fn pending(
        id: u128,
        original_filename: String,
        stored_path: String,
        max_attempts: u32,
        now: Timestamp,
    ) -> (res: ImageJob)
        ensures
            res@ == ImageJobModel::fresh(id, original_filename@, stored_path@, max_attempts, now),
    {
        ImageJob {
            id,
            original_filename,
            stored_path,
            thumbnail_path: None,
            status: ImageJobStatus::Pending,
            attempts: 0,
            max_attempts,
            last_error: None,
            next_retry_at: None,
            created_at: now,
            updated_at: now,
            indexed_at: None,
        }
    }

    /// Starts processing at `now`: a pending job, or a failed one that may be retried.
    pub fn mark_processing(&mut self, now: Timestamp) -> (res: Result<(), ImageJobTransitionError>)
        ensures
            match old(self)@.processing_refusal(now) {
                None => res is Ok && final(self)@ == old(self)@.processing(now),
                Some(e) => res == Err::<(), ImageJobTransitionError>(e) && final(self)@ == old(self)@,
            },
            res is Ok ==> {
                &&& old(self).status == ImageJobStatus::Pending || old(self).status
                    == ImageJobStatus::Failed
                &&& final(self).status == ImageJobStatus::Processing
                &&& final(self).updated_at == now
                &&& final(self).attempts == old(self).attempts
                &&& final(self).next_retry_at == old(self).next_retry_at
            },
            (old(self).status == ImageJobStatus::Failed && (old(self).next_retry_at matches Some(at)
                && now.spec_secs() < at.spec_secs())) ==> res == Err::<(), ImageJobTransitionError>(
                ImageJobTransitionError::RetryNotAllowed,
            ),
    {
        match self.status {
            ImageJobStatus::Pending => {
                self.status = ImageJobStatus::Processing;
                self.updated_at = now;
                Ok(())
            },
            ImageJobStatus::Failed => {
                if self.can_retry(now) {
                    self.status = ImageJobStatus::Processing;
                    self.updated_at = now;
                    Ok(())
                } else {
                    Err(ImageJobTransitionError::RetryNotAllowed)
                }
            },
            ImageJobStatus::Processing => Err(ImageJobTransitionError::AlreadyProcessing),
            ImageJobStatus::Done => Err(ImageJobTransitionError::AlreadyDone),
        }
    }

    /// Completes a processing job with its thumbnail written to `thumbnail_path` at `now`.
    pub fn mark_done(&mut self, thumbnail_path: String, now: Timestamp) -> (res: Result<(), ImageJobTransitionError>)
        ensures
            match old(self)@.completion_refusal() {
                None => res is Ok && final(self)@ == old(self)@.done(thumbnail_path@, now),
                Some(e) => res == Err::<(), ImageJobTransitionError>(e) && final(self)@ == old(self)@,
            },
            res is Ok <==> old(self).status == ImageJobStatus::Processing,
            res is Ok ==> {
                &&& final(self).status == ImageJobStatus::Done
                &&& final(self).thumbnail_path.deep_view() == Some(thumbnail_path@)
                &&& final(self).last_error is None
                &&& final(self).next_retry_at is None
                &&& final(self).indexed_at == Some(now)
                &&& final(self).updated_at == now
                &&& final(self).attempts == old(self).attempts
                &&& final(self).created_at == old(self).created_at
            },
    {
        match self.status {
            ImageJobStatus::Processing => {
                self.status = ImageJobStatus::Done;
                self.thumbnail_path = Some(thumbnail_path);
                self.last_error = None;
                self.next_retry_at = None;
                self.indexed_at = Some(now);
                self.updated_at = now;
                Ok(())
            },
            ImageJobStatus::Pending => Err(ImageJobTransitionError::NotProcessing),
            ImageJobStatus::Failed => Err(ImageJobTransitionError::NotProcessing),
            ImageJobStatus::Done => Err(ImageJobTransitionError::AlreadyDone),
        }
    }

    /// Records a failed attempt of a processing job with `error` at `now`; the job
    /// keeps `next_retry_at` only while it has attempts left.
    pub fn mark_failed(
        &mut self,
        error: String,
        next_retry_at: Option<Timestamp>,
        now: Timestamp,
    ) -> (res: Result<(), ImageJobTransitionError>)
        requires
            old(self).status == ImageJobStatus::Processing ==> old(self).attempts < u32::MAX,
        ensures
            match old(self)@.completion_refusal() {
                None => res is Ok && final(self)@ == old(self)@.failed(error@, next_retry_at, now),
                Some(e) => res == Err::<(), ImageJobTransitionError>(e) && final(self)@ == old(self)@,
            },
            res is Ok <==> old(self).status == ImageJobStatus::Processing,
            res is Ok ==> {
                &&& final(self).status == ImageJobStatus::Failed
                &&& final(self).attempts == old(self).attempts + 1
                &&& final(self).last_error.deep_view() == Some(error@)
                &&& final(self).updated_at == now
                &&& final(self).attempts >= final(self).max_attempts ==> final(self).next_retry_at is None
                &&& final(self).attempts < final(self).max_attempts ==> final(self).next_retry_at == next_retry_at
                &&& final(self).thumbnail_path == old(self).thumbnail_path
            },
    {
        match self.status {
            ImageJobStatus::Processing => {
                self.status = ImageJobStatus::Failed;
                self.attempts = self.attempts + 1;
                self.last_error = Some(error);
                self.updated_at = now;
                if self.attempts >= self.max_attempts {
                    self.next_retry_at = None;
                } else {
                    self.next_retry_at = next_retry_at;
                }
                Ok(())
            },
            ImageJobStatus::Pending => Err(ImageJobTransitionError::NotProcessing),
            ImageJobStatus::Failed => Err(ImageJobTransitionError::NotProcessing),
            ImageJobStatus::Done => Err(ImageJobTransitionError::AlreadyDone),
        }
    }

    /// Whether the job may be picked up at `now` (see `ImageJobModel::can_retry`).
    pub fn can_retry(&self, now: Timestamp) -> (res: bool)
        ensures
            res == self@.can_retry(now),
            (self.status == ImageJobStatus::Failed && (self.next_retry_at matches Some(at)
                && now.spec_secs() < at.spec_secs())) ==> !res,
    {
        match self.status {
            ImageJobStatus::Failed => {},
            ImageJobStatus::Pending => return true,
            ImageJobStatus::Processing => return false,
            ImageJobStatus::Done => return false,
        }
        if self.attempts >= self.max_attempts {
            return false;
        }
        match self.next_retry_at {
            Some(next_retry_at) => next_retry_at.is_at_or_before(&now),
            None => true,
        }
    }

    /// Whether a worker may claim the job at `now`.
    pub fn is_available_for_processing(&self, now: Timestamp) -> (res: bool)
        ensures
            res == self@.is_available_for_processing(now),
            (self.status == ImageJobStatus::Failed && (self.next_retry_at matches Some(at)
                && now.spec_secs() < at.spec_secs())) ==> !res,
    {
        match self.status {
            ImageJobStatus::Pending => true,
            ImageJobStatus::Failed => self.can_retry(now),
            ImageJobStatus::Processing => false,
            ImageJobStatus::Done => false,
        }
    }
}

/// A job is available for processing exactly when it may be retried, and exactly
/// when `mark_processing` accepts it.
pub proof fn lemma_available_iff_retry_allowed(job: ImageJobModel, now: Timestamp)
    ensures
        job.is_available_for_processing(now) == job.can_retry(now),
        job.is_available_for_processing(now) <==> job.processing_refusal(now) is None,
{
}

/// Every accepted transition follows an edge of the lifecycle, and a done job
/// accepts none: it is never processed, completed or failed again.
pub proof fn lemma_transitions_follow_lifecycle(
    job: ImageJobModel,
    now: Timestamp,
    thumbnail_path: Seq<char>,
    error: Seq<char>,
    next_retry_at: Option<Timestamp>,
)
    ensures
        job.processing_refusal(now) is None ==> lifecycle_step(job.status, job.processing(now).status),
        job.completion_refusal() is None ==> lifecycle_step(job.status, job.done(thumbnail_path, now).status),
        job.completion_refusal() is None ==> lifecycle_step(
            job.status,
            job.failed(error, next_retry_at, now).status,
        ),
        job.status == ImageJobStatus::Done ==> {
            &&& job.processing_refusal(now) == Some(ImageJobTransitionError::AlreadyDone)
            &&& job.completion_refusal() == Some(ImageJobTransitionError::AlreadyDone)
            &&& !job.is_available_for_processing(now)
        },
{
}

/// Completing a job leaves no trace of earlier failures: whatever error and retry
/// time it carried, a done job has none, is indexed and updated at the completion
/// time, holds the thumbnail's path, and keeps its attempts.
pub proof fn lemma_done_clears_failure(job: ImageJobModel, thumbnail_path: Seq<char>, now: Timestamp)
    ensures
        job.done(thumbnail_path, now).status == ImageJobStatus::Done,
        job.done(thumbnail_path, now).last_error is None,
        job.done(thumbnail_path, now).next_retry_at is None,
        job.done(thumbnail_path, now).thumbnail_path == Some(thumbnail_path),
        job.done(thumbnail_path, now).indexed_at == Some(now),
        job.done(thumbnail_path, now).updated_at == now,
        job.done(thumbnail_path, now).attempts == job.attempts,
        job.done(thumbnail_path, now).created_at == job.created_at,
        job.done(thumbnail_path, now).id == job.id,
{
}

/// A failed job's retry time decides when it may be retried: while attempts are
/// left, not before the retry time's second and from the retry time on; without a
/// retry time at once; never once the attempts are used up.
pub proof fn lemma_retry_time_decides(job: ImageJobModel, now: Timestamp)
    requires
        job.status == ImageJobStatus::Failed,
    ensures
        job.attempts >= job.max_attempts ==> !job.can_retry(now) && !job.is_available_for_processing(
            now,
        ),
        (job.next_retry_at matches Some(at) && now.spec_secs() < at.spec_secs()) ==> {
            &&& !job.can_retry(now)
            &&& !job.is_available_for_processing(now)
            &&& job.processing_refusal(now) == Some(ImageJobTransitionError::RetryNotAllowed)
        },
        (job.attempts < job.max_attempts && (job.next_retry_at matches Some(at) && at.spec_secs()
            < now.spec_secs())) ==> job.can_retry(now) && job.is_available_for_processing(now),
        (job.attempts < job.max_attempts && (job.next_retry_at matches Some(at) && at == now))
            ==> job.can_retry(now),
        job.attempts < job.max_attempts && job.next_retry_at is None ==> job.can_retry(now),
{
    if let Some(at) = job.next_retry_at {
        crate::timestamp::lemma_chronological_order(at, now, now);
    }
}

/// A failure that uses up the last attempt clears the retry time, and the job is
/// then never available again, whatever the time.
pub proof fn lemma_last_failure_stops_retries(
    job: ImageJobModel,
    error: Seq<char>,
    next_retry_at: Option<Timestamp>,
    now: Timestamp,
    later: Timestamp,
)
    requires
        job.status == ImageJobStatus::Processing,
        job.attempts < u32::MAX,
        job.attempts + 1 >= job.max_attempts,
    ensures
        job.failed(error, next_retry_at, now).next_retry_at is None,
        !job.failed(error, next_retry_at, now).can_retry(later),
        !job.failed(error, next_retry_at, now).is_available_for_processing(later),
{
}

/// A failure with attempts left keeps the proposed retry time, and the job becomes
/// available again from that time on.
pub proof fn lemma_failure_with_attempts_left_retries(
    job: ImageJobModel,
    error: Seq<char>,
    retry_at: Timestamp,
    now: Timestamp,
    later: Timestamp,
)
    requires
        job.status == ImageJobStatus::Processing,
        job.attempts + 1 < job.max_attempts,
    ensures
        job.failed(error, Some(retry_at), now).next_retry_at == Some(retry_at),
        job.failed(error, Some(retry_at), now).is_available_for_processing(later)
            <==> retry_at.spec_le(later),
{
}

} // verus!
