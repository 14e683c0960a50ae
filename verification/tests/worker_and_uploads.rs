use chrono::{DateTime, Utc};

use image_indexer::domain::{ImageJob, ImageJobStatus, ImageJobTransitionError};
use image_indexer::error::AppError;
use image_indexer::processing::{ProcessingError, ThumbnailProcessor};
use image_indexer::routes::images::{
    count_upload_chunk, image_job_or_not_found, upload_field_action, uploaded_job, FieldAction,
};
use image_indexer::timestamp::Timestamp;
use image_indexer::worker::WorkerConfig;

fn at(instant: DateTime<Utc>) -> Timestamp {
    Timestamp::new(instant.timestamp(), instant.timestamp_subsec_nanos()).unwrap()
}

fn claimed_job(max_attempts: u32, now: Timestamp) -> ImageJob {
    let mut job = ImageJob::new("a.png".to_string(), "storage/originals/a.png".to_string(), max_attempts, now);
    job.mark_processing(now).unwrap();
    job
}

#[test]
fn worker_config_defaults() {
    let config = WorkerConfig::new("storage".to_string(), 3);
    assert_eq!(config.storage_root, "storage");
    assert_eq!(config.idle_sleep_ms, 500);
    assert_eq!(config.retry_policy.backoff_seconds(1), 10);
}

#[test]
fn written_thumbnail_completes_the_job() {
    let now = at(Utc::now());
    let config = WorkerConfig::new("storage".to_string(), 3);
    let mut job = claimed_job(3, now);
    assert_eq!(config.finish_job(&mut job, Ok(()), Ok("t.png".to_string()), now), Ok(()));
    assert_eq!(job.status, ImageJobStatus::Done);
    assert_eq!(job.thumbnail_path, Some("t.png".to_string()));
    assert_eq!(job.indexed_at, Some(now));
}

#[test]
fn processing_error_is_recorded_with_the_policy_backoff() {
    let now = at(Utc::now());
    let config = WorkerConfig::new("storage".to_string(), 3);
    let mut job = claimed_job(3, now);
    let result = config.finish_job(&mut job, Err(ProcessingError::ReadImage("bad header".to_string())), Ok("t.png".to_string()), now);
    assert_eq!(result, Ok(()));
    assert_eq!(job.status, ImageJobStatus::Failed);
    assert_eq!(job.attempts, 1);
    assert_eq!(job.last_error, Some("failed to read image: bad header".to_string()));
    assert_eq!(job.next_retry_at.unwrap().secs() - now.secs(), 10);

    job.mark_processing(job.next_retry_at.unwrap()).unwrap();
    config.mark_job_failed(&mut job, "again".to_string(), now).unwrap();
    assert_eq!(job.attempts, 2);
    assert_eq!(job.next_retry_at.unwrap().secs() - now.secs(), 30);

    job.mark_processing(job.next_retry_at.unwrap()).unwrap();
    config.mark_job_failed(&mut job, "last".to_string(), now).unwrap();
    assert_eq!(job.attempts, 3);
    assert_eq!(job.next_retry_at, None);
    assert_eq!(job.can_retry(now), false);
}

#[test]
fn path_without_text_is_recorded_as_a_failure() {
    let now = at(Utc::now());
    let config = WorkerConfig::new("storage".to_string(), 3);
    let mut job = claimed_job(3, now);
    let result = config.finish_job(
        &mut job,
        Ok(()),
        Err(AppError::Storage("path contains invalid UTF-8".to_string())),
        now,
    );
    assert_eq!(result, Ok(()));
    assert_eq!(
        job.last_error,
        Some("failed to convert thumbnail path to string: file storage error: path contains invalid UTF-8".to_string())
    );
}

#[test]
fn finishing_a_job_that_is_not_processing_is_refused() {
    let now = at(Utc::now());
    let config = WorkerConfig::new("storage".to_string(), 3);
    let mut job = ImageJob::new("a.png".to_string(), "p".to_string(), 3, now);
    assert_eq!(config.finish_job(&mut job, Ok(()), Ok("t".to_string()), now), Err(ImageJobTransitionError::NotProcessing));
    assert_eq!(config.finish_job(&mut job, Err(ProcessingError::TaskJoin("x".to_string())), Ok("t".to_string()), now), Err(ImageJobTransitionError::NotProcessing));
    assert_eq!(job.status, ImageJobStatus::Pending);
    assert_eq!(job.attempts, 0);
}

#[test]
fn error_messages() {
    assert_eq!(ProcessingError::WriteImage("disk full".to_string()).message(), "failed to write image: disk full");
    assert_eq!(ProcessingError::TaskJoin("panic".to_string()).message(), "processing task failed: panic");
    assert_eq!(ImageJobTransitionError::NotProcessing.message(), "image job must be processing before it can be completed or failed");
    assert_eq!(ImageJobTransitionError::RetryNotAllowed.message(), "image job is not eligible for retry yet");
    assert_eq!(AppError::BadRequest("x".to_string()).message(), "bad request: x");
    assert_eq!(AppError::NotFound("y".to_string()).message(), "not found: y");
    assert_eq!(AppError::Internal.message(), "internal server error");
}

#[test]
fn thumbnail_processor_sizes() {
    let processor = ThumbnailProcessor::default_64x64();
    assert_eq!((processor.width(), processor.height()), (64, 64));
    let processor = ThumbnailProcessor::new(120, 80);
    assert_eq!((processor.width(), processor.height()), (120, 80));
}

#[test]
fn upload_fields_are_stored_skipped_or_refused() {
    match upload_field_action(false, Some("room.jpg".to_string())) {
        FieldAction::Store(name) => assert_eq!(name, "room.jpg"),
        other => panic!("unexpected {:?}", other),
    }
    assert!(matches!(upload_field_action(false, None), FieldAction::Skip));
    match upload_field_action(true, Some("second.jpg".to_string())) {
        FieldAction::Reject(AppError::BadRequest(message)) => {
            assert_eq!(message, "only one image upload is supported")
        }
        other => panic!("unexpected {:?}", other),
    }
}

#[test]
fn uploads_over_the_limit_are_refused() {
    assert_eq!(count_upload_chunk(0, 10, 10).unwrap(), 10);
    assert_eq!(count_upload_chunk(4, 3, 10).unwrap(), 7);
    match count_upload_chunk(8, 3, 10) {
        Err(AppError::BadRequest(message)) => assert_eq!(message, "upload exceeds maximum size of 10 bytes"),
        other => panic!("unexpected {:?}", other),
    }
    match count_upload_chunk(10485760, 1, 10485760) {
        Err(AppError::BadRequest(message)) => {
            assert_eq!(message, "upload exceeds maximum size of 10485760 bytes")
        }
        other => panic!("unexpected {:?}", other),
    }
}

#[test]
fn requests_without_a_file_and_missing_jobs_are_errors() {
    match uploaded_job(None) {
        Err(AppError::BadRequest(message)) => {
            assert_eq!(message, "multipart request did not contain an uploaded file")
        }
        other => panic!("unexpected {:?}", other),
    }
    let now = at(Utc::now());
    let job = ImageJob::new("a.png".to_string(), "p".to_string(), 3, now);
    let id = job.id;
    assert_eq!(uploaded_job(Some(job)).unwrap().id, id);
    match image_job_or_not_found(0x33ec0cc1_9147_4129_a2df_4f4afa1eb497, None) {
        Err(AppError::NotFound(message)) => {
            assert_eq!(message, "image job 33ec0cc1-9147-4129-a2df-4f4afa1eb497 was not found")
        }
        other => panic!("unexpected {:?}", other),
    }
}

#[test]
fn thumbnails_fit_within_the_processor_bounds() {
    let source = image::DynamicImage::ImageRgba8(image::ImageBuffer::from_pixel(
        128,
        128,
        image::Rgba([255, 0, 0, 255]),
    ));
    let thumbnail = ThumbnailProcessor::default_64x64().make_thumbnail(&source);
    assert_eq!((thumbnail.width(), thumbnail.height()), (64, 64));
    let wide = image::DynamicImage::ImageRgba8(image::ImageBuffer::from_pixel(
        200,
        100,
        image::Rgba([0, 0, 255, 255]),
    ));
    let thumbnail = ThumbnailProcessor::new(50, 50).make_thumbnail(&wide);
    assert_eq!((thumbnail.width(), thumbnail.height()), (50, 25));
}
