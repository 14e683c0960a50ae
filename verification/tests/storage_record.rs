use chrono::{DateTime, Duration, Utc};

use image_indexer::domain::{ImageJob, ImageJobStatus};
use image_indexer::repository::sqlite_image_job_repository::{
    connect_options, datetime_to_string, map_row, optional_datetime_to_string, parse_datetime, ImageJobRecord,
};
use image_indexer::repository::RepositoryError;
use image_indexer::timestamp::{Timestamp, MAX_TIMESTAMP_SECS, MIN_TIMESTAMP_SECS};

fn at(instant: DateTime<Utc>) -> Timestamp {
    Timestamp::new(instant.timestamp(), instant.timestamp_subsec_nanos()).unwrap()
}

fn sample_job(now: Timestamp) -> ImageJob {
    ImageJob::new(
        "image.jpg".to_string(),
        "storage/originals/image.jpg".to_string(),
        3,
        now,
    )
}

fn assert_same_job(a: &ImageJob, b: &ImageJob) {
    assert_eq!(a.id, b.id);
    assert_eq!(a.original_filename, b.original_filename);
    assert_eq!(a.stored_path, b.stored_path);
    assert_eq!(a.thumbnail_path, b.thumbnail_path);
    assert_eq!(a.status, b.status);
    assert_eq!(a.attempts, b.attempts);
    assert_eq!(a.max_attempts, b.max_attempts);
    assert_eq!(a.last_error, b.last_error);
    assert_eq!(a.next_retry_at, b.next_retry_at);
    assert_eq!(a.created_at, b.created_at);
    assert_eq!(a.updated_at, b.updated_at);
    assert_eq!(a.indexed_at, b.indexed_at);
}

#[test]
fn stored_record_reads_back_as_the_same_job() {
    let instant = Utc::now();
    let now = at(instant);
    let mut job = sample_job(now);
    let fresh = map_row(ImageJobRecord::from_job(&job)).unwrap();
    assert_same_job(&fresh, &job);

    job.mark_processing(now).unwrap();
    job.mark_failed("temporary failure".to_string(), Some(at(instant + Duration::seconds(10))), now).unwrap();
    let failed = map_row(ImageJobRecord::from_job(&job)).unwrap();
    assert_same_job(&failed, &job);

    job.mark_processing(at(instant + Duration::seconds(11))).unwrap();
    job.mark_done("storage/thumbnails/image.png".to_string(), at(instant + Duration::seconds(12))).unwrap();
    let done = map_row(ImageJobRecord::from_job(&job)).unwrap();
    assert_same_job(&done, &job);
    assert_eq!(done.status, ImageJobStatus::Done);
}

#[test]
fn record_columns_hold_the_stored_texts() {
    let now = at(DateTime::parse_from_rfc3339("2026-05-11T08:22:38.364570100Z").unwrap().with_timezone(&Utc));
    let job = ImageJob::pending(
        0x33ec0cc1_9147_4129_a2df_4f4afa1eb497,
        "image.jpg".to_string(),
        "stored".to_string(),
        3,
        now,
    );
    let record = ImageJobRecord::from_job(&job);
    assert_eq!(record.id, "33ec0cc1-9147-4129-a2df-4f4afa1eb497");
    assert_eq!(record.status, "pending");
    assert_eq!(record.attempts, 0);
    assert_eq!(record.max_attempts, 3);
    assert_eq!(record.created_at, "2026-05-11T08:22:38.364570100+00:00");
    assert_eq!(record.next_retry_at, None);
    assert_eq!(record.thumbnail_path, None);
}

#[test]
fn datetimes_are_written_in_rfc3339() {
    let t = Timestamp::new(0, 0).unwrap();
    assert_eq!(datetime_to_string(t), "1970-01-01T00:00:00+00:00");
    assert_eq!(optional_datetime_to_string(Some(Timestamp::new(1, 500_000_000).unwrap())), Some("1970-01-01T00:00:01.500+00:00".to_string()));
    assert_eq!(optional_datetime_to_string(None), None);
    assert_eq!(parse_datetime("created_at", "1970-01-01T00:00:01.5+00:00").unwrap(), Timestamp::new(1, 500_000_000).unwrap());
    assert_eq!(parse_datetime("created_at", "1970-01-01T01:00:00+01:00").unwrap(), t);
}

#[test]
fn unreadable_datetime_names_its_column() {
    match parse_datetime("updated_at", "yesterday") {
        Err(RepositoryError::InvalidDateTime { field, value }) => {
            assert_eq!(field, "updated_at");
            assert_eq!(value, "yesterday");
        }
        other => panic!("unexpected {:?}", other),
    }
}

fn good_record() -> ImageJobRecord {
    ImageJobRecord::from_job(&sample_job(at(Utc::now())))
}

#[test]
fn rows_report_the_first_unreadable_column() {
    let mut bad_id = good_record();
    bad_id.id = "not-a-uuid".to_string();
    bad_id.status = "unknown".to_string();
    match map_row(bad_id) {
        Err(RepositoryError::InvalidUuid(value)) => assert_eq!(value, "not-a-uuid"),
        other => panic!("unexpected {:?}", other),
    }

    let mut bad_status = good_record();
    bad_status.status = "unknown".to_string();
    bad_status.attempts = -1;
    match map_row(bad_status) {
        Err(RepositoryError::InvalidStatus(value)) => assert_eq!(value, "unknown"),
        other => panic!("unexpected {:?}", other),
    }

    let mut bad_attempts = good_record();
    bad_attempts.attempts = -1;
    let error = map_row(bad_attempts).unwrap_err();
    assert!(matches!(error, RepositoryError::Database(_)));
    assert!(error.message().starts_with("database error: "));
    assert!(error.message().contains("attempts cannot be converted to u32"));

    let mut bad_max = good_record();
    bad_max.max_attempts = i64::from(u32::MAX) + 1;
    assert!(matches!(map_row(bad_max), Err(RepositoryError::Database(_))));

    let mut bad_retry = good_record();
    bad_retry.next_retry_at = Some("soon".to_string());
    match map_row(bad_retry) {
        Err(RepositoryError::InvalidDateTime { field, value }) => {
            assert_eq!(field, "next_retry_at");
            assert_eq!(value, "soon");
        }
        other => panic!("unexpected {:?}", other),
    }
}

#[test]
fn uuid_text_of_any_case_reads() {
    let mut record = good_record();
    record.id = "33EC0CC1-9147-4129-A2DF-4F4AFA1EB497".to_string();
    let job = map_row(record).unwrap();
    assert_eq!(job.id, 0x33ec0cc1_9147_4129_a2df_4f4afa1eb497);
}

#[test]
fn repository_error_messages() {
    assert_eq!(RepositoryError::InvalidUuid("x".to_string()).message(), "invalid uuid in database: x");
    assert_eq!(RepositoryError::InvalidStatus("y".to_string()).message(), "invalid image status in database: y");
    assert_eq!(
        RepositoryError::InvalidDateTime { field: "created_at".to_string(), value: "z".to_string() }.message(),
        "invalid datetime in database field `created_at`: z"
    );
}

#[test]
fn database_urls_are_read_and_bad_ones_are_database_errors() {
    assert!(connect_options("sqlite::memory:").is_ok());
    assert!(connect_options("sqlite://image-indexer-demo.db").is_ok());
    match connect_options("sqlite://%FF") {
        Err(error) => {
            assert!(matches!(error, RepositoryError::Database(_)));
            assert!(error.message().starts_with("database error: "));
        }
        Ok(_) => panic!("expected an invalid URL to be refused"),
    }
}

#[test]
fn timestamps_cover_exactly_chronos_range() {
    assert_eq!(DateTime::<Utc>::MIN_UTC.timestamp(), MIN_TIMESTAMP_SECS);
    assert_eq!(DateTime::<Utc>::MAX_UTC.timestamp(), MAX_TIMESTAMP_SECS);
    assert!(DateTime::from_timestamp(MIN_TIMESTAMP_SECS - 86_400, 0).is_none());
    assert_eq!(at(DateTime::<Utc>::MIN_UTC).secs(), MIN_TIMESTAMP_SECS);
}
