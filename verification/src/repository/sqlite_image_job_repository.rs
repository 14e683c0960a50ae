use vstd::prelude::*;

use crate::domain::image_job::{ImageJob, ImageJobModel};
use crate::domain::status::{status_of_text, status_text, ImageJobStatus};
use crate::ids::{parse_uuid, uuid_hyphenated, uuid_parsed, uuid_to_text};
use crate::repository::{column_decode_error, RepositoryError};
use crate::timestamp::{is_instant, Timestamp};

use sqlx::sqlite::SqliteConnectOptions;

verus! {

/// The first second of year 0 (`0000-01-01T00:00:00Z`).
pub const FIRST_FOUR_DIGIT_YEAR_SECS: i64 = -62167219200i64;

/// The last second of year 9999 (`9999-12-31T23:59:59Z`).
pub const LAST_FOUR_DIGIT_YEAR_SECS: i64 = 253402300799i64;

/// Whether an instant falls in years 0 to 9999, the years that RFC 3339 text can hold.
pub open spec fn in_four_digit_years(t: Timestamp) -> bool {
    FIRST_FOUR_DIGIT_YEAR_SECS <= t.spec_secs() <= LAST_FOUR_DIGIT_YEAR_SECS
}

/// The RFC 3339 text that `chrono`'s `DateTime::<Utc>::to_rfc3339` writes for an instant.
pub uninterp spec fn rfc3339_text(secs: i64, nanos: u32) -> Seq<char>;

/// The instant (UTC seconds and nanoseconds) that `chrono`'s
/// `DateTime::parse_from_rfc3339` reads from a text, if it reads one.
pub uninterp spec fn rfc3339_instant(text: Seq<char>) -> Option<(i64, u32)>;

/// Writes an instant as RFC 3339 text with `chrono::DateTime::<Utc>::to_rfc3339`.
/// Trusted: every `Timestamp` is an instant that `DateTime::from_timestamp`
/// accepts (its documented range), and `parse_from_rfc3339` reads back what
/// `to_rfc3339` writes for the years 0 to 9999 that its four-digit year field holds.
#[verifier::external_body]
fn format_rfc3339(value: Timestamp) -> (res: String)
    ensures
        res@ == rfc3339_text(value.spec_secs(), value.spec_nanos()),
        in_four_digit_years(value) ==> rfc3339_instant(res@) == Some(
            (value.spec_secs(), value.spec_nanos()),
        ),
{
    chrono::DateTime::from_timestamp(value.secs(), value.nanos())
        .expect("every timestamp is an instant that chrono holds")
        .to_rfc3339()
}

/// Reads RFC 3339 text with `chrono::DateTime::parse_from_rfc3339`, as UTC seconds and
/// nanoseconds. Trusted: the result is named by `rfc3339_instant`; a `DateTime<Utc>`
/// always names an instant in `chrono`'s range.
#[verifier::external_body]
fn parse_rfc3339(text: &str) -> (res: Option<(i64, u32)>)
    ensures
        res == rfc3339_instant(text@),
        res matches Some((secs, nanos)) ==> is_instant(secs as int, nanos as int),
{
    match chrono::DateTime::parse_from_rfc3339(text) {
        Ok(parsed) => {
            let utc = parsed.with_timezone(&chrono::Utc);
            Some((utc.timestamp(), utc.timestamp_subsec_nanos()))
        },
        Err(_) => None,
    }
}

/// How to open a SQLite database, carried through unread.
#[verifier::external_type_specification]
#[verifier::external_body]
pub struct ExSqliteConnectOptions(SqliteConnectOptions);

/// Whether `sqlx` reads a text as a SQLite database URL
/// (`SqliteConnectOptions::from_str`).
pub uninterp spec fn sqlite_url_reads(url: Seq<char>) -> bool;

/// Reads a SQLite database URL with `SqliteConnectOptions::from_str`. Trusted: whether
/// it reads is named by `sqlite_url_reads`; the options are opaque.
#[verifier::external_body]
fn parse_sqlite_url(url: &str) -> (res: Result<SqliteConnectOptions, sqlx::Error>)
    ensures
        res is Ok <==> sqlite_url_reads(url@),
{
    url.parse::<SqliteConnectOptions>()
}

/// Sets whether opening creates a missing database file
/// (`SqliteConnectOptions::create_if_missing`). Trusted: nothing is claimed. The
/// options are opaque and `sqlx` offers no way to read the setting back, so the
/// contract leaves unsaid that the result creates a missing file exactly when
/// `create` holds.
#[verifier::external_body]
fn create_if_missing(options: SqliteConnectOptions, create: bool) -> SqliteConnectOptions {
    options.create_if_missing(create)
}

/// The driver's configuration error around another error
/// (`sqlx::Error::config`, a `Configuration` error). Trusted: the value is opaque.
#[verifier::external_body]
fn configuration_error(error: sqlx::Error) -> sqlx::Error {
    sqlx::Error::config(error)
}

/// How to open the job database at `database_url`, creating the file where it is
/// missing; a URL that does not read is a database (configuration) error. The
/// contract states when the URL reads; the creation setting lives in the opaque
/// options and is left unsaid.
pub fn connect_options(database_url: &str) -> (res: Result<SqliteConnectOptions, RepositoryError>)
    ensures
        res is Ok <==> sqlite_url_reads(database_url@),
        res matches Err(e) ==> e is Database,
{
    match parse_sqlite_url(database_url) {
        Ok(options) => Ok(create_if_missing(options, true)),
        Err(error) => Err(RepositoryError::Database(configuration_error(error))),
    }
}

/// One stored row of the `image_jobs` table, column by column.
pub struct ImageJobRecord {
    pub id: String,
    pub original_filename: String,
    pub stored_path: String,
    pub thumbnail_path: Option<String>,
    pub status: String,
    pub attempts: i64,
    pub max_attempts: i64,
    pub last_error: Option<String>,
    pub next_retry_at: Option<String>,
    pub created_at: String,
    pub updated_at: String,
    pub indexed_at: Option<String>,
}

/// What a stored row holds, with its texts as character sequences.
pub struct ImageJobRecordModel {
    pub id: Seq<char>,
    pub original_filename: Seq<char>,
    pub stored_path: Seq<char>,
    pub thumbnail_path: Option<Seq<char>>,
    pub status: Seq<char>,
    pub attempts: i64,
    pub max_attempts: i64,
    pub last_error: Option<Seq<char>>,
    pub next_retry_at: Option<Seq<char>>,
    pub created_at: Seq<char>,
    pub updated_at: Seq<char>,
    pub indexed_at: Option<Seq<char>>,
}

impl View for ImageJobRecord {
    type V = ImageJobRecordModel;

    open spec fn view(&self) -> ImageJobRecordModel {
        ImageJobRecordModel {
            id: self.id@,
            original_filename: self.original_filename@,
            stored_path: self.stored_path@,
            thumbnail_path: self.thumbnail_path.deep_view(),
            status: self.status@,
            attempts: self.attempts,
            max_attempts: self.max_attempts,
            last_error: self.last_error.deep_view(),
            next_retry_at: self.next_retry_at.deep_view(),
            created_at: self.created_at@,
            updated_at: self.updated_at@,
            indexed_at: self.indexed_at.deep_view(),
        }
    }
}

/// The stored text of an optional instant.
pub open spec fn optional_rfc3339_text(value: Option<Timestamp>) -> Option<Seq<char>> {
    match value {
        Some(t) => Some(rfc3339_text(t.spec_secs(), t.spec_nanos())),
        None => None,
    }
}

/// The row that stores a job.
pub open spec fn record_of(job: ImageJobModel) -> ImageJobRecordModel {
    ImageJobRecordModel {
        id: uuid_hyphenated(job.id),
        original_filename: job.original_filename,
        stored_path: job.stored_path,
        thumbnail_path: job.thumbnail_path,
        status: status_text(job.status),
        attempts: job.attempts as i64,
        max_attempts: job.max_attempts as i64,
        last_error: job.last_error,
        next_retry_at: optional_rfc3339_text(job.next_retry_at),
        created_at: rfc3339_text(job.created_at.spec_secs(), job.created_at.spec_nanos()),
        updated_at: rfc3339_text(job.updated_at.spec_secs(), job.updated_at.spec_nanos()),
        indexed_at: optional_rfc3339_text(job.indexed_at),
    }
}

/// Why a stored row does not read as a job.
pub enum RowFailure {
    /// The `id` column holds no UUID.
    InvalidUuid(Seq<char>),
    /// The `status` column holds no status.
    InvalidStatus(Seq<char>),
    /// The named counter column does not fit an unsigned 32-bit integer.
    CounterOutOfRange(Seq<char>),
    /// The named time column holds no RFC 3339 instant.
    InvalidDateTime(Seq<char>, Seq<char>),
}

/// The instant read from a time column's text, if any.
pub open spec fn instant_of_text(text: Seq<char>) -> Option<Timestamp> {
    match rfc3339_instant(text) {
        Some((secs, nanos)) => Some(Timestamp::from_parts(secs as int, nanos as int)),
        None => None,
    }
}

/// Whether an optional time column's text reads (an absent value always does).
pub open spec fn optional_reads(text: Option<Seq<char>>) -> bool {
    match text {
        Some(t) => instant_of_text(t) is Some,
        None => true,
    }
}

/// The optional instant read from an optional time column.
pub open spec fn optional_instant(text: Option<Seq<char>>) -> Option<Timestamp> {
    match text {
        Some(t) => instant_of_text(t),
        None => None,
    }
}

/// Whether a counter column fits an unsigned 32-bit integer.
pub open spec fn counter_fits(value: i64) -> bool {
    0 <= value <= u32::MAX
}

/// How a stored row reads: the columns are checked in the order id, status,
/// attempts, max_attempts, created_at, updated_at, next_retry_at, indexed_at,
/// and the first that fails decides the error.
pub open spec fn decode_record(row: ImageJobRecordModel) -> Result<ImageJobModel, RowFailure> {
    if uuid_parsed(row.id) is None {
        Err(RowFailure::InvalidUuid(row.id))
    } else if status_of_text(row.status) is None {
        Err(RowFailure::InvalidStatus(row.status))
    } else if !counter_fits(row.attempts) {
        Err(RowFailure::CounterOutOfRange("attempts"@))
    } else if !counter_fits(row.max_attempts) {
        Err(RowFailure::CounterOutOfRange("max_attempts"@))
    } else if instant_of_text(row.created_at) is None {
        Err(RowFailure::InvalidDateTime("created_at"@, row.created_at))
    } else if instant_of_text(row.updated_at) is None {
        Err(RowFailure::InvalidDateTime("updated_at"@, row.updated_at))
    } else if !optional_reads(row.next_retry_at) {
        Err(RowFailure::InvalidDateTime("next_retry_at"@, row.next_retry_at->0))
    } else if !optional_reads(row.indexed_at) {
        Err(RowFailure::InvalidDateTime("indexed_at"@, row.indexed_at->0))
    } else {
        Ok(
            ImageJobModel {
                id: uuid_parsed(row.id)->0,
                original_filename: row.original_filename,
                stored_path: row.stored_path,
                thumbnail_path: row.thumbnail_path,
                status: status_of_text(row.status)->0,
                attempts: row.attempts as u32,
                max_attempts: row.max_attempts as u32,
                last_error: row.last_error,
                next_retry_at: optional_instant(row.next_retry_at),
                created_at: instant_of_text(row.created_at)->0,
                updated_at: instant_of_text(row.updated_at)->0,
                indexed_at: optional_instant(row.indexed_at),
            },
        )
    }
}

/// Each column of a stored row holds the job's field of the same name, and reading
/// a row takes each field from its own column: the creation time from `created_at`,
/// the last update from `updated_at`, and so on.
pub proof fn lemma_columns_hold_their_fields(job: ImageJobModel, row: ImageJobRecordModel)
    ensures
        record_of(job).id == uuid_hyphenated(job.id),
        record_of(job).status == status_text(job.status),
        record_of(job).attempts == job.attempts,
        record_of(job).max_attempts == job.max_attempts,
        record_of(job).next_retry_at == optional_rfc3339_text(job.next_retry_at),
        record_of(job).created_at == rfc3339_text(job.created_at.spec_secs(), job.created_at.spec_nanos()),
        record_of(job).updated_at == rfc3339_text(job.updated_at.spec_secs(), job.updated_at.spec_nanos()),
        record_of(job).indexed_at == optional_rfc3339_text(job.indexed_at),
        decode_record(row) matches Ok(j) ==> {
            &&& uuid_parsed(row.id) == Some(j.id)
            &&& status_of_text(row.status) == Some(j.status)
            &&& j.attempts == row.attempts
            &&& j.max_attempts == row.max_attempts
            &&& optional_instant(row.next_retry_at) == j.next_retry_at
            &&& instant_of_text(row.created_at) == Some(j.created_at)
            &&& instant_of_text(row.updated_at) == Some(j.updated_at)
            &&& optional_instant(row.indexed_at) == j.indexed_at
        },
{
}

/// Whether a repository error reports a row failure.
pub open spec fn reports(error: RepositoryError, failure: RowFailure) -> bool {
    match failure {
        RowFailure::InvalidUuid(value) => error matches RepositoryError::InvalidUuid(v) && v@ == value,
        RowFailure::InvalidStatus(value) => error matches RepositoryError::InvalidStatus(v) && v@
            == value,
        RowFailure::CounterOutOfRange(_) => error is Database,
        RowFailure::InvalidDateTime(field, value) => error matches RepositoryError::InvalidDateTime {
            field: f,
            value: v,
        } && f@ == field && v@ == value,
    }
}

/// Whether every time of a job falls in the years that RFC 3339 text can hold.
pub open spec fn times_in_four_digit_years(job: ImageJobModel) -> bool {
    &&& in_four_digit_years(job.created_at)
    &&& in_four_digit_years(job.updated_at)
    &&& (job.next_retry_at matches Some(t) ==> in_four_digit_years(t))
    &&& (job.indexed_at matches Some(t) ==> in_four_digit_years(t))
}

/// The stored text of an instant.
pub fn datetime_to_string(value: Timestamp) -> (res: String)
    ensures
        res@ == rfc3339_text(value.spec_secs(), value.spec_nanos()),
        in_four_digit_years(value) ==> instant_of_text(res@) == Some(value),
{
    let text = format_rfc3339(value);
    proof {
        value.lemma_parts(value.spec_secs() as int, value.spec_nanos() as int);
    }
    text
}

/// The stored text of an optional instant.
pub fn optional_datetime_to_string(value: Option<Timestamp>) -> (res: Option<String>)
    ensures
        res.deep_view() == optional_rfc3339_text(value),
        (value matches Some(t) && in_four_digit_years(t)) ==> optional_instant(res.deep_view())
            == value,
{
    match value {
        Some(datetime) => Some(datetime_to_string(datetime)),
        None => None,
    }
}

/// Reads the instant stored in the time column `field`; text that holds none is an
/// error that names the column and carries the text.
pub fn parse_datetime(field: &str, value: &str) -> (res: Result<Timestamp, RepositoryError>)
    ensures
        match instant_of_text(value@) {
            Some(t) => res == Ok::<Timestamp, RepositoryError>(t),
            None => res matches Err(e) && reports(e, RowFailure::InvalidDateTime(field@, value@)),
        },
{
    match parse_rfc3339(value) {
        Some((secs, nanos)) => {
            let parsed = Timestamp::new(secs, nanos);
            let instant = parsed.unwrap();
            proof {
                instant.lemma_parts(secs as int, nanos as int);
            }
            Ok(instant)
        },
        None => Err(RepositoryError::InvalidDateTime { field: field.to_owned(), value: value.to_owned() }),
    }
}

/// Reads the instant of an optional time column.
fn parse_optional_datetime(field: &str, value: Option<String>) -> (res: Result<Option<Timestamp>, RepositoryError>)
    ensures
        optional_reads(value.deep_view()) ==> res == Ok::<Option<Timestamp>, RepositoryError>(
            optional_instant(value.deep_view()),
        ),
        !optional_reads(value.deep_view()) ==> (res matches Err(e) && reports(
            e,
            RowFailure::InvalidDateTime(field@, value.deep_view()->0),
        )),
{
    match value {
        Some(text) => match parse_datetime(field, text.as_str()) {
            Ok(instant) => Ok(Some(instant)),
            Err(error) => Err(error),
        },
        None => Ok(None),
    }
}

/// Reads a counter column as an unsigned 32-bit integer.
fn decode_counter(index: &str, value: i64) -> (res: Result<u32, RepositoryError>)
    ensures
        counter_fits(value) ==> res == Ok::<u32, RepositoryError>(value as u32),
        !counter_fits(value) ==> (res matches Err(e) && e is Database),
{
    if value >= 0 && value <= u32::MAX as i64 {
        Ok(value as u32)
    } else {
        let mut explanation = String::from_str(index);
        explanation.append(" cannot be converted to u32");
        Err(RepositoryError::Database(column_decode_error(index, explanation.as_str())))
    }
}

/// Reads a stored row back into a job (see `decode_record` for the order in which
/// the columns are checked).
pub fn map_row(row: ImageJobRecord) -> (res: Result<ImageJob, RepositoryError>)
    ensures
        match decode_record(row@) {
            Ok(job) => res matches Ok(j) && j@ == job,
            Err(failure) => res matches Err(e) && reports(e, failure),
        },
        res matches Ok(j) ==> {
            &&& uuid_parsed(row.id@) == Some(j.id)
            &&& j.original_filename@ == row.original_filename@
            &&& j.stored_path@ == row.stored_path@
            &&& j.thumbnail_path.deep_view() == row.thumbnail_path.deep_view()
            &&& status_of_text(row.status@) == Some(j.status)
            &&& j.attempts == row.attempts
            &&& j.max_attempts == row.max_attempts
            &&& j.last_error.deep_view() == row.last_error.deep_view()
            &&& optional_instant(row.next_retry_at.deep_view()) == j.next_retry_at
            &&& instant_of_text(row.created_at@) == Some(j.created_at)
            &&& instant_of_text(row.updated_at@) == Some(j.updated_at)
            &&& optional_instant(row.indexed_at.deep_view()) == j.indexed_at
        },
{
    let id = match parse_uuid(row.id.as_str()) {
        Some(parsed) => parsed,
        None => return Err(RepositoryError::InvalidUuid(row.id)),
    };
    let status = match ImageJobStatus::from_str(row.status.as_str()) {
        Ok(parsed) => parsed,
        Err(_) => return Err(RepositoryError::InvalidStatus(row.status)),
    };
    let attempts: u32 = decode_counter("attempts", row.attempts)?;
    let max_attempts: u32 = decode_counter("max_attempts", row.max_attempts)?;
    let created_at = parse_datetime("created_at", row.created_at.as_str())?;
    let updated_at = parse_datetime("updated_at", row.updated_at.as_str())?;
    let next_retry_at = parse_optional_datetime("next_retry_at", row.next_retry_at)?;
    let indexed_at = parse_optional_datetime("indexed_at", row.indexed_at)?;
    proof {
        reveal_strlit("attempts");
        reveal_strlit("max_attempts");
        reveal_strlit("created_at");
        reveal_strlit("updated_at");
        reveal_strlit("next_retry_at");
        reveal_strlit("indexed_at");
    }
    Ok(
        ImageJob {
            id,
            original_filename: row.original_filename,
            stored_path: row.stored_path,
            thumbnail_path: row.thumbnail_path,
            status,
            attempts,
            max_attempts,
            last_error: row.last_error,
            next_retry_at,
            created_at,
            updated_at,
            indexed_at,
        },
    )
}

impl ImageJobRecord {
    /// The row that stores `job`, as `insert` and `save` bind it. Read back with
    /// `map_row`, it gives the job back, provided its times fall in years 0 to 9999.
    pub fn from_job(job: &ImageJob) -> (res: ImageJobRecord)
        ensures
            res@ == record_of(job@),
            res.id@ == uuid_hyphenated(job.id),
            res.original_filename@ == job.original_filename@,
            res.stored_path@ == job.stored_path@,
            res.thumbnail_path.deep_view() == job.thumbnail_path.deep_view(),
            res.status@ == status_text(job.status),
            res.attempts == job.attempts,
            res.max_attempts == job.max_attempts,
            res.last_error.deep_view() == job.last_error.deep_view(),
            res.next_retry_at.deep_view() == optional_rfc3339_text(job.next_retry_at),
            res.created_at@ == rfc3339_text(job.created_at.spec_secs(), job.created_at.spec_nanos()),
            res.updated_at@ == rfc3339_text(job.updated_at.spec_secs(), job.updated_at.spec_nanos()),
            res.indexed_at.deep_view() == optional_rfc3339_text(job.indexed_at),
            times_in_four_digit_years(job@) ==> decode_record(res@) == Ok::<
                ImageJobModel,
                RowFailure,
            >(job@),
    {
        let status_text = job.status.as_str();
        let record = ImageJobRecord {
            id: uuid_to_text(job.id),
            original_filename: job.original_filename.clone(),
            stored_path: job.stored_path.clone(),
            thumbnail_path: clone_optional_text(&job.thumbnail_path),
            status: status_text.to_owned(),
            attempts: job.attempts as i64,
            max_attempts: job.max_attempts as i64,
            last_error: clone_optional_text(&job.last_error),
            next_retry_at: optional_datetime_to_string(job.next_retry_at),
            created_at: datetime_to_string(job.created_at),
            updated_at: datetime_to_string(job.updated_at),
            indexed_at: optional_datetime_to_string(job.indexed_at),
        };
        proof {
            crate::domain::status::lemma_status_text_roundtrip(job.status, record.status@);
        }
        record
    }
}

/// A copy of an optional text.
fn clone_optional_text(value: &Option<String>) -> (res: Option<String>)
    ensures
        res.deep_view() == value.deep_view(),
{
    match value {
        Some(text) => Some(text.clone()),
        None => None,
    }
}

} // verus!
