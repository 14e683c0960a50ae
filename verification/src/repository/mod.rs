pub mod sqlite_image_job_repository;

use vstd::prelude::*;

verus! {

/// The database driver's error, carried through unread.
#[verifier::external_type_specification]
#[verifier::external_body]
pub struct ExSqlxError(sqlx::Error);

/// The message of a database driver error, from its `Display`.
/// Trusted: nothing is claimed of the text.
#[verifier::external_body]
fn database_error_text(error: &sqlx::Error) -> String {
    error.to_string()
}

/// The driver's error for a column whose value cannot be decoded
/// (`sqlx::Error::ColumnDecode`) with the given column name and explanation.
/// Trusted: nothing is claimed. The error is opaque, so the column it names is
/// left unsaid here and in the contracts that carry it.
#[verifier::external_body]
pub(crate) fn column_decode_error(index: &str, explanation: &str) -> sqlx::Error {
    sqlx::Error::ColumnDecode { index: index.to_string(), source: explanation.to_string().into() }
}

/// Why reading or writing image jobs failed.
#[derive(Debug)]
pub enum RepositoryError {
    Database(sqlx::Error),
    InvalidUuid(String),
    InvalidDateTime { field: String, value: String },
    InvalidStatus(String),
}

impl RepositoryError {
    /// The error's message, but for the driver's own text.
    pub open spec fn spec_message_known(&self, message: Seq<char>) -> bool {
        match self {
            RepositoryError::Database(_) => "database error: "@.is_prefix_of(message),
            RepositoryError::InvalidUuid(value) => message == "invalid uuid in database: "@ + value@,
            RepositoryError::InvalidDateTime { field, value } => message
                == "invalid datetime in database field `"@ + field@ + "`: "@ + value@,
            RepositoryError::InvalidStatus(value) => message == "invalid image status in database: "@
                + value@,
        }
    }

    /// The error's message.
    pub fn message(&self) -> (res: String)
        ensures
            self.spec_message_known(res@),
    {
        match self {
            RepositoryError::Database(error) => {
                let mut text = String::from_str("database error: ");
                let detail = database_error_text(error);
                text.append(detail.as_str());
                text
            },
            RepositoryError::InvalidUuid(value) => {
                let mut text = String::from_str("invalid uuid in database: ");
                text.append(value.as_str());
                text
            },
            RepositoryError::InvalidDateTime { field, value } => {
                let mut text = String::from_str("invalid datetime in database field `");
                text.append(field.as_str());
                text.append("`: ");
                text.append(value.as_str());
                text
            },
            RepositoryError::InvalidStatus(value) => {
                let mut text = String::from_str("invalid image status in database: ");
                text.append(value.as_str());
                text
            },
        }
    }
}

} // verus!
