use vstd::prelude::*;

use crate::repository::RepositoryError;

verus! {

/// Why a request failed.
#[derive(Debug)]
pub enum AppError {
    BadRequest(String),
    NotFound(String),
    Storage(String),
    Repository(RepositoryError),
    Internal,
}

impl AppError {
    /// The error's message, but for a database driver's own text.
    pub open spec fn spec_message_known(&self, message: Seq<char>) -> bool {
        match self {
            AppError::BadRequest(m) => message == "bad request: "@ + m@,
            AppError::NotFound(m) => message == "not found: "@ + m@,
            AppError::Storage(m) => message == "file storage error: "@ + m@,
            AppError::Repository(e) => "repository error: "@.is_prefix_of(message) && e.spec_message_known(
                message.subrange(18, message.len() as int),
            ),
            AppError::Internal => message == "internal server error"@,
        }
    }

    /// The error's message.
    pub fn message(&self) -> (res: String)
        ensures
            self.spec_message_known(res@),
    {
        match self {
            AppError::BadRequest(m) => {
                let mut text = String::from_str("bad request: ");
                text.append(m.as_str());
                text
            },
            AppError::NotFound(m) => {
                let mut text = String::from_str("not found: ");
                text.append(m.as_str());
                text
            },
            AppError::Storage(m) => {
                let mut text = String::from_str("file storage error: ");
                text.append(m.as_str());
                text
            },
            AppError::Repository(e) => {
                let mut text = String::from_str("repository error: ");
                let detail = e.message();
                proof {
                    reveal_strlit("repository error: ");
                }
                text.append(detail.as_str());
                assert(text@.subrange(18, text@.len() as int) =~= detail@);
                text
            },
            AppError::Internal => String::from_str("internal server error"),
        }
    }
}

} // verus!
