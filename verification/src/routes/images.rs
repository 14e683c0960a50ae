use vstd::prelude::*;

use crate::domain::image_job::ImageJob;
use crate::error::AppError;
use crate::ids::{uuid_hyphenated, uuid_to_text};
use crate::text::{decimal_text, push_decimal};

verus! {

/// What the upload handler does with the next field of a multipart request.
#[derive(Debug)]
pub enum FieldAction {
    /// Refuse the request with this error.
    Reject(AppError),
    /// Pass over a field that carries no file.
    Skip,
    /// Store the field's content as an upload of this original file name.
    Store(String),
}

/// The error for a second file in one request.
pub open spec fn second_file_message() -> Seq<char> {
    "only one image upload is supported"@
}

/// The next field's fate: a request holds one file; a field after a stored file is
/// refused, and one without a file name (`filename` absent) is passed over.
pub fn upload_field_action(upload_stored: bool, filename: Option<String>) -> (res: FieldAction)
    ensures
        upload_stored ==> (res matches FieldAction::Reject(AppError::BadRequest(m)) && m@
            == second_file_message()),
        !upload_stored ==> match filename {
            Some(name) => res matches FieldAction::Store(n) && n@ == name@,
            None => res is Skip,
        },
{
    if upload_stored {
        return FieldAction::Reject(AppError::BadRequest(String::from_str("only one image upload is supported")));
    }
    match filename {
        Some(name) => FieldAction::Store(name),
        None => FieldAction::Skip,
    }
}

/// The error for an upload over the size limit.
pub open spec fn too_large_message(max_upload_bytes: usize) -> Seq<char> {
    "upload exceeds maximum size of "@ + decimal_text(max_upload_bytes as nat) + " bytes"@
}

/// Counts a received chunk: the bytes written so far, or the error once they pass
/// the limit.
pub fn count_upload_chunk(bytes_written: usize, chunk_len: usize, max_upload_bytes: usize) -> (res: Result<usize, AppError>)
    requires
        bytes_written + chunk_len <= usize::MAX,
    ensures
        bytes_written + chunk_len <= max_upload_bytes ==> res == Ok::<usize, AppError>(
            (bytes_written + chunk_len) as usize,
        ),
        bytes_written + chunk_len > max_upload_bytes ==> (res matches Err(AppError::BadRequest(m))
            && m@ == too_large_message(max_upload_bytes)),
{
    let total: usize = bytes_written + chunk_len;
    if total > max_upload_bytes {
        let mut message = String::from_str("upload exceeds maximum size of ");
        push_decimal(&mut message, max_upload_bytes as u64);
        message.append(" bytes");
        return Err(AppError::BadRequest(message));
    }
    Ok(total)
}

/// The error for a request without a file.
pub open spec fn no_file_message() -> Seq<char> {
    "multipart request did not contain an uploaded file"@
}

/// The request's outcome once its fields are read: the stored job, or an error
/// where no file came.
pub fn uploaded_job(saved_upload: Option<ImageJob>) -> (res: Result<ImageJob, AppError>)
    ensures
        match saved_upload {
            Some(job) => res matches Ok(j) && j@ == job@,
            None => res matches Err(AppError::BadRequest(m)) && m@ == no_file_message(),
        },
{
    match saved_upload {
        Some(job) => Ok(job),
        None => Err(AppError::BadRequest(String::from_str("multipart request did not contain an uploaded file"))),
    }
}

/// The job that was looked up, or the not-found error that names the identifier.
pub fn image_job_or_not_found(id: u128, found: Option<ImageJob>) -> (res: Result<ImageJob, AppError>)
    ensures
        match found {
            Some(job) => res matches Ok(j) && j@ == job@,
            None => res matches Err(AppError::NotFound(m)) && m@ == "image job "@ + uuid_hyphenated(id)
                + " was not found"@,
        },
{
    match found {
        Some(job) => Ok(job),
        None => {
            let mut message = String::from_str("image job ");
            let id_text = uuid_to_text(id);
            message.append(id_text.as_str());
            message.append(" was not found");
            Err(AppError::NotFound(message))
        },
    }
}

} // verus!
