use vstd::prelude::*;

use crate::text::str_eq;

verus! {

/// Where an image job stands in its lifecycle.
#[derive(Debug, Clone, Copy, PartialEq, Eq, Structural)]
pub enum ImageJobStatus {
    Pending,
    Processing,
    Done,
    Failed,
}

/// The text under which a status is stored and shown.
pub open spec fn status_text(status: ImageJobStatus) -> Seq<char> {
    match status {
        ImageJobStatus::Pending => "pending"@,
        ImageJobStatus::Processing => "processing"@,
        ImageJobStatus::Done => "done"@,
        ImageJobStatus::Failed => "failed"@,
    }
}

/// The status whose text is `text`, if any.
pub open spec fn status_of_text(text: Seq<char>) -> Option<ImageJobStatus> {
    if text == "pending"@ {
        Some(ImageJobStatus::Pending)
    } else if text == "processing"@ {
        Some(ImageJobStatus::Processing)
    } else if text == "done"@ {
        Some(ImageJobStatus::Done)
    } else if text == "failed"@ {
        Some(ImageJobStatus::Failed)
    } else {
        None
    }
}

impl ImageJobStatus {
    /// Whether no further transition leaves this status.
    pub open spec fn spec_is_terminal(self) -> bool {
        self == ImageJobStatus::Done
    }

    /// Whether no further transition leaves this status: only `Done` is terminal;
    /// a failed job may still be retried.
    pub fn is_terminal(&self) -> (res: bool)
        ensures
            res == self.spec_is_terminal(),
    {
        match self {
            ImageJobStatus::Done => true,
            ImageJobStatus::Failed => false,
            ImageJobStatus::Pending => false,
            ImageJobStatus::Processing => false,
        }
    }

    /// The status's text: `pending`, `processing`, `done` or `failed`.
    pub fn as_str(&self) -> (res: &'static str)
        ensures
            res@ == status_text(*self),
    {
        match self {
            ImageJobStatus::Pending => "pending",
            ImageJobStatus::Processing => "processing",
            ImageJobStatus::Done => "done",
            ImageJobStatus::Failed => "failed",
        }
    }

    /// Reads a status from its text; any other text is an error that carries it.
    pub fn from_str(value: &str) -> (res: Result<ImageJobStatus, ImageJobStatusParseError>)
        ensures
            match status_of_text(value@) {
                Some(status) => res == Ok::<ImageJobStatus, ImageJobStatusParseError>(status),
                None => res matches Err(e) && e.value@ == value@,
            },
    {
        if str_eq(value, "pending") {
            Ok(ImageJobStatus::Pending)
        } else if str_eq(value, "processing") {
            Ok(ImageJobStatus::Processing)
        } else if str_eq(value, "done") {
            Ok(ImageJobStatus::Done)
        } else if str_eq(value, "failed") {
            Ok(ImageJobStatus::Failed)
        } else {
            Err(ImageJobStatusParseError { value: value.to_owned() })
        }
    }
}

/// Reading a status's text gives the status back, and a text that reads as a
/// status is that status's text.
pub proof fn lemma_status_text_roundtrip(status: ImageJobStatus, text: Seq<char>)
    ensures
        status_of_text(status_text(status)) == Some(status),
        status_of_text(text) == Some(status) ==> status_text(status) == text,
{
    reveal_strlit("pending");
    reveal_strlit("processing");
    reveal_strlit("done");
    reveal_strlit("failed");
    // The four texts have different lengths, so no two are equal.
    assert("pending"@.len() == 7);
    assert("processing"@.len() == 10);
    assert("done"@.len() == 4);
    assert("failed"@.len() == 6);
}

/// A text that names no status.
#[derive(Debug, PartialEq, Eq)]
pub struct ImageJobStatusParseError {
    pub value: String,
}

impl ImageJobStatusParseError {
    /// The error's message: `invalid image job status: ` and the text.
    pub fn message(&self) -> (res: String)
        ensures
            res@ == "invalid image job status: "@ + self.value@,
    {
        let mut text = String::from_str("invalid image job status: ");
        text.append(self.value.as_str());
        text
    }
}

} // verus!
