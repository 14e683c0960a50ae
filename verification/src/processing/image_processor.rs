use vstd::prelude::*;

verus! {

/// Why an image could not be turned into a thumbnail.
#[derive(Debug)]
pub enum ProcessingError {
    ReadImage(String),
    WriteImage(String),
    TaskJoin(String),
}

impl ProcessingError {
    /// The error's message.
    pub open spec fn spec_message(&self) -> Seq<char> {
        match self {
            ProcessingError::ReadImage(m) => "failed to read image: "@ + m@,
            ProcessingError::WriteImage(m) => "failed to write image: "@ + m@,
            ProcessingError::TaskJoin(m) => "processing task failed: "@ + m@,
        }
    }

    /// The error's message.
    pub fn message(&self) -> (res: String)
        ensures
            res@ == self.spec_message(),
    {
        let (prefix, detail) = match self {
            ProcessingError::ReadImage(m) => ("failed to read image: ", m),
            ProcessingError::WriteImage(m) => ("failed to write image: ", m),
            ProcessingError::TaskJoin(m) => ("processing task failed: ", m),
        };
        let mut text = String::from_str(prefix);
        text.append(detail.as_str());
        text
    }
}

} // verus!
