pub mod image_job;
pub mod status;

pub use image_job::{ImageJob, ImageJobModel, ImageJobTransitionError};
pub use status::{ImageJobStatus, ImageJobStatusParseError};
