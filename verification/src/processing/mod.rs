pub mod image_processor;
pub mod thumbnail_processor;

pub use image_processor::ProcessingError;
pub use thumbnail_processor::ThumbnailProcessor;
