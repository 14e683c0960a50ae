pub mod file_storage;

pub use file_storage::{build_original_path, build_thumbnail_path, path_to_string};
