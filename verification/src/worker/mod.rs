pub mod image_indexing_worker;
pub mod retry;


pub use image_indexing_worker::WorkerConfig;
pub use retry::RetryPolicy;
