use image_indexer::config::Config;
use image_indexer::domain::{ImageJobStatus, ImageJobStatusParseError};

#[test]
fn status_texts_read_back_as_their_status() {
    for status in [
        ImageJobStatus::Pending,
        ImageJobStatus::Processing,
        ImageJobStatus::Done,
        ImageJobStatus::Failed,
    ] {
        assert_eq!(ImageJobStatus::from_str(status.as_str()).unwrap(), status);
    }
    assert_eq!(ImageJobStatus::Pending.as_str(), "pending");
    assert_eq!(ImageJobStatus::Processing.as_str(), "processing");
    assert_eq!(ImageJobStatus::Done.as_str(), "done");
    assert_eq!(ImageJobStatus::Failed.as_str(), "failed");
}

#[test]
fn unknown_status_text_is_an_error_that_carries_it() {
    let error: ImageJobStatusParseError = ImageJobStatus::from_str("Done").unwrap_err();
    assert_eq!(error.value, "Done");
    assert_eq!(error.message(), "invalid image job status: Done");
    assert!(ImageJobStatus::from_str("").is_err());
    assert!(ImageJobStatus::from_str("pending ").is_err());
}

#[test]
fn only_done_is_terminal() {
    assert!(ImageJobStatus::Done.is_terminal());
    assert!(!ImageJobStatus::Failed.is_terminal());
    assert!(!ImageJobStatus::Pending.is_terminal());
    assert!(!ImageJobStatus::Processing.is_terminal());
}

#[test]
fn unset_settings_take_their_defaults() {
    let config = Config::from_env_values(None, None, None, None, None, None);
    assert_eq!(config.host, "127.0.0.1");
    assert_eq!(config.port, 8080);
    assert_eq!(config.database_url, "sqlite://image-indexer-demo.db");
    assert_eq!(config.storage_root, "storage");
    assert_eq!(config.max_attempts, 3);
    assert_eq!(config.max_upload_bytes, 10 * 1024 * 1024);
    assert_eq!(config.bind_address(), "127.0.0.1:8080");
}

#[test]
fn set_settings_are_read_and_unreadable_numbers_fall_back() {
    let config = Config::from_env_values(
        Some("0.0.0.0".to_string()),
        Some("+9090".to_string()),
        Some("sqlite::memory:".to_string()),
        Some("/srv/images".to_string()),
        Some("five".to_string()),
        Some("-1".to_string()),
    );
    assert_eq!(config.host, "0.0.0.0");
    assert_eq!(config.port, 9090);
    assert_eq!(config.database_url, "sqlite::memory:");
    assert_eq!(config.storage_root, "/srv/images");
    assert_eq!(config.max_attempts, 3);
    assert_eq!(config.max_upload_bytes, 10485760);
    assert_eq!(config.bind_address(), "0.0.0.0:9090");

    let overflow = Config::from_env_values(None, Some("65536".to_string()), None, None, Some("7".to_string()), Some("1024".to_string()));
    assert_eq!(overflow.port, 8080);
    assert_eq!(overflow.max_attempts, 7);
    assert_eq!(overflow.max_upload_bytes, 1024);
    assert_eq!(Config::from_env_values(None, Some("".to_string()), None, None, None, None).port, 8080);
    assert_eq!(Config::from_env_values(None, Some(" 80".to_string()), None, None, None, None).port, 8080);
}

#[test]
fn bind_address_writes_the_port_in_decimal() {
    let config = Config::from_settings(Some("localhost".to_string()), Some(0), None, None, None, None);
    assert_eq!(config.bind_address(), "localhost:0");
    let config = Config::from_settings(None, Some(65535), None, None, Some(1), Some(5));
    assert_eq!(config.bind_address(), "127.0.0.1:65535");
    assert_eq!(config.max_attempts, 1);
    assert_eq!(config.max_upload_bytes, 5);
}
