use walli::errors::AppError;

#[test]
fn retryable_statuses() {
    let http = |s: Option<u16>| AppError::Http { status: s, message: "m".to_string() };
    assert!(!http(Some(400)).is_retryable());
    assert!(!http(Some(404)).is_retryable());
    assert!(!http(Some(499)).is_retryable());
    assert!(http(Some(408)).is_retryable());
    assert!(http(Some(429)).is_retryable());
    assert!(http(Some(500)).is_retryable());
    assert!(http(Some(399)).is_retryable());
    assert!(http(None).is_retryable());
    assert!(AppError::NotFound.is_retryable());
    assert!(AppError::Io("x".to_string()).is_retryable());
}

#[test]
fn error_texts() {
    assert_eq!(AppError::Io("disk".to_string()).to_string(), "io: disk");
    assert_eq!(AppError::Db("locked".to_string()).to_string(), "db: locked");
    assert_eq!(
        AppError::Http { status: Some(404), message: "gone".to_string() }.to_string(),
        "http Some(404): gone"
    );
    assert_eq!(AppError::Http { status: None, message: "timeout".to_string() }.to_string(), "http None: timeout");
    assert_eq!(AppError::NotFound.to_string(), "not found");
    assert_eq!(AppError::Invalid("no image url".to_string()).to_string(), "invalid: no image url");
    assert_eq!(AppError::Internal("boom".to_string()).to_string(), "internal: boom");
}
