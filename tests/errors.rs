use acled_client::errors::{AppError, ErrorSeverity};

#[test]
fn api_error_renders_status_and_message() {
    let e = AppError::api(429, "Rate limit exceeded");
    assert_eq!(e.to_string(), "API Error (429): Rate limit exceeded");
    assert_eq!(e, AppError::Api { status: 429, message: "Rate limit exceeded".to_string() });
}

#[test]
fn every_kind_renders_with_its_prefix() {
    assert_eq!(AppError::network("offline").to_string(), "Network Error: offline");
    assert_eq!(
        AppError::validation("country", "Country is required").to_string(),
        "Validation Error on country: Country is required"
    );
    assert_eq!(AppError::storage("full").to_string(), "Storage Error: full");
    assert_eq!(AppError::serialization("bad").to_string(), "Serialization Error: bad");
    assert_eq!(AppError::unknown("?").to_string(), "Unknown Error: ?");
    assert_eq!(AppError::api(0, "").to_string(), "API Error (0): ");
}

#[test]
fn only_network_and_api_errors_are_recoverable() {
    assert!(AppError::network("x").is_recoverable());
    assert!(AppError::api(500, "x").is_recoverable());
    assert!(!AppError::validation("f", "x").is_recoverable());
    assert!(!AppError::storage("x").is_recoverable());
    assert!(!AppError::serialization("x").is_recoverable());
    assert!(!AppError::unknown("x").is_recoverable());
}

#[test]
fn severity_follows_kind_and_status() {
    assert_eq!(AppError::api(500, "x").severity(), ErrorSeverity::Critical);
    assert_eq!(AppError::api(503, "x").severity(), ErrorSeverity::Critical);
    assert_eq!(AppError::api(499, "x").severity(), ErrorSeverity::Warning);
    assert_eq!(AppError::network("x").severity(), ErrorSeverity::Warning);
    assert_eq!(AppError::validation("f", "x").severity(), ErrorSeverity::Info);
    assert_eq!(AppError::storage("x").severity(), ErrorSeverity::Error);
    assert_eq!(AppError::serialization("x").severity(), ErrorSeverity::Error);
    assert_eq!(AppError::unknown("x").severity(), ErrorSeverity::Critical);
}
