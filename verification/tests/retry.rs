use std::io;
use std::time::Duration;

use zel_core::retry::{check_retry_limits, RetryLimitError};
use zel_core::{ClientError, ErrorPredicate};

#[test]
fn test_error_predicate_network_only() {
    let predicate = ErrorPredicate::NetworkOnly;

    assert!(predicate.is_retryable(&ClientError::Connection("test".into())));
    assert!(predicate.is_retryable(&ClientError::Io(io::Error::new(
        io::ErrorKind::ConnectionReset,
        "test"
    ))));
    assert!(!predicate.is_retryable(&ClientError::Protocol("test".into())));
}

#[test]
fn test_error_predicate_network_and_timeout() {
    let predicate = ErrorPredicate::NetworkAndTimeout;

    assert!(predicate.is_retryable(&ClientError::Connection("test".into())));
    assert!(predicate.is_retryable(&ClientError::Protocol("test".into())));
}

#[test]
fn test_custom_predicate() {
    let predicate = ErrorPredicate::custom(|error: &ClientError| matches!(error, ClientError::Connection(_)));

    assert!(predicate.is_retryable(&ClientError::Connection("test".into())));
    assert!(!predicate.is_retryable(&ClientError::Io(io::Error::new(
        io::ErrorKind::ConnectionReset,
        "test"
    ))));
}

#[test]
fn test_zero_max_attempts_fails() {
    let result = check_retry_limits(
        0,
        Duration::from_millis(100).as_nanos(),
        Duration::from_secs(30).as_nanos(),
    );

    assert!(matches!(result, Err(RetryLimitError::InvalidMaxAttempts(0))));
}

#[test]
fn test_invalid_backoff_range_fails() {
    let result = check_retry_limits(
        3,
        Duration::from_secs(10).as_nanos(),
        Duration::from_secs(5).as_nanos(),
    );

    assert!(matches!(result, Err(RetryLimitError::InvalidBackoffRange { .. })));
    assert_eq!(
        result,
        Err(RetryLimitError::InvalidBackoffRange {
            initial: Duration::from_secs(10).as_nanos(),
            max: Duration::from_secs(5).as_nanos(),
        })
    );
}

#[test]
fn equal_backoffs_are_refused() {
    let d = Duration::from_secs(5).as_nanos();
    assert_eq!(check_retry_limits(1, d, d), Err(RetryLimitError::InvalidBackoffRange { initial: d, max: d }));
}

#[test]
fn test_valid_config_succeeds() {
    let result = check_retry_limits(
        3,
        Duration::from_millis(100).as_nanos(),
        Duration::from_secs(30).as_nanos(),
    );
    assert_eq!(result, Ok(()));
}

#[test]
fn resource_errors_are_not_retried() {
    let error = ClientError::Resource(zel_core::ResourceError::ServiceNotFound { service: "s".into() });
    assert!(!ErrorPredicate::NetworkOnly.is_retryable(&error));
    assert!(!ErrorPredicate::NetworkAndTimeout.is_retryable(&error));
}
