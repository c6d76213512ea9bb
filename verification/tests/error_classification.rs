use std::io;

use zel_core::classification::ErrorClassificationExt;
use zel_core::{ErrorClassifier, ErrorProfile, ErrorSeverity};

#[test]
fn test_system_failure_marker() {
    let error = ErrorProfile::from_message("Database failed").as_system_failure();

    let classifier = ErrorClassifier::default();
    assert_eq!(classifier.classify(&error), ErrorSeverity::SystemFailure);
}

#[test]
fn test_application_error() {
    let error = ErrorProfile::from_message("User not found").as_application_error();

    let classifier = ErrorClassifier::default();
    assert_eq!(classifier.classify(&error), ErrorSeverity::Application);
}

#[test]
fn test_infrastructure_error_detection() {
    let io_error = io::Error::new(io::ErrorKind::ConnectionRefused, "Connection timeout");
    let error = ErrorProfile::from_io(&io_error);

    let classifier = ErrorClassifier::default();
    assert_eq!(classifier.classify(&error), ErrorSeverity::Infrastructure);
}

#[test]
fn test_io_error_detection() {
    let io_error = io::Error::new(io::ErrorKind::ConnectionReset, "reset");
    let error = ErrorProfile::from_io(&io_error);

    let classifier = ErrorClassifier::default();
    assert_eq!(classifier.classify(&error), ErrorSeverity::Infrastructure);
}

#[test]
fn error_classification_test_all_errors_classifier() {
    let error = ErrorProfile::from_message("Any error");

    let classifier = ErrorClassifier::AllErrors;
    assert_eq!(classifier.classify(&error), ErrorSeverity::SystemFailure);
}

#[test]
fn error_classification_test_custom_classifier() {
    let classifier = ErrorClassifier::custom(|error: &ErrorProfile| {
        if error.message.contains("critical") {
            ErrorSeverity::SystemFailure
        } else {
            ErrorSeverity::Application
        }
    });

    let critical = ErrorProfile::from_message("critical failure");
    let normal = ErrorProfile::from_message("normal error");

    assert_eq!(classifier.classify(&critical), ErrorSeverity::SystemFailure);
    assert_eq!(classifier.classify(&normal), ErrorSeverity::Application);
}

#[test]
fn io_error_message_is_kept() {
    let io_error = io::Error::new(io::ErrorKind::Other, "disk unplugged");
    let error = ErrorProfile::from_io(&io_error);
    assert_eq!(error.message, "disk unplugged");
    assert!(error.infrastructure);
    assert!(!error.system_failure);
}

#[test]
fn marker_text_prefixes_message() {
    let error = ErrorProfile::from_message("DB down").as_system_failure();
    assert_eq!(error.message, "System failure: DB down");
    assert!(error.system_failure);
}

#[test]
fn timeout_is_infrastructure() {
    let error = ErrorProfile::from_timeout();
    assert_eq!(error.message, "deadline has elapsed");
    assert_eq!(ErrorClassifier::default().classify(&error), ErrorSeverity::Infrastructure);
}

#[test]
fn as_infrastructure_drops_the_mark() {
    let error = ErrorProfile::from_message("x").as_system_failure().as_infrastructure();
    assert_eq!(error.message, "System failure: x");
    assert_eq!(ErrorClassifier::default().classify(&error), ErrorSeverity::Infrastructure);
}

#[test]
fn io_failure_marked_as_application_is_application() {
    let io_error = io::Error::new(io::ErrorKind::ConnectionRefused, "refused");
    let error = ErrorProfile::from_io(&io_error).as_application_error();
    assert_eq!(error.message, "refused");
    assert_eq!(ErrorClassifier::default().classify(&error), ErrorSeverity::Application);
}

#[test]
fn system_failure_keeps_its_cause() {
    let error = ErrorProfile::from_message("Database failed").as_system_failure();
    let cause = error.source.as_ref().expect("the marked failure keeps its cause");
    assert_eq!(cause.message, "Database failed");
    assert!(!cause.system_failure);
}

#[test]
fn as_infrastructure_is_an_io_error_of_kind_other() {
    let error = ErrorProfile::from_message("x").as_system_failure().as_infrastructure();
    assert_eq!(error.io_kind.as_deref(), Some("Other"));
    assert!(error.source.is_none());
}

#[test]
fn io_failure_records_its_kind() {
    let io_error = io::Error::new(io::ErrorKind::ConnectionRefused, "refused");
    let error = ErrorProfile::from_io(&io_error);
    assert_eq!(error.io_kind.as_deref(), Some("ConnectionRefused"));
    assert_eq!(error.message, "refused");
}

#[test]
fn context_wraps_the_failure_as_its_source() {
    let io_error = io::Error::new(io::ErrorKind::BrokenPipe, "pipe");
    let error = ErrorProfile::from_io(&io_error).context("while sending");
    assert_eq!(error.message, "while sending");
    assert_eq!(error.source.as_ref().map(|s| s.message.as_str()), Some("pipe"));
    assert_eq!(ErrorClassifier::default().classify(&error), ErrorSeverity::Infrastructure);
}
