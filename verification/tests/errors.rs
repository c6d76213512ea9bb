use zel_core::text::decimal;
use zel_core::{ErrorProfile, ErrorSeverity, ResourceError, ResourceResultExt, ServiceError};

#[test]
fn resource_error_texts() {
    assert_eq!(ResourceError::ServiceNotFound { service: "s".into() }.text(), "Service 's' not found");
    assert_eq!(
        ResourceError::SerializationError("eof".into()).text(),
        "Serialization error: eof"
    );
    assert_eq!(
        ResourceError::CircuitBreakerOpen { peer_id: "abc".into() }.text(),
        "Circuit breaker open for peer abc"
    );
    assert_eq!(
        ResourceError::app(ErrorProfile::from_message("bad")).text(),
        "Callback execution failed: bad"
    );
}

#[test]
fn severities() {
    assert_eq!(
        ResourceError::CircuitBreakerOpen { peer_id: "p".into() }.severity(),
        ErrorSeverity::Infrastructure
    );
    assert_eq!(ResourceError::ServiceNotFound { service: "s".into() }.severity(), ErrorSeverity::Application);
    assert_eq!(ResourceError::system(ErrorProfile::from_message("x")).severity(), ErrorSeverity::SystemFailure);
    assert_eq!(ServiceError::Infrastructure("x".into()).severity(), ErrorSeverity::Infrastructure);
    assert_eq!(ServiceError::SystemFailure("down".into()).text(), "System failure: down");
}

#[test]
fn service_error_from_failure_classifies() {
    let e = ServiceError::from_error(ErrorProfile::from_io_error("reset"));
    assert!(matches!(e, ServiceError::Infrastructure(ref m) if m == "reset"));
    let e = ServiceError::from_error(ErrorProfile::from_message("nope"));
    assert!(matches!(e, ServiceError::Application(ref m) if m == "nope"));
}

#[test]
fn result_mapping() {
    let r: Result<u8, ErrorProfile> = Err(ErrorProfile::from_message("boom"));
    match r.to_infra_error() {
        Err(ResourceError::CallbackError { message, severity, context }) => {
            assert_eq!(message, "boom");
            assert_eq!(severity, ErrorSeverity::Infrastructure);
            assert!(context.is_none());
        }
        other => panic!("unexpected {other:?}"),
    }
    let ok: Result<u8, ErrorProfile> = Ok(4);
    assert!(matches!(ok.to_system_error(), Ok(4)));
    let r: Result<u8, ErrorProfile> = Err(ErrorProfile::from_message("v"));
    assert!(matches!(r.to_app_error(), Err(ResourceError::CallbackError { severity: ErrorSeverity::Application, .. })));
}

#[test]
fn decimal_rendering() {
    assert_eq!(decimal(0), "0");
    assert_eq!(decimal(7), "7");
    assert_eq!(decimal(1234), "1234");
    assert_eq!(decimal(u64::MAX), "18446744073709551615");
}
