use zel_core::circuit::{breaker_failure_to_resource_error, callback_failure, guard_outcome, outcome_of, unwrap_guarded};
use zel_core::classification::ErrorClassificationExt;
use zel_core::{
    BreakerFailure, CallOutcome, CircuitState, ErrorClassifier, ErrorProfile, ErrorSeverity, PeerId,
    PeerStates, ResourceError, ServiceError,
};

fn peer(n: u8) -> PeerId {
    let mut bytes = [0u8; 32];
    bytes[0] = n;
    bytes[31] = n;
    PeerId::from_bytes(&bytes)
}

#[test]
fn peer_id_words_are_big_endian() {
    let mut bytes = [0u8; 32];
    for (i, b) in bytes.iter_mut().enumerate() {
        *b = i as u8;
    }
    let p = PeerId::from_bytes(&bytes);
    assert_eq!(p.w0, 0x0001020304050607);
    assert_eq!(p.w3, 0x18191a1b1c1d1e1f);
    assert_eq!(p.connection_id(), 0x0001020304050607usize);
}

#[test]
fn application_errors_bypass_the_breaker() {
    let r = guard_outcome::<u32>(Err(ErrorProfile::from_message("User not found")));
    match r {
        Ok(Err(ServiceError::Application(m))) => assert_eq!(m, "User not found"),
        other => panic!("unexpected {other:?}"),
    }
    let r = guard_outcome::<u32>(Err(ErrorProfile::from_message("DB down").as_system_failure()));
    match r {
        Err(ServiceError::SystemFailure(m)) => assert_eq!(m, "System failure: DB down"),
        other => panic!("unexpected {other:?}"),
    }
    let r = guard_outcome::<u32>(Err(ErrorProfile::from_timeout()));
    assert!(matches!(r, Err(ServiceError::Infrastructure(_))));
    assert!(matches!(guard_outcome::<u32>(Ok(7)), Ok(Ok(7))));
}

#[test]
fn unwrapping_the_breaker_answer() {
    let app = ServiceError::Application("bad input".into());
    match unwrap_guarded::<u8>(Ok(Err(app))) {
        Err(BreakerFailure::Operation(ServiceError::Application(m))) => assert_eq!(m, "bad input"),
        other => panic!("unexpected {other:?}"),
    }
    assert!(matches!(unwrap_guarded::<u8>(Ok(Ok(1))), Ok(1)));
    assert!(matches!(unwrap_guarded::<u8>(Err(BreakerFailure::Open)), Err(BreakerFailure::Open)));
}

#[test]
fn observed_states() {
    let mut states = PeerStates::new();
    let (a, b) = (peer(1), peer(2));
    states.record(a, outcome_of::<u8>(&Err(BreakerFailure::Open)), CircuitState::Open);
    states.record(b, outcome_of::<u8>(&Ok(3)), CircuitState::Closed);
    assert!(states.is_open(&a));
    assert_eq!(states.get(&b), Some(CircuitState::Closed));
    assert_eq!(states.open_circuit_count(), 1);
    states.record(a, CallOutcome::Failed, CircuitState::Open);
    assert!(states.is_open(&a));
    states.record(a, CallOutcome::Succeeded, CircuitState::Closed);
    assert_eq!(states.open_circuit_count(), 0);
    states.set(b, CircuitState::HalfOpen);
    assert!(states.is_half_open(&b));
    assert_eq!(states.snapshot().get(&b), Some(CircuitState::HalfOpen));
    assert_eq!(states.get(&peer(9)), None);
}

#[test]
fn handler_errors_keep_their_severity_through_the_breaker() {
    let handler_error = ResourceError::infra(ErrorProfile::from_message("upstream down"));
    let handed = callback_failure(&handler_error);
    assert_eq!(ErrorClassifier::default().classify(&handed), ErrorSeverity::Infrastructure);
    assert_eq!(handed.message, "Callback execution failed: upstream down");

    let system = ResourceError::system(ErrorProfile::from_message("db"));
    let handed = callback_failure(&system);
    assert_eq!(handed.message, "System failure: Callback execution failed: db");
    assert_eq!(ErrorClassifier::default().classify(&handed), ErrorSeverity::SystemFailure);
}

#[test]
fn breaker_failures_reported_to_client() {
    match breaker_failure_to_resource_error(BreakerFailure::Open, "peer-1".into()) {
        ResourceError::CircuitBreakerOpen { peer_id } => assert_eq!(peer_id, "peer-1"),
        other => panic!("unexpected {other:?}"),
    }
    match breaker_failure_to_resource_error(
        BreakerFailure::Operation(ServiceError::Infrastructure("timeout".into())),
        "p".into(),
    ) {
        ResourceError::CallbackError { message, severity, context } => {
            assert_eq!(message, "Infrastructure error: timeout");
            assert_eq!(severity, ErrorSeverity::Infrastructure);
            assert!(context.is_none());
        }
        other => panic!("unexpected {other:?}"),
    }
}

#[test]
fn half_open_breaker_is_reported_half_open() {
    let mut states = PeerStates::new();
    let a = peer(5);
    states.record(a, CallOutcome::Rejected, CircuitState::HalfOpen);
    assert!(states.is_open(&a));
    states.record(a, CallOutcome::Succeeded, CircuitState::HalfOpen);
    assert!(states.is_half_open(&a));
    assert!(!states.is_open(&a));
    states.record(a, CallOutcome::Failed, CircuitState::Open);
    assert!(states.is_half_open(&a));
    states.record(a, CallOutcome::Succeeded, CircuitState::Closed);
    assert_eq!(states.get(&a), Some(CircuitState::Closed));
}

#[test]
fn failed_call_leaves_the_states_unchanged() {
    let mut states = PeerStates::new();
    let a = peer(6);
    states.record(a, CallOutcome::Failed, CircuitState::Closed);
    assert_eq!(states.get(&a), None);
    assert_eq!(states.open_circuit_count(), 0);
    states.record(a, CallOutcome::Rejected, CircuitState::Open);
    states.record(a, CallOutcome::Failed, CircuitState::Closed);
    assert!(states.is_open(&a));
}
