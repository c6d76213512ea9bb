use zel_core::exchange::{interpret_ack, notification_established, subscription_established};
use zel_core::{
    Body, ClientError, ClientExchange, ExchangeAction, ExchangeEvent, ExchangePhase, NotificationMsg,
    ResourceError, ResourceKind, Response, SubscriptionMsg,
};

fn protocol_text(action: ExchangeAction) -> String {
    match action {
        ExchangeAction::Return(Err(ClientError::Protocol(t))) => t,
        other => panic!("unexpected {other:?}"),
    }
}

fn answered(exchange: &mut ClientExchange) -> ExchangeAction {
    assert!(matches!(exchange.step(ExchangeEvent::Opened), ExchangeAction::SendRequest));
    assert!(matches!(exchange.step(ExchangeEvent::Sent), ExchangeAction::ReadAnswer));
    exchange.step(ExchangeEvent::Answered(Ok(Response { data: vec![] })))
}

#[test]
fn call_returns_the_answer() {
    let mut x = ClientExchange::new(ResourceKind::Rpc, "math".into(), "add".into(), Some(b"[5,3]".to_vec()));
    assert_eq!(x.request().body, Body::Rpc(b"[5,3]".to_vec()));
    x.step(ExchangeEvent::Opened);
    x.step(ExchangeEvent::Sent);
    match x.step(ExchangeEvent::Answered(Ok(Response { data: b"8".to_vec() }))) {
        ExchangeAction::Return(Ok(Some(r))) => assert_eq!(r.data, b"8".to_vec()),
        other => panic!("unexpected {other:?}"),
    }
    assert_eq!(x.current(), ExchangePhase::Done);
}

#[test]
fn request_bodies_by_kind() {
    let x = ClientExchange::new(ResourceKind::Subscription, "s".into(), "r".into(), None);
    assert_eq!(x.request().body, Body::Subscribe);
    let x = ClientExchange::new(ResourceKind::Subscription, "s".into(), "r".into(), Some(vec![1]));
    assert_eq!(x.request().body, Body::Rpc(vec![1]));
    let x = ClientExchange::new(ResourceKind::Notification, "s".into(), "r".into(), None);
    assert_eq!(x.request().body, Body::Notify(vec![]));
    let x = ClientExchange::new(ResourceKind::Stream, "s".into(), "r".into(), Some(vec![9]));
    assert_eq!(x.request().body, Body::Stream(vec![9]));
    assert_eq!(x.request().service, "s");
    assert_eq!(x.request().resource, "r");
}

#[test]
fn subscription_accepts_matching_handshake() {
    let mut x = ClientExchange::new(ResourceKind::Subscription, "calc".into(), "counter".into(), None);
    assert!(matches!(answered(&mut x), ExchangeAction::AcceptUni));
    assert!(matches!(x.step(ExchangeEvent::Accepted), ExchangeAction::ReadHandshake));
    let msg = subscription_established(x.request());
    assert!(matches!(x.step(ExchangeEvent::SubscriptionHandshake(msg)), ExchangeAction::Return(Ok(None))));
}

#[test]
fn subscription_refuses_other_endpoint() {
    let mut x = ClientExchange::new(ResourceKind::Subscription, "calc".into(), "counter".into(), None);
    answered(&mut x);
    x.step(ExchangeEvent::Accepted);
    let msg = SubscriptionMsg::Established { service: "calc".into(), resource: "other".into() };
    assert_eq!(
        protocol_text(x.step(ExchangeEvent::SubscriptionHandshake(msg))),
        "Established message mismatch: expected calc/counter, got calc/other"
    );
}

#[test]
fn subscription_refuses_other_message() {
    let mut x = ClientExchange::new(ResourceKind::Subscription, "a".into(), "b".into(), None);
    answered(&mut x);
    x.step(ExchangeEvent::Accepted);
    assert_eq!(
        protocol_text(x.step(ExchangeEvent::SubscriptionHandshake(SubscriptionMsg::Stopped))),
        "Expected Established message, got something else"
    );
}

#[test]
fn notification_uses_bidi_channel() {
    let mut x = ClientExchange::new(ResourceKind::Notification, "logs".into(), "upload".into(), None);
    assert!(matches!(answered(&mut x), ExchangeAction::AcceptBi));
    x.step(ExchangeEvent::Accepted);
    let msg = notification_established(x.request());
    assert!(matches!(x.step(ExchangeEvent::NotificationHandshake(msg)), ExchangeAction::Return(Ok(None))));
}

#[test]
fn raw_stream_checks_ack_bytes() {
    let mut x = ClientExchange::new(ResourceKind::Stream, "v".into(), "feed".into(), None);
    assert!(matches!(answered(&mut x), ExchangeAction::AcceptBi));
    assert!(matches!(x.step(ExchangeEvent::Accepted), ExchangeAction::ReadStreamAck));
    assert!(matches!(x.step(ExchangeEvent::StreamAck(b'O', b'K')), ExchangeAction::Return(Ok(None))));

    let mut y = ClientExchange::new(ResourceKind::Stream, "v".into(), "feed".into(), None);
    answered(&mut y);
    y.step(ExchangeEvent::Accepted);
    assert_eq!(protocol_text(y.step(ExchangeEvent::StreamAck(b'N', b'O'))), "Invalid stream ACK");
}

#[test]
fn resource_error_reaches_caller() {
    let mut x = ClientExchange::new(ResourceKind::Rpc, "missing".into(), "m".into(), Some(vec![]));
    x.step(ExchangeEvent::Opened);
    x.step(ExchangeEvent::Sent);
    let err = ResourceError::ServiceNotFound { service: "missing".into() };
    match x.step(ExchangeEvent::Answered(Err(err))) {
        ExchangeAction::Return(Err(ClientError::Resource(ResourceError::ServiceNotFound { service }))) => {
            assert_eq!(service, "missing")
        }
        other => panic!("unexpected {other:?}"),
    }
}

#[test]
fn transport_failures() {
    let mut x = ClientExchange::new(ResourceKind::Rpc, "a".into(), "b".into(), None);
    match x.step(ExchangeEvent::OpenFailed("no route".into())) {
        ExchangeAction::Return(Err(ClientError::Connection(t))) => assert_eq!(t, "no route"),
        other => panic!("unexpected {other:?}"),
    }
    let mut x = ClientExchange::new(ResourceKind::Rpc, "a".into(), "b".into(), None);
    x.step(ExchangeEvent::Opened);
    x.step(ExchangeEvent::Sent);
    assert_eq!(protocol_text(x.step(ExchangeEvent::NoAnswer)), "No response received");
    let mut x = ClientExchange::new(ResourceKind::Subscription, "a".into(), "b".into(), None);
    answered(&mut x);
    x.step(ExchangeEvent::Accepted);
    assert_eq!(protocol_text(x.step(ExchangeEvent::NoHandshake)), "No established message received");
}

#[test]
fn undecodable_answer_is_a_serialization_error() {
    let mut x = ClientExchange::new(ResourceKind::Rpc, "a".into(), "b".into(), None);
    x.step(ExchangeEvent::Opened);
    x.step(ExchangeEvent::Sent);
    let err = serde_json::from_slice::<u32>(b"nope").unwrap_err();
    assert!(matches!(x.step(ExchangeEvent::Undecodable(err)), ExchangeAction::Return(Err(ClientError::Serialization(_)))));
}

#[test]
fn acknowledgments() {
    assert!(interpret_ack(NotificationMsg::Ack).is_ok());
    match interpret_ack(NotificationMsg::Error("disk full".into())) {
        Err(ClientError::Protocol(t)) => assert_eq!(t, "Server error: disk full"),
        other => panic!("unexpected {other:?}"),
    }
    match interpret_ack(NotificationMsg::Completed) {
        Err(ClientError::Protocol(t)) => assert_eq!(t, "Unexpected message type"),
        other => panic!("unexpected {other:?}"),
    }
}
