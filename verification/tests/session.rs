use zel_core::{ErrorSeverity, ResourceError, ResourceKind, StreamAction, StreamEvent, StreamPhase, StreamSession};

fn callback_message(action: &StreamAction) -> String {
    match action {
        StreamAction::Reply(ResourceError::CallbackError { message, severity, context }) => {
            assert_eq!(*severity, ErrorSeverity::Application);
            assert!(context.is_none());
            message.clone()
        }
        other => panic!("unexpected {other:?}"),
    }
}

#[test]
fn subscription_handshake_in_order() {
    let mut s = StreamSession::new();
    assert!(matches!(s.step(StreamEvent::Routed(Ok(ResourceKind::Subscription))), StreamAction::OpenUni));
    assert!(matches!(s.step(StreamEvent::ChannelOpened), StreamAction::SendEstablished));
    assert!(matches!(s.step(StreamEvent::AckSent), StreamAction::SendOk));
    assert!(matches!(
        s.step(StreamEvent::ResponseSent),
        StreamAction::Spawn(ResourceKind::Subscription)
    ));
    assert_eq!(s.current(), StreamPhase::Finished);
    assert!(matches!(s.step(StreamEvent::ResponseSent), StreamAction::Ignore));
}

#[test]
fn raw_stream_sends_ok_bytes() {
    let mut s = StreamSession::new();
    assert!(matches!(s.step(StreamEvent::Routed(Ok(ResourceKind::Stream))), StreamAction::OpenBi));
    assert!(matches!(s.step(StreamEvent::ChannelOpened), StreamAction::SendStreamAck));
    let a = s.step(StreamEvent::AckFailed("stream reset".to_owned()));
    assert_eq!(callback_message(&a), "Failed to send stream ACK: stream reset");
}

#[test]
fn rpc_runs_at_once() {
    let mut s = StreamSession::new();
    assert!(matches!(s.step(StreamEvent::Routed(Ok(ResourceKind::Rpc))), StreamAction::RunRpc));
    assert_eq!(s.current(), StreamPhase::Finished);
}

#[test]
fn routing_error_is_answered() {
    let mut s = StreamSession::new();
    let err = ResourceError::ServiceNotFound { service: "nope".to_owned() };
    match s.step(StreamEvent::Routed(Err(err))) {
        StreamAction::Reply(ResourceError::ServiceNotFound { service }) => assert_eq!(service, "nope"),
        other => panic!("unexpected {other:?}"),
    }
}

#[test]
fn channel_failures_name_the_step() {
    let mut s = StreamSession::new();
    s.step(StreamEvent::Routed(Ok(ResourceKind::Notification)));
    assert_eq!(
        callback_message(&s.step(StreamEvent::ChannelFailed)),
        "Failed to establish notification stream"
    );
    let mut s = StreamSession::new();
    s.step(StreamEvent::Routed(Ok(ResourceKind::Subscription)));
    assert_eq!(callback_message(&s.step(StreamEvent::ChannelFailed)), "Failed to establish stream");
    let mut s = StreamSession::new();
    s.step(StreamEvent::Routed(Ok(ResourceKind::Stream)));
    assert_eq!(callback_message(&s.step(StreamEvent::ChannelFailed)), "Failed to open bidi stream");
    let mut s = StreamSession::new();
    s.step(StreamEvent::Routed(Ok(ResourceKind::Notification)));
    s.step(StreamEvent::ChannelOpened);
    assert_eq!(
        callback_message(&s.step(StreamEvent::AckFailed("closed".to_owned()))),
        "Failed to send ack: closed"
    );
}

#[test]
fn closed_and_unreadable_streams() {
    let mut s = StreamSession::new();
    assert!(matches!(s.step(StreamEvent::Closed), StreamAction::Finish));
    let mut s = StreamSession::new();
    assert!(matches!(s.step(StreamEvent::Unreadable), StreamAction::Fail));
}

#[test]
fn failed_answer_does_not_spawn() {
    let mut s = StreamSession::new();
    s.step(StreamEvent::Routed(Ok(ResourceKind::Notification)));
    s.step(StreamEvent::ChannelOpened);
    s.step(StreamEvent::AckSent);
    assert!(matches!(s.step(StreamEvent::ResponseFailed), StreamAction::Finish));
    assert_eq!(s.current(), StreamPhase::Finished);
}

#[test]
fn at_most_one_answer_in_any_run() {
    let mut s = StreamSession::new();
    let events = vec![
        StreamEvent::AckSent,
        StreamEvent::Routed(Ok(ResourceKind::Subscription)),
        StreamEvent::Routed(Ok(ResourceKind::Rpc)),
        StreamEvent::ChannelOpened,
        StreamEvent::AckSent,
        StreamEvent::AckSent,
        StreamEvent::ResponseSent,
        StreamEvent::Routed(Ok(ResourceKind::Rpc)),
    ];
    let answers = events
        .into_iter()
        .map(|e| s.step(e))
        .filter(|a| matches!(a, StreamAction::Reply(_) | StreamAction::RunRpc | StreamAction::SendOk))
        .count();
    assert_eq!(answers, 1);
}
