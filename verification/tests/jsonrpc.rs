use zel_core::jsonrpc::{
    admit_batch, admit_subscription, batch_request, check_batch, error_text, internal_error_response,
    invalid_batch_entry, invalid_entry, jsonrpc_step, method_not_found, parse_error_response,
    request_shape, route_method, single_request_error, too_many_subscriptions, BatchReply, BatchTally,
    JsonRpcAction, JsonRpcEvent, MethodKind, MethodRoute, RequestId, RequestShape, RpcErrorReply,
};
use zel_core::{BatchRequestConfig, IrohTransportBuilder, IrohTransportError};

#[test]
fn transport_builder_limits() {
    let b = IrohTransportBuilder::new();
    assert_eq!(b.request_limit(), 10 * 1024 * 1024);
    assert_eq!(b.response_limit(), 10 * 1024 * 1024);
    let b = IrohTransportBuilder::default().max_request_size(5 * 1024 * 1024).max_response_size(7);
    assert_eq!(b.request_limit(), 5 * 1024 * 1024);
    assert_eq!(b.response_limit(), 7);
}

#[test]
fn shapes() {
    assert_eq!(request_shape(b"  \n{\"a\":1}"), RequestShape::Single(3));
    assert_eq!(request_shape(b"[{}]"), RequestShape::Batch(0));
    assert_eq!(request_shape(b"\t\r x"), RequestShape::Unparseable);
    assert_eq!(request_shape(b""), RequestShape::Unparseable);
    assert_eq!(request_shape(b" \x0b{"), RequestShape::Unparseable);
    let mut late = vec![b' '; 128];
    late.push(b'{');
    assert_eq!(request_shape(&late), RequestShape::Unparseable);
    let mut just_in = vec![b' '; 127];
    just_in.push(b'[');
    assert_eq!(request_shape(&just_in), RequestShape::Batch(127));
}

#[test]
fn batch_limits() {
    let e = check_batch(BatchRequestConfig::Disabled, 1).unwrap_err();
    assert_eq!(e.code, -32600);
    assert_eq!(e.message, "Batch requests not supported");
    let e = check_batch(BatchRequestConfig::Limit(2), 3).unwrap_err();
    assert_eq!(e.code, -32600);
    assert_eq!(e.message, "Batch too large: max 2");
    assert!(matches!(e.id, RequestId::Null));
    assert!(check_batch(BatchRequestConfig::Limit(2), 2).is_ok());
    assert!(check_batch(BatchRequestConfig::Unlimited, 1_000_000).is_ok());
}

#[test]
fn batch_replies() {
    let mut t = BatchTally::new();
    t.record_notification();
    assert_eq!(t.reply(), BatchReply::Notification);
    t.record_answer();
    assert_eq!(t.reply(), BatchReply::Answers);
    assert_eq!(BatchTally::new().reply(), BatchReply::Answers);
}

#[test]
fn method_routes() {
    match route_method(RequestId::Number(7), None) {
        MethodRoute::NotFound(e) => {
            assert!(matches!(e.id, RequestId::Number(7)));
            assert_eq!(e.code, -32601);
            assert_eq!(e.message, "Method not found");
            assert!(e.data.is_none());
        }
        other => panic!("unexpected route {other:?}"),
    }
    assert!(matches!(route_method(RequestId::Null, Some(MethodKind::Sync)), MethodRoute::RunSync));
    assert!(matches!(route_method(RequestId::Null, Some(MethodKind::Async)), MethodRoute::RunAsync));
    assert!(matches!(route_method(RequestId::Null, Some(MethodKind::Subscription)), MethodRoute::NeedsSlot));
    assert!(matches!(
        route_method(RequestId::Null, Some(MethodKind::Unsubscription)),
        MethodRoute::RunUnsubscribe
    ));
    match admit_subscription(RequestId::Str("s1".to_owned()), false, 100) {
        MethodRoute::TooManySubscriptions(e) => {
            assert!(matches!(&e.id, RequestId::Str(s) if s == "s1"));
            assert_eq!(e.code, -32006);
            assert_eq!(e.message, "Too many subscriptions on the connection");
            assert_eq!(e.data.as_deref(), Some("Exceeded max limit of 100"));
        }
        other => panic!("unexpected route {other:?}"),
    }
    assert!(matches!(admit_subscription(RequestId::Null, true, 100), MethodRoute::Subscribe));
}

#[test]
fn entry_errors_echo_the_id() {
    let e = method_not_found(RequestId::Str("abc".to_owned()));
    assert!(matches!(&e.id, RequestId::Str(s) if s == "abc"));
    let e = invalid_entry(RequestId::Number(3));
    assert!(matches!(e.id, RequestId::Number(3)));
    assert_eq!(e.code, -32600);
    assert_eq!(e.message, "Invalid request");
}

#[test]
fn batch_disabled_answers_before_parsing() {
    let e = batch_request(BatchRequestConfig::Disabled, b"not json at all").unwrap_err();
    assert!(matches!(e.id, RequestId::Null));
    assert_eq!(e.code, -32600);
    assert_eq!(e.message, "Batch requests not supported");
}

#[test]
fn batch_that_is_not_an_array_is_a_parse_error() {
    let e = batch_request(BatchRequestConfig::Unlimited, b"[1, 2").unwrap_err();
    assert!(matches!(e.id, RequestId::Null));
    assert_eq!(e.code, -32700);
    assert_eq!(e.message, "Parse error");
    let e = batch_request(BatchRequestConfig::Limit(5), b"{\"a\":1}").unwrap_err();
    assert_eq!(e.code, -32700);
}

#[test]
fn batch_over_the_limit_is_refused() {
    let body = br#"[{"jsonrpc":"2.0","id":1,"method":"a"},{"jsonrpc":"2.0","id":2,"method":"b"},{"jsonrpc":"2.0","method":"c"}]"#;
    let e = batch_request(BatchRequestConfig::Limit(2), body).unwrap_err();
    assert!(matches!(e.id, RequestId::Null));
    assert_eq!(e.code, -32600);
    assert_eq!(e.message, "Batch too large: max 2");
}

#[test]
fn batch_entries_come_out_in_order() {
    let body = br#"[{"jsonrpc":"2.0","id":1,"method":"a"}, 7 ,{"jsonrpc":"2.0","method":"c"}]"#;
    let entries = batch_request(BatchRequestConfig::Limit(3), body).unwrap();
    assert_eq!(entries.len(), 3);
    assert_eq!(entries[0], br#"{"jsonrpc":"2.0","id":1,"method":"a"}"#.to_vec());
    assert_eq!(entries[1], b"7".to_vec());
    assert_eq!(entries[2], br#"{"jsonrpc":"2.0","method":"c"}"#.to_vec());
    assert!(batch_request(BatchRequestConfig::Unlimited, b"[]").unwrap().is_empty());
}

#[test]
fn admitting_a_read_batch() {
    let e = admit_batch(BatchRequestConfig::Unlimited, None).unwrap_err();
    assert_eq!(e.code, -32700);
    let e = admit_batch(BatchRequestConfig::Disabled, Some(vec![b"1".to_vec()])).unwrap_err();
    assert_eq!(e.message, "Batch requests not supported");
    let e = admit_batch(BatchRequestConfig::Limit(1), Some(vec![b"1".to_vec(), b"2".to_vec()])).unwrap_err();
    assert_eq!(e.message, "Batch too large: max 1");
    let ok = admit_batch(BatchRequestConfig::Limit(2), Some(vec![b"1".to_vec(), b"2".to_vec()])).unwrap();
    assert_eq!(ok, vec![b"1".to_vec(), b"2".to_vec()]);
}

#[test]
fn connection_loop_decisions() {
    assert!(matches!(
        jsonrpc_step(JsonRpcEvent::Frame(Ok(b" {\"id\":1}".to_vec()))),
        JsonRpcAction::Dispatch { start: 1, single: true }
    ));
    assert!(matches!(
        jsonrpc_step(JsonRpcEvent::Frame(Ok(b"[]".to_vec()))),
        JsonRpcAction::Dispatch { start: 0, single: false }
    ));
    assert!(matches!(jsonrpc_step(JsonRpcEvent::Frame(Ok(b"hi".to_vec()))), JsonRpcAction::ReplyParseError));
    assert!(matches!(
        jsonrpc_step(JsonRpcEvent::Frame(Err(IrohTransportError::CobsDecode))),
        JsonRpcAction::Close
    ));
    assert!(matches!(jsonrpc_step(JsonRpcEvent::AnswerWritten(false)), JsonRpcAction::Close));
    assert!(matches!(jsonrpc_step(JsonRpcEvent::NotificationWritten(false)), JsonRpcAction::Continue));
    assert!(matches!(
        jsonrpc_step(JsonRpcEvent::SubscriptionEnded(Err(IrohTransportError::CobsDecode))),
        JsonRpcAction::Fail(IrohTransportError::CobsDecode)
    ));
}

#[test]
fn canned_error_responses() {
    assert_eq!(
        parse_error_response(),
        r#"{"jsonrpc":"2.0","id":null,"error":{"code":-32700,"message":"Parse error"}}"#
    );
    assert_eq!(
        internal_error_response(),
        r#"{"jsonrpc":"2.0","id":null,"error":{"code":-32603,"message":"Internal error"}}"#
    );
}

#[test]
fn single_request_errors() {
    let e = single_request_error(br#"{"jsonrpc":"2.0","id":5,"params":[]}"#);
    assert!(matches!(e.id, RequestId::Number(5)));
    assert_eq!(e.code, -32600);
    assert_eq!(e.message, "Invalid request");
    let e = single_request_error(br#"{"id":"x"}"#);
    assert!(matches!(&e.id, RequestId::Str(s) if s == "x"));
    assert_eq!(e.code, -32600);
    let e = single_request_error(b"{not json");
    assert!(matches!(e.id, RequestId::Null));
    assert_eq!(e.code, -32700);
    assert_eq!(e.message, "Parse error");
}

#[test]
fn invalid_batch_entries_echo_their_id() {
    let e = invalid_batch_entry(br#"{"id":9,"method":5}"#);
    assert!(matches!(e.id, RequestId::Number(9)));
    assert_eq!(e.code, -32600);
    assert_eq!(e.message, "Invalid request");
    let e = invalid_batch_entry(b"7");
    assert!(matches!(e.id, RequestId::Null));
    assert_eq!(e.code, -32600);
}

#[test]
fn error_answers_as_text() {
    assert_eq!(
        error_text(&method_not_found(RequestId::Number(3))),
        r#"{"jsonrpc":"2.0","id":3,"error":{"code":-32601,"message":"Method not found"}}"#
    );
    assert_eq!(
        error_text(&too_many_subscriptions(RequestId::Str("a\"b".to_owned()), 100)),
        r#"{"jsonrpc":"2.0","id":"a\"b","error":{"code":-32006,"message":"Too many subscriptions on the connection","data":"Exceeded max limit of 100"}}"#
    );
    let parse = RpcErrorReply { id: RequestId::Null, code: -32700, message: "Parse error".to_owned(), data: None };
    assert_eq!(error_text(&parse), parse_error_response());
    let odd = RpcErrorReply { id: RequestId::Null, code: 7, message: "line\nbreak".to_owned(), data: None };
    assert_eq!(error_text(&odd), r#"{"jsonrpc":"2.0","id":null,"error":{"code":7,"message":"line\nbreak"}}"#);
}
