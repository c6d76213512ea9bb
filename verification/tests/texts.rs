use std::io;
use std::time::Duration;

use zel_core::{
    ClientError, IrohTransportError, NotificationError, ResourceError, ShutdownError, SubscriptionError,
};

#[test]
fn streaming_error_texts() {
    assert_eq!(SubscriptionError::Send("closed".into()).text(), "Send error: closed");
    assert_eq!(SubscriptionError::Serialization("bad".into()).text(), "Serialization error: bad");
    assert_eq!(NotificationError::Protocol("p".into()).text(), "Protocol error: p");
    assert_eq!(NotificationError::Receive("r".into()).text(), "Receive error: r");
}

#[test]
fn client_error_texts() {
    assert_eq!(ClientError::Connection("reset".into()).text(), "Connection error: reset");
    assert_eq!(ClientError::Protocol("Invalid stream ACK".into()).text(), "Protocol error: Invalid stream ACK");
    assert_eq!(
        ClientError::Resource(ResourceError::ServiceNotFound { service: "s".into() }).text(),
        "Resource error: Service 's' not found"
    );
    assert_eq!(ClientError::Io(io::Error::new(io::ErrorKind::Other, "boom")).text(), "IO error: boom");
    let json = serde_json::from_str::<u8>("x").unwrap_err();
    let expected = format!("Serialization error: {json}");
    assert_eq!(ClientError::Serialization(json).text(), expected);
}

#[test]
fn transport_error_texts() {
    assert_eq!(
        IrohTransportError::MessageTooLarge { size: 11, max: 10 }.text(),
        "Message too large: 11 bytes exceeds maximum 10 bytes"
    );
    assert_eq!(IrohTransportError::CobsDecode.text(), "COBS decoding error");
    assert_eq!(IrohTransportError::CobsEncode("x".into()).text(), "COBS encoding error: x");
    let utf8 = String::from_utf8(vec![0xff]).unwrap_err();
    let expected = format!("UTF-8 decode error: {utf8}");
    assert_eq!(IrohTransportError::Utf8(utf8).text(), expected);
}

#[test]
fn shutdown_error_text() {
    let e = ShutdownError::Timeout { remaining_tasks: 3, timeout: Duration::from_millis(50) };
    assert_eq!(e.text(), "Shutdown timeout exceeded: 3 tasks still active after 50ms");
}

#[test]
fn join_error_text() {
    let runtime = tokio::runtime::Runtime::new().unwrap();
    let error = runtime.block_on(async {
        let handle = tokio::spawn(async {
            std::future::pending::<()>().await;
        });
        handle.abort();
        handle.await.unwrap_err()
    });
    let expected = format!("Task join error: {error}");
    assert_eq!(ShutdownError::TaskJoinError(error).text(), expected);
}
