use zel_core::framing::{decode_frame, encode_frame, frame_text, outgoing_frame};
use zel_core::{FrameReader, FrameStep, IrohTransportError};

fn feed(reader: &mut FrameReader, bytes: &[u8]) -> Vec<FrameStep> {
    bytes.iter().map(|b| reader.push(*b)).collect()
}

#[test]
fn encodes_message_without_zeros() {
    let frame = encode_frame(b"hello").unwrap();
    assert_eq!(frame, vec![6, b'h', b'e', b'l', b'l', b'o', 0]);
}

#[test]
fn encodes_message_with_zeros() {
    let frame = encode_frame(&[0x11, 0x00, 0x22]).unwrap();
    assert_eq!(frame, vec![0x02, 0x11, 0x02, 0x22, 0x00]);
}

#[test]
fn encodes_empty_message() {
    assert_eq!(encode_frame(&[]).unwrap(), vec![0x01, 0x00]);
}

#[test]
fn frame_round_trip_through_reader() {
    let message: Vec<u8> = (0u16..600).map(|i| (i % 7) as u8).collect();
    let frame = encode_frame(&message).unwrap();
    assert_eq!(frame.iter().filter(|b| **b == 0).count(), 1);
    let mut reader = FrameReader::new(10_000);
    let steps = feed(&mut reader, &frame);
    for step in &steps[..steps.len() - 1] {
        assert!(matches!(step, FrameStep::Pending));
    }
    match steps.last().unwrap() {
        FrameStep::Complete(decoded) => assert_eq!(decoded, &message),
        other => panic!("unexpected {other:?}"),
    }
}

#[test]
fn decode_frame_inverts_encoding() {
    let message = b"{\"jsonrpc\":\"2.0\"}\x00\x00tail".to_vec();
    let frame = encode_frame(&message).unwrap();
    let body = &frame[..frame.len() - 1];
    assert_eq!(decode_frame(body).unwrap(), message);
}

#[test]
fn empty_body_does_not_decode() {
    assert!(matches!(decode_frame(&[]), Err(IrohTransportError::CobsDecode)));
    let mut reader = FrameReader::new(8);
    assert!(matches!(reader.push(0), FrameStep::Failed(IrohTransportError::CobsDecode)));
}

#[test]
fn oversized_outgoing_message_is_refused() {
    match outgoing_frame("hello", 4) {
        Err(IrohTransportError::MessageTooLarge { size, max }) => {
            assert_eq!(size, 5);
            assert_eq!(max, 4);
        }
        other => panic!("unexpected {other:?}"),
    }
    assert_eq!(outgoing_frame("hello", 5).unwrap(), vec![6, b'h', b'e', b'l', b'l', b'o', 0]);
}

#[test]
fn oversized_incoming_frame_is_refused_and_reading_restarts() {
    let mut reader = FrameReader::new(3);
    let steps = feed(&mut reader, &[1, 2, 3]);
    assert!(steps.iter().all(|s| matches!(s, FrameStep::Pending)));
    match reader.push(4) {
        FrameStep::Failed(IrohTransportError::MessageTooLarge { size, max }) => {
            assert_eq!(size, 4);
            assert_eq!(max, 3);
        }
        other => panic!("unexpected {other:?}"),
    }
    let steps = feed(&mut reader, &[0x02, b'a', 0x00]);
    assert!(matches!(&steps[2], FrameStep::Complete(d) if d == b"a"));
}

#[test]
fn two_frames_in_one_stream() {
    let mut bytes = encode_frame(b"first").unwrap();
    bytes.extend(encode_frame(b"second").unwrap());
    let mut reader = FrameReader::new(64);
    let done: Vec<Vec<u8>> = feed(&mut reader, &bytes)
        .into_iter()
        .filter_map(|s| match s {
            FrameStep::Complete(d) => Some(d),
            _ => None,
        })
        .collect();
    assert_eq!(done, vec![b"first".to_vec(), b"second".to_vec()]);
}

#[test]
fn frame_text_checks_utf8() {
    assert_eq!(frame_text(b"caf\xc3\xa9".to_vec()).unwrap(), "café");
    assert!(matches!(frame_text(vec![0xff, 0xfe]), Err(IrohTransportError::Utf8(_))));
}
