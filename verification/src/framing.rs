//! COBS message framing for the JSON-RPC transport.
//!
//! A message travels as its COBS encoding followed by a single zero byte.
//! COBS encodings never contain a zero byte, so the zero marks the end of
//! the frame. The encoding and decoding themselves are done by the `cobs`
//! crate; this module decides buffer sizes, size limits and how a stream of
//! bytes is cut into frames.

use vstd::prelude::*;
use vstd::string::StringSliceAdditionalSpecFns;
use vstd::utf8::*;

use crate::text::{decimal, decimal_text};

verus! {

#[verifier::external_type_specification]
#[verifier::external_body]
pub struct ExIoError(std::io::Error);

#[verifier::external_type_specification]
#[verifier::external_body]
pub struct ExFromUtf8Error(std::string::FromUtf8Error);

/// Default maximum request size (10 MiB).
pub const DEFAULT_MAX_REQUEST_SIZE: usize = 10 * 1024 * 1024;

/// Default maximum response size (10 MiB).
pub const DEFAULT_MAX_RESPONSE_SIZE: usize = 10 * 1024 * 1024;

/// Errors of the framed transport.
#[derive(Debug)]
pub enum IrohTransportError {
    /// An I/O error on the underlying stream.
    Io(std::io::Error),
    /// COBS encoding failed.
    CobsEncode(String),
    /// COBS decoding failed.
    CobsDecode,
    /// A message exceeds the size limit.
    MessageTooLarge { size: usize, max: usize },
    /// A decoded message is not UTF-8.
    Utf8(std::string::FromUtf8Error),
}

/// The largest possible COBS encoding of `n` bytes, as the `cobs` crate
/// documents it: one overhead byte per started block of 254 bytes, and one
/// for the empty message.
pub open spec fn max_encoding_length(n: nat) -> nat {
    if n == 0 {
        1
    } else {
        n + (n + 253) / 254
    }
}

/// The COBS encoding of `data` (zero as sentinel, without the sentinel),
/// as computed by `cobs::try_encode`.
pub uninterp spec fn cobs_encoding(data: Seq<u8>) -> Seq<u8>;

/// What `cobs::decode` produces from `encoded` into a buffer of `capacity`
/// bytes: the decoded bytes, or `None` where it reports an error.
pub uninterp spec fn cobs_decoding(encoded: Seq<u8>, capacity: nat) -> Option<Seq<u8>>;

/// Calls `cobs::try_encode(source, dest)`. The contract claims what the
/// crate documents for a buffer of at least `max_encoding_length` bytes:
/// the encoding succeeds and is written at the start of the buffer, holds
/// no zero byte and is no longer than `max_encoding_length`. Of a smaller
/// buffer it claims nothing but that its length does not change (the
/// crate may then still report a success).
#[verifier::external_body]
fn cobs_try_encode(source: &[u8], dest: &mut Vec<u8>) -> (r: Option<usize>)
    ensures
        final(dest)@.len() == old(dest)@.len(),
        old(dest)@.len() >= max_encoding_length(source@.len()) ==> (r matches Some(n) && n
            == cobs_encoding(source@).len() && final(dest)@.subrange(0, n as int) == cobs_encoding(
            source@,
        ) && n <= max_encoding_length(source@.len()) && forall|i: int|
            0 <= i < n ==> final(dest)@[i] != 0u8),
{
    match cobs::try_encode(source, &mut dest[..]) {
        Ok(n) => Some(n),
        Err(_) => None,
    }
}

/// Calls `cobs::decode(source, dest)` and reports the decoded frame size.
/// The contract ties the outcome to [`cobs_decoding`], claims that an
/// empty input is rejected, and that, into a buffer at least as long as
/// the input, the COBS encoding of any `d` decodes back to `d` (the round
/// trip the crate tests; a decoding is always shorter than its input).
#[verifier::external_body]
fn cobs_decode(source: &[u8], dest: &mut Vec<u8>) -> (r: Option<usize>)
    ensures
        final(dest)@.len() == old(dest)@.len(),
        r is Some <==> cobs_decoding(source@, old(dest)@.len()) is Some,
        r matches Some(n) ==> n == cobs_decoding(source@, old(dest)@.len())->0.len(),
        r matches Some(n) ==> n <= old(dest)@.len(),
        r matches Some(n) ==> final(dest)@.subrange(0, n as int) == cobs_decoding(
            source@,
            old(dest)@.len(),
        )->0,
        source@.len() == 0 ==> r is None,
        forall|d: Seq<u8>|
            #![trigger cobs_encoding(d)]
            cobs_encoding(d) == source@ && source@.len() <= old(dest)@.len() ==> (r matches Some(n)
                && n == d.len() && final(dest)@.subrange(0, d.len() as int) == d),
{
    match cobs::decode(source, &mut dest[..]) {
        Ok(report) => Some(report.frame_size()),
        Err(_) => None,
    }
}

/// Calls `String::from_utf8`: it succeeds exactly on valid UTF-8 and then
/// holds the decoded characters.
#[verifier::external_body]
fn string_from_utf8(bytes: Vec<u8>) -> (r: Result<String, std::string::FromUtf8Error>)
    ensures
        r is Ok <==> valid_utf8(bytes@),
        r matches Ok(s) ==> s@ == decode_utf8(bytes@),
{
    String::from_utf8(bytes)
}

/// Calls `DestBufTooSmallError`'s display, the text of an encoding
/// failure, which the crate fixes as `out of bounds error during encoding`.
#[verifier::external_body]
fn encode_failure_text() -> (r: String)
    ensures
        r@ == "out of bounds error during encoding"@,
{
    cobs::DestBufTooSmallError.to_string()
}

/// The frame that carries `data`: its COBS encoding and the zero delimiter.
pub open spec fn frame_of(data: Seq<u8>) -> Seq<u8> {
    cobs_encoding(data).push(0u8)
}

/// The size of the buffer used to encode `n` bytes.
pub open spec fn encode_buffer_len(n: nat) -> nat {
    n + n / 254 + 2
}

proof fn lemma_encode_buffer_fits(n: nat)
    ensures
        encode_buffer_len(n) >= max_encoding_length(n),
{
    if n > 0 {
        assert((n + 253) / 254 <= n / 254 + 1) by (nonlinear_arith);
    }
}

/// Encodes `data` as a frame: its COBS encoding followed by a zero byte.
pub fn encode_frame(data: &[u8]) -> (r: Result<Vec<u8>, IrohTransportError>)
    requires
        encode_buffer_len(data@.len()) <= usize::MAX,
    ensures
        r matches Ok(frame) && frame@ == frame_of(data@),
        r matches Ok(frame) ==> frame@.len() <= max_encoding_length(data@.len()) + 1,
        r matches Ok(frame) ==> forall|i: int| 0 <= i < frame@.len() - 1 ==> frame@[i] != 0u8,
{
    let cap = data.len() + data.len() / 254 + 2;
    let mut buffer: Vec<u8> = vec![0u8; cap];
    proof {
        lemma_encode_buffer_fits(data@.len());
    }
    match cobs_try_encode(data, &mut buffer) {
        Some(n) => {
            buffer.truncate(n);
            buffer.push(0u8);
            Ok(buffer)
        },
        None => Err(IrohTransportError::CobsEncode(encode_failure_text())),
    }
}

/// Frames an outgoing message, refusing one longer than `max_size` bytes.
pub fn outgoing_frame(message: &str, max_size: usize) -> (r: Result<Vec<u8>, IrohTransportError>)
    requires
        message.spec_bytes().len() <= usize::MAX,
        message.spec_bytes().len() <= max_size ==> encode_buffer_len(message.spec_bytes().len())
            <= usize::MAX,
    ensures
        message.spec_bytes().len() > max_size ==> (r matches Err(
            IrohTransportError::MessageTooLarge { size, max },
        ) && size == message.spec_bytes().len() && max == max_size),
        message.spec_bytes().len() <= max_size ==> (r matches Ok(frame) && frame@ == frame_of(
            message.spec_bytes(),
        )),
{
    let len = message.len();
    if len > max_size {
        return Err(IrohTransportError::MessageTooLarge { size: len, max: max_size });
    }
    encode_frame(message.as_bytes())
}

/// What decoding the body of a frame gives: the decoded bytes, or
/// `CobsDecode` when the body is not a COBS encoding.
pub open spec fn decoded_frame(body: Seq<u8>) -> Option<Seq<u8>> {
    cobs_decoding(body, body.len())
}

/// Decodes the body of a frame (the bytes before the delimiter). The COBS
/// encoding of any message decodes back to that message.
pub fn decode_frame(body: &[u8]) -> (r: Result<Vec<u8>, IrohTransportError>)
    ensures
        match decoded_frame(body@) {
            Some(d) => r matches Ok(v) && v@ == d,
            None => r matches Err(IrohTransportError::CobsDecode),
        },
        forall|d: Seq<u8>| #[trigger] cobs_encoding(d) == body@ ==> (r matches Ok(v) && v@ == d),
{
    let mut decoded: Vec<u8> = vec![0u8; body.len()];
    assert(decoded@.len() == body@.len());
    match cobs_decode(body, &mut decoded) {
        Some(n) => {
            let ghost written = decoded@;
            decoded.truncate(n);
            assert forall|d: Seq<u8>| #[trigger] cobs_encoding(d) == body@ implies decoded@ == d by {
                assert(written.subrange(0, d.len() as int) == d);
            }
            Ok(decoded)
        },
        None => Err(IrohTransportError::CobsDecode),
    }
}

/// Decodes the UTF-8 text of a decoded frame.
pub fn frame_text(decoded: Vec<u8>) -> (r: Result<String, IrohTransportError>)
    ensures
        valid_utf8(decoded@) ==> (r matches Ok(s) && s@ == decode_utf8(decoded@)),
        !valid_utf8(decoded@) ==> r matches Err(IrohTransportError::Utf8(_)),
{
    match string_from_utf8(decoded) {
        Ok(s) => Ok(s),
        Err(e) => Err(IrohTransportError::Utf8(e)),
    }
}

/// Calls `FromUtf8Error`'s `Display`. Nothing is claimed of the text.
#[verifier::external_body]
fn utf8_error_text(error: &std::string::FromUtf8Error) -> String {
    error.to_string()
}

impl IrohTransportError {
    /// The display text of the error.
    pub fn text(&self) -> (r: String)
        ensures
            match self {
                IrohTransportError::Io(_) => r@.len() >= 10 && r@.subrange(0, 10) == "IO error: "@,
                IrohTransportError::CobsEncode(t) => r@ == "COBS encoding error: "@ + t@,
                IrohTransportError::CobsDecode => r@ == "COBS decoding error"@,
                IrohTransportError::MessageTooLarge { size, max } => r@ == "Message too large: "@
                    + decimal_text(*size as nat) + " bytes exceeds maximum "@ + decimal_text(*max as nat)
                    + " bytes"@,
                IrohTransportError::Utf8(_) => r@.len() >= 20 && r@.subrange(0, 20)
                    == "UTF-8 decode error: "@,
            },
    {
        proof {
            reveal_strlit("IO error: ");
            reveal_strlit("COBS encoding error: ");
            reveal_strlit("COBS decoding error");
            reveal_strlit("Message too large: ");
            reveal_strlit(" bytes exceeds maximum ");
            reveal_strlit(" bytes");
            reveal_strlit("UTF-8 decode error: ");
        }
        match self {
            IrohTransportError::Io(e) => {
                let mut r = "IO error: ".to_owned();
                r.append(crate::classification::io_error_text(e).as_str());
                assert(r@.subrange(0, 10) =~= "IO error: "@);
                r
            },
            IrohTransportError::CobsEncode(t) => {
                let mut r = "COBS encoding error: ".to_owned();
                r.append(t.as_str());
                r
            },
            IrohTransportError::CobsDecode => "COBS decoding error".to_owned(),
            IrohTransportError::MessageTooLarge { size, max } => {
                let mut r = "Message too large: ".to_owned();
                r.append(decimal(*size as u64).as_str());
                r.append(" bytes exceeds maximum ");
                r.append(decimal(*max as u64).as_str());
                r.append(" bytes");
                r
            },
            IrohTransportError::Utf8(e) => {
                let mut r = "UTF-8 decode error: ".to_owned();
                r.append(utf8_error_text(e).as_str());
                assert(r@.subrange(0, 20) =~= "UTF-8 decode error: "@);
                r
            },
        }
    }
}

/// What one byte read from the stream does to the frame being read.
#[derive(Debug)]
pub enum FrameStep {
    /// The byte was stored; the frame is not complete yet.
    Pending,
    /// The delimiter completed a frame, which decoded to these bytes.
    Complete(Vec<u8>),
    /// The frame was refused; reading starts over with the next byte.
    Failed(IrohTransportError),
}

/// One byte read by a frame reader with limit `limit`, from `pending` to
/// `next`, with the step reported. A zero byte ends the frame, whose body
/// is decoded (and the COBS encoding of any message decodes back to that
/// message); any other byte is stored, and a body longer than the limit is
/// refused with its size. After a completed or refused frame nothing is
/// pending.
pub open spec fn reader_step(limit: usize, pending: Seq<u8>, byte: u8, next: Seq<u8>, step: FrameStep) -> bool {
    &&& byte == 0u8 ==> next == Seq::<u8>::empty()
    &&& byte == 0u8 ==> match decoded_frame(pending) {
        Some(d) => step matches FrameStep::Complete(v) && v@ == d,
        None => step matches FrameStep::Failed(IrohTransportError::CobsDecode),
    }
    &&& byte == 0u8 ==> forall|d: Seq<u8>|
        #[trigger] cobs_encoding(d) == pending ==> (step matches FrameStep::Complete(v) && v@ == d)
    &&& byte != 0u8 && pending.len() + 1 > limit ==> {
        &&& step matches FrameStep::Failed(IrohTransportError::MessageTooLarge { size, max })
        &&& size == pending.len() + 1
        &&& max == limit
        &&& next == Seq::<u8>::empty()
    }
    &&& byte != 0u8 && pending.len() + 1 <= limit ==> {
        &&& step matches FrameStep::Pending
        &&& next == pending.push(byte)
    }
}

/// `pendings[i]` and `steps[i]` are what a reader with limit `limit`
/// goes through when it reads `bytes` in order, starting from `pendings[0]`.
pub open spec fn is_reader_run(limit: usize, bytes: Seq<u8>, pendings: Seq<Seq<u8>>, steps: Seq<FrameStep>) -> bool {
    &&& pendings.len() == bytes.len() + 1
    &&& steps.len() == bytes.len()
    &&& forall|i: int|
        #![trigger bytes[i]]
        0 <= i < bytes.len() ==> reader_step(limit, pendings[i], bytes[i], pendings[i + 1], steps[i])
}

/// A frame written for a message is read back as that message: a reader
/// with nothing pending, whose limit admits the encoding, reports nothing
/// until the delimiter and then the message itself. (Encodings hold no zero
/// byte, as [`encode_frame`] ensures of every frame it makes.)
pub proof fn law_frame_read_back(
    message: Seq<u8>,
    limit: usize,
    pendings: Seq<Seq<u8>>,
    steps: Seq<FrameStep>,
)
    requires
        is_reader_run(limit, frame_of(message), pendings, steps),
        pendings[0] == Seq::<u8>::empty(),
        cobs_encoding(message).len() <= limit,
        forall|i: int| 0 <= i < cobs_encoding(message).len() ==> cobs_encoding(message)[i] != 0u8,
    ensures
        forall|i: int| 0 <= i < steps.len() - 1 ==> steps[i] is Pending,
        steps.last() matches FrameStep::Complete(v) && v@ == message,
{
    let enc = cobs_encoding(message);
    let bytes = frame_of(message);
    assert forall|i: int| 0 <= i <= enc.len() implies pendings[i] == enc.take(i) by {
        lemma_pending_prefix(message, limit, pendings, steps, i);
    }
    assert forall|i: int| 0 <= i < steps.len() - 1 implies steps[i] is Pending by {
        assert(bytes[i] == enc[i]);
        assert(reader_step(limit, pendings[i], bytes[i], pendings[i + 1], steps[i]));
    }
    let n = enc.len() as int;
    assert(bytes[n] == 0u8);
    assert(enc.take(n) == enc);
    assert(reader_step(limit, pendings[n], bytes[n], pendings[n + 1], steps[n]));
}

proof fn lemma_pending_prefix(
    message: Seq<u8>,
    limit: usize,
    pendings: Seq<Seq<u8>>,
    steps: Seq<FrameStep>,
    i: int,
)
    requires
        is_reader_run(limit, frame_of(message), pendings, steps),
        pendings[0] == Seq::<u8>::empty(),
        cobs_encoding(message).len() <= limit,
        forall|j: int| 0 <= j < cobs_encoding(message).len() ==> cobs_encoding(message)[j] != 0u8,
        0 <= i <= cobs_encoding(message).len(),
    ensures
        pendings[i] == cobs_encoding(message).take(i),
    decreases i,
{
    let enc = cobs_encoding(message);
    let bytes = frame_of(message);
    if i > 0 {
        lemma_pending_prefix(message, limit, pendings, steps, i - 1);
        assert(bytes[i - 1] == enc[i - 1]);
        assert(reader_step(limit, pendings[i - 1], bytes[i - 1], pendings[i], steps[i - 1]));
        assert(enc.take(i - 1).push(enc[i - 1]) == enc.take(i));
    } else {
        assert(enc.take(0) == Seq::<u8>::empty());
    }
}

/// Cuts a byte stream into COBS frames, refusing any frame whose body
/// grows beyond `max_size` bytes.
pub struct FrameReader {
    pending: Vec<u8>,
    max_size: usize,
}

impl View for FrameReader {
    type V = (Seq<u8>, usize);

    /// The body bytes read since the last frame ended, and the size limit
    /// the reader was made with.
    closed spec fn view(&self) -> (Seq<u8>, usize) {
        (self.pending@, self.max_size)
    }
}

impl FrameReader {
    #[verifier::type_invariant]
    spec fn well_formed(self) -> bool {
        &&& self.pending@.len() <= self.max_size
        &&& forall|i: int| 0 <= i < self.pending@.len() ==> self.pending@[i] != 0u8
    }

    /// A reader with nothing pending.
    pub fn new(max_size: usize) -> (r: FrameReader)
        ensures
            r@ == (Seq::<u8>::empty(), max_size),
    {
        FrameReader { pending: Vec::new(), max_size }
    }

    /// The number of body bytes read since the last frame ended.
    pub fn pending_len(&self) -> (r: usize)
        ensures
            r == self@.0.len(),
    {
        self.pending.len()
    }

    /// Reads one byte (see [`reader_step`]).
    pub fn push(&mut self, byte: u8) -> (r: FrameStep)
        requires
            old(self)@.0.len() < usize::MAX,
        ensures
            final(self)@.1 == old(self)@.1,
            reader_step(old(self)@.1, old(self)@.0, byte, final(self)@.0, r),
    {
        proof {
            use_type_invariant(&*self);
        }
        let mut pending: Vec<u8> = Vec::new();
        std::mem::swap(&mut pending, &mut self.pending);
        if byte == 0u8 {
            match decode_frame(pending.as_slice()) {
                Ok(decoded) => FrameStep::Complete(decoded),
                Err(e) => FrameStep::Failed(e),
            }
        } else if pending.len() >= self.max_size {
            let size = pending.len() + 1;
            FrameStep::Failed(IrohTransportError::MessageTooLarge { size, max: self.max_size })
        } else {
            pending.push(byte);
            self.pending = pending;
            FrameStep::Pending
        }
    }
}

} // verus!
