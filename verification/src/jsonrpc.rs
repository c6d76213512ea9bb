//! JSON-RPC 2.0 over framed streams: transport limits, the shape of an
//! incoming request, batch limits, method dispatch and the decisions of
//! the server's connection loop.

use vstd::prelude::*;

use crate::framing::{IrohTransportError, DEFAULT_MAX_REQUEST_SIZE, DEFAULT_MAX_RESPONSE_SIZE};
use crate::text::{decimal, decimal_text};
use jsonrpsee::types::{ErrorCode, Id};

verus! {

/// Size limits of a framed JSON-RPC transport.
#[derive(Clone, Debug)]
pub struct IrohTransportBuilder {
    max_request_size: usize,
    max_response_size: usize,
}

impl IrohTransportBuilder {
    /// The largest request the transport sends.
    pub closed spec fn max_request(&self) -> usize {
        self.max_request_size
    }

    /// The largest response the transport accepts.
    pub closed spec fn max_response(&self) -> usize {
        self.max_response_size
    }

    /// Limits of 10 MiB each way.
    pub fn new() -> (r: IrohTransportBuilder)
        ensures
            r.max_request() == DEFAULT_MAX_REQUEST_SIZE,
            r.max_response() == DEFAULT_MAX_RESPONSE_SIZE,
    {
        IrohTransportBuilder {
            max_request_size: DEFAULT_MAX_REQUEST_SIZE,
            max_response_size: DEFAULT_MAX_RESPONSE_SIZE,
        }
    }

    /// Sets the largest request.
    pub fn max_request_size(self, size: usize) -> (r: IrohTransportBuilder)
        ensures
            r.max_request() == size,
            r.max_response() == self.max_response(),
    {
        IrohTransportBuilder { max_request_size: size, max_response_size: self.max_response_size }
    }

    /// Sets the largest response.
    pub fn max_response_size(self, size: usize) -> (r: IrohTransportBuilder)
        ensures
            r.max_request() == self.max_request(),
            r.max_response() == size,
    {
        IrohTransportBuilder { max_request_size: self.max_request_size, max_response_size: size }
    }

    /// The largest request the transport sends.
    pub fn request_limit(&self) -> (r: usize)
        ensures
            r == self.max_request(),
    {
        self.max_request_size
    }

    /// The largest response the transport accepts.
    pub fn response_limit(&self) -> (r: usize)
        ensures
            r == self.max_response(),
    {
        self.max_response_size
    }
}

impl Default for IrohTransportBuilder {
    fn default() -> (r: IrohTransportBuilder)
        ensures
            r.max_request() == DEFAULT_MAX_REQUEST_SIZE,
            r.max_response() == DEFAULT_MAX_RESPONSE_SIZE,
    {
        IrohTransportBuilder::new()
    }
}

/// The answer sent for a frame that is neither an object nor an array.
pub fn parse_error_response() -> (r: &'static str)
    ensures
        r@ == "{\"jsonrpc\":\"2.0\",\"id\":null,\"error\":{\"code\":-32700,\"message\":\"Parse error\"}}"@,
{
    "{\"jsonrpc\":\"2.0\",\"id\":null,\"error\":{\"code\":-32700,\"message\":\"Parse error\"}}"
}

/// The answer sent when the method table fails to process a request.
pub fn internal_error_response() -> (r: &'static str)
    ensures
        r@ == "{\"jsonrpc\":\"2.0\",\"id\":null,\"error\":{\"code\":-32603,\"message\":\"Internal error\"}}"@,
{
    "{\"jsonrpc\":\"2.0\",\"id\":null,\"error\":{\"code\":-32603,\"message\":\"Internal error\"}}"
}

/// ASCII whitespace as Rust's `u8::is_ascii_whitespace` defines it: space,
/// tab, line feed, form feed and carriage return.
pub open spec fn is_ascii_whitespace(b: u8) -> bool {
    b == 0x20u8 || b == 0x09u8 || b == 0x0Au8 || b == 0x0Cu8 || b == 0x0Du8
}

/// How far into a frame the server looks for the start of the request.
pub const SHAPE_WINDOW: usize = 128;

/// `i` is the first byte of `data` that is not whitespace, within the
/// window.
pub open spec fn first_content(data: Seq<u8>, i: int) -> bool {
    &&& 0 <= i < data.len()
    &&& i < SHAPE_WINDOW
    &&& !is_ascii_whitespace(data[i])
    &&& forall|j: int| 0 <= j < i ==> is_ascii_whitespace(#[trigger] data[j])
}

/// What an incoming frame holds.
#[derive(PartialEq, Eq, Structural, Clone, Copy, Debug)]
pub enum RequestShape {
    /// A single request or notification, starting at this index.
    Single(usize),
    /// A batch, starting at this index.
    Batch(usize),
    /// Neither: the first content byte (within the window) is not `{` or
    /// `[`, or there is none.
    Unparseable,
}

/// Finds where the request starts and whether it is a batch.
pub fn request_shape(data: &[u8]) -> (r: RequestShape)
    ensures
        r matches RequestShape::Single(i) ==> first_content(data@, i as int) && data@[i as int]
            == 0x7Bu8,
        r matches RequestShape::Batch(i) ==> first_content(data@, i as int) && data@[i as int]
            == 0x5Bu8,
        r is Unparseable ==> forall|i: int|
            #[trigger] first_content(data@, i) ==> data@[i] != 0x7Bu8 && data@[i] != 0x5Bu8,
{
    let mut i: usize = 0;
    while i < data.len() && i < SHAPE_WINDOW
        invariant
            i <= data@.len(),
            i <= SHAPE_WINDOW,
            forall|j: int| 0 <= j < i ==> is_ascii_whitespace(#[trigger] data@[j]),
        decreases SHAPE_WINDOW - i,
    {
        let b = data[i];
        if !(b == 0x20u8 || b == 0x09u8 || b == 0x0Au8 || b == 0x0Cu8 || b == 0x0Du8) {
            proof {
                assert forall|k: int| #[trigger] first_content(data@, k) implies k == i by {
                    if k < i {
                        assert(is_ascii_whitespace(data@[k]));
                    }
                    if k > i {
                        assert(is_ascii_whitespace(data@[i as int]));
                    }
                }
            }
            if b == 0x7Bu8 {
                return RequestShape::Single(i);
            } else if b == 0x5Bu8 {
                return RequestShape::Batch(i);
            } else {
                return RequestShape::Unparseable;
            }
        }
        i = i + 1;
    }
    proof {
        assert forall|k: int| #[trigger] first_content(data@, k) implies false by {
            assert(is_ascii_whitespace(data@[k]));
        }
    }
    RequestShape::Unparseable
}

/// How batch requests are limited.
#[derive(PartialEq, Eq, Structural, Clone, Copy, Debug)]
pub enum BatchRequestConfig {
    /// Batch requests are refused.
    Disabled,
    /// At most this many requests per batch.
    Limit(u32),
    /// No limit.
    Unlimited,
}

/// The id of a JSON-RPC request, as a reply echoes it.
#[derive(Clone, Debug)]
pub enum RequestId {
    /// `null`, or no usable id.
    Null,
    /// A numeric id.
    Number(u64),
    /// A string id.
    Str(String),
}

/// A request id as specifications read it.
pub enum RequestIdView {
    Null,
    Number(u64),
    Str(Seq<char>),
}

impl View for RequestId {
    type V = RequestIdView;

    open spec fn view(&self) -> RequestIdView {
        match self {
            RequestId::Null => RequestIdView::Null,
            RequestId::Number(n) => RequestIdView::Number(*n),
            RequestId::Str(s) => RequestIdView::Str(s@),
        }
    }
}

/// A JSON-RPC error answer: the id it answers, the error's code and
/// message, and its optional data (a JSON string).
#[derive(Clone, Debug)]
pub struct RpcErrorReply {
    pub id: RequestId,
    pub code: i32,
    pub message: String,
    pub data: Option<String>,
}

/// An error answer to `id` with `code` and `message` and no data.
pub open spec fn is_error(e: RpcErrorReply, id: RequestIdView, code: int, message: Seq<char>) -> bool {
    &&& e.id@ == id
    &&& e.code == code
    &&& e.message@ == message
    &&& e.data is None
}

fn error_reply(id: RequestId, code: i32, message: &str) -> (r: RpcErrorReply)
    ensures
        is_error(r, id@, code as int, message@),
{
    RpcErrorReply { id, code, message: message.to_owned(), data: None }
}

/// The answer to a call of a method that is not registered: "method not
/// found" (`-32601`), echoing the call's id.
pub fn method_not_found(id: RequestId) -> (r: RpcErrorReply)
    ensures
        is_error(r, id@, -32601, "Method not found"@),
{
    error_reply(id, -32601, "Method not found")
}

/// The answer to an entry of a batch that is neither a call nor a
/// notification: "invalid request" (`-32600`), echoing the entry's id where
/// it has one.
pub fn invalid_entry(id: RequestId) -> (r: RpcErrorReply)
    ensures
        is_error(r, id@, -32600, "Invalid request"@),
{
    error_reply(id, -32600, "Invalid request")
}

/// The "too many subscriptions" answer to `id` under the limit `max`.
pub open spec fn is_too_many_subscriptions(e: RpcErrorReply, id: RequestId, max: u32) -> bool {
    &&& e.id == id
    &&& e.code == -32006
    &&& e.message@ == "Too many subscriptions on the connection"@
    &&& e.data matches Some(d) && d@ == "Exceeded max limit of "@ + decimal_text(max as nat)
}

/// The answer to a subscription refused because `max` subscriptions are
/// already active: code `-32006`, and the limit in the data.
pub fn too_many_subscriptions(id: RequestId, max: u32) -> (r: RpcErrorReply)
    ensures
        is_too_many_subscriptions(r, id, max),
{
    let mut data = "Exceeded max limit of ".to_owned();
    let digits = decimal(max as u64);
    data.append(digits.as_str());
    proof {
        reveal_strlit("Exceeded max limit of ");
    }
    RpcErrorReply {
        id,
        code: -32006,
        message: "Too many subscriptions on the connection".to_owned(),
        data: Some(data),
    }
}

/// The id of a request that is JSON but no valid call or notification,
/// as jsonrpsee's `prepare_error` reads it from `body`: `Some(id)` where
/// the body is an object with a readable `id` member, `None` otherwise.
pub uninterp spec fn invalid_request_id(body: Seq<u8>) -> Option<RequestIdView>;

/// Calls jsonrpsee's `prepare_error(body)`: an "invalid request" comes with
/// the id read from the body, a parse error with none. The contract ties
/// the outcome to [`invalid_request_id`]; how serde reads the id is not
/// restated.
#[verifier::external_body]
fn prepared_error_id(body: &[u8]) -> (r: Option<RequestId>)
    ensures
        match r {
            Some(id) => invalid_request_id(body@) == Some(id@),
            None => invalid_request_id(body@) is None,
        },
{
    match jsonrpsee::core::server::helpers::prepare_error(body) {
        (Id::Null, ErrorCode::InvalidRequest) => Some(RequestId::Null),
        (Id::Number(n), ErrorCode::InvalidRequest) => Some(RequestId::Number(n)),
        (Id::Str(s), ErrorCode::InvalidRequest) => Some(RequestId::Str(s.into_owned())),
        _ => None,
    }
}

/// The answer to a single request that is neither a call nor a
/// notification: "invalid request" (`-32600`) with the id read from the
/// body, or, where no id can be read from it, "parse error" (`-32700`)
/// with a null id.
pub fn single_request_error(body: &[u8]) -> (r: RpcErrorReply)
    ensures
        match invalid_request_id(body@) {
            Some(id) => is_error(r, id, -32600, "Invalid request"@),
            None => is_error(r, RequestIdView::Null, -32700, "Parse error"@),
        },
{
    match prepared_error_id(body) {
        Some(id) => error_reply(id, -32600, "Invalid request"),
        None => error_reply(RequestId::Null, -32700, "Parse error"),
    }
}

/// The answer to an entry of a batch that is neither a call nor a
/// notification: "invalid request" (`-32600`) with the id read from the
/// entry, or a null id where none can be read.
pub fn invalid_batch_entry(entry: &[u8]) -> (r: RpcErrorReply)
    ensures
        match invalid_request_id(entry@) {
            Some(id) => is_error(r, id, -32600, "Invalid request"@),
            None => is_error(r, RequestIdView::Null, -32600, "Invalid request"@),
        },
{
    match prepared_error_id(entry) {
        Some(id) => invalid_entry(id),
        None => invalid_entry(RequestId::Null),
    }
}

/// The JSON text of the string `s`: quoted, with the characters JSON
/// requires escaped, as `serde_json` writes it.
pub uninterp spec fn json_quoted(s: Seq<char>) -> Seq<char>;

/// Calls `serde_json::to_string` on a string. The contract names the
/// result by [`json_quoted`]; the escaping rules are not restated.
#[verifier::external_body]
fn json_quote(s: &str) -> (r: String)
    ensures
        r@ == json_quoted(s@),
{
    match serde_json::to_string(s) {
        Ok(text) => text,
        Err(_) => String::new(),
    }
}

/// The JSON text of a request id.
pub open spec fn id_text(id: RequestIdView) -> Seq<char> {
    match id {
        RequestIdView::Null => "null"@,
        RequestIdView::Number(n) => decimal_text(n as nat),
        RequestIdView::Str(s) => json_quoted(s),
    }
}

/// The decimal text of a signed number.
pub open spec fn signed_text(n: int) -> Seq<char> {
    if n < 0 {
        "-"@ + decimal_text((-n) as nat)
    } else {
        decimal_text(n as nat)
    }
}

/// The JSON text of an error answer, its members in the order jsonrpsee
/// writes them: `jsonrpc`, `id`, then `error` with `code`, `message` and,
/// where there is one, `data`.
pub open spec fn reply_text(e: RpcErrorReply) -> Seq<char> {
    "{\"jsonrpc\":\"2.0\",\"id\":"@ + id_text(e.id@) + ",\"error\":{\"code\":"@ + signed_text(
        e.code as int,
    ) + ",\"message\":"@ + json_quoted(e.message@) + match e.data {
        Some(d) => ",\"data\":"@ + json_quoted(d@),
        None => Seq::<char>::empty(),
    } + "}}"@
}

fn signed_decimal(n: i32) -> (r: String)
    ensures
        r@ == signed_text(n as int),
{
    if n < 0 {
        let magnitude: i64 = -(n as i64);
        let mut text = "-".to_owned();
        let digits = decimal(magnitude as u64);
        text.append(digits.as_str());
        proof {
            reveal_strlit("-");
        }
        text
    } else {
        decimal(n as u64)
    }
}

/// Writes an error answer as JSON text (see [`reply_text`]).
pub fn error_text(e: &RpcErrorReply) -> (r: String)
    ensures
        r@ == reply_text(*e),
{
    let mut text = "{\"jsonrpc\":\"2.0\",\"id\":".to_owned();
    match &e.id {
        RequestId::Null => text.append("null"),
        RequestId::Number(n) => {
            let digits = decimal(*n);
            text.append(digits.as_str());
        },
        RequestId::Str(s) => {
            let quoted = json_quote(s.as_str());
            text.append(quoted.as_str());
        },
    }
    text.append(",\"error\":{\"code\":");
    let code = signed_decimal(e.code);
    text.append(code.as_str());
    text.append(",\"message\":");
    let message = json_quote(e.message.as_str());
    text.append(message.as_str());
    match &e.data {
        Some(d) => {
            text.append(",\"data\":");
            let data = json_quote(d.as_str());
            text.append(data.as_str());
        },
        None => {},
    }
    text.append("}}");
    proof {
        reveal_strlit("{\"jsonrpc\":\"2.0\",\"id\":");
        reveal_strlit("null");
        reveal_strlit(",\"error\":{\"code\":");
        reveal_strlit(",\"message\":");
        reveal_strlit(",\"data\":");
        reveal_strlit("}}");
    }
    text
}

/// The largest batch a configuration admits (`None`: batches are refused).
pub open spec fn batch_limit(c: BatchRequestConfig) -> Option<nat> {
    match c {
        BatchRequestConfig::Disabled => None,
        BatchRequestConfig::Limit(l) => Some(l as nat),
        BatchRequestConfig::Unlimited => Some(usize::MAX as nat),
    }
}

/// The answer to a batch sent where batches are refused.
pub open spec fn is_batch_refused(e: RpcErrorReply) -> bool {
    is_error(e, RequestIdView::Null, -32600, "Batch requests not supported"@)
}

/// The answer to a batch longer than `max` entries.
pub open spec fn is_batch_too_large(e: RpcErrorReply, max: nat) -> bool {
    is_error(e, RequestIdView::Null, -32600, "Batch too large: max "@ + decimal_text(max))
}

/// The answer to a batch whose body is not a JSON array.
pub open spec fn is_batch_parse_error(e: RpcErrorReply) -> bool {
    is_error(e, RequestIdView::Null, -32700, "Parse error"@)
}

/// Admits a batch of `len` requests, or says why not: a disabled
/// configuration refuses every batch, a limit refuses longer batches; both
/// answer with the JSON-RPC "invalid request" code and a null id.
pub fn check_batch(config: BatchRequestConfig, len: usize) -> (r: Result<(), RpcErrorReply>)
    ensures
        match batch_limit(config) {
            None => r matches Err(e) && is_batch_refused(e),
            Some(max) => if len > max {
                r matches Err(e) && is_batch_too_large(e, max)
            } else {
                r is Ok
            },
        },
        config is Limit ==> (r is Ok <==> len <= config->0),
        config is Unlimited ==> r is Ok,
        config is Disabled ==> r is Err,
{
    let max_len: usize = match config {
        BatchRequestConfig::Disabled => {
            return Err(error_reply(RequestId::Null, -32600, "Batch requests not supported"));
        },
        BatchRequestConfig::Limit(limit) => limit as usize,
        BatchRequestConfig::Unlimited => usize::MAX,
    };
    if len > max_len {
        let mut message = "Batch too large: max ".to_owned();
        let digits = decimal(max_len as u64);
        message.append(digits.as_str());
        proof {
            reveal_strlit("Batch too large: max ");
        }
        return Err(RpcErrorReply { id: RequestId::Null, code: -32600, message, data: None });
    }
    Ok(())
}

/// The entries of a batch body, each as the raw text of its JSON value,
/// in order, as `serde_json` reads the body as an array of raw values
/// (`None`: the body is not such an array).
pub uninterp spec fn parsed_batch(body: Seq<u8>) -> Option<Seq<Seq<u8>>>;

/// Calls `serde_json::from_slice::<Vec<&RawValue>>(body)` and hands out
/// each entry's raw text as bytes. The contract ties the outcome, entry by
/// entry, to [`parsed_batch`]; what serde_json accepts as an array is not
/// restated.
#[verifier::external_body]
fn batch_entries(body: &[u8]) -> (r: Option<Vec<Vec<u8>>>)
    ensures
        r is Some <==> parsed_batch(body@) is Some,
        r matches Some(entries) ==> entries.deep_view() == parsed_batch(body@)->0,
{
    match serde_json::from_slice::<Vec<&serde_json::value::RawValue>>(body) {
        Ok(entries) => Some(entries.iter().map(|e| e.get().as_bytes().to_vec()).collect()),
        Err(_) => None,
    }
}

/// Decides a batch once its body has been read as `parsed` (its entries,
/// or `None` where the body is not an array): a disabled configuration
/// refuses it, an unreadable body is a parse error, a batch over the limit
/// is refused; otherwise the entries go on, in order.
pub fn admit_batch(config: BatchRequestConfig, parsed: Option<Vec<Vec<u8>>>) -> (r: Result<
    Vec<Vec<u8>>,
    RpcErrorReply,
>)
    ensures
        match (batch_limit(config), parsed) {
            (None, _) => r matches Err(e) && is_batch_refused(e),
            (Some(_), None) => r matches Err(e) && is_batch_parse_error(e),
            (Some(max), Some(entries)) => if entries@.len() > max {
                r matches Err(e) && is_batch_too_large(e, max)
            } else {
                r matches Ok(admitted) && admitted@ == entries@
            },
        },
        (config is Limit && parsed is Some) ==> (r is Ok <==> parsed->0@.len() <= config->0),
{
    if let BatchRequestConfig::Disabled = config {
        return Err(error_reply(RequestId::Null, -32600, "Batch requests not supported"));
    }
    match parsed {
        None => Err(error_reply(RequestId::Null, -32700, "Parse error")),
        Some(entries) => match check_batch(config, entries.len()) {
            Ok(()) => Ok(entries),
            Err(e) => Err(e),
        },
    }
}

/// Handles the body of a batch: a disabled configuration answers before
/// the body is read; otherwise the body is read as an array of raw JSON
/// values and [`admit_batch`] decides. On success the entries come out in
/// the order of the body.
pub fn batch_request(config: BatchRequestConfig, body: &[u8]) -> (r: Result<Vec<Vec<u8>>, RpcErrorReply>)
    ensures
        config is Disabled ==> (r matches Err(e) && is_batch_refused(e)),
        !(config is Disabled) ==> match parsed_batch(body@) {
            None => r matches Err(e) && is_batch_parse_error(e),
            Some(entries) => if entries.len() > batch_limit(config)->0 {
                r matches Err(e) && is_batch_too_large(e, batch_limit(config)->0)
            } else {
                r matches Ok(admitted) && admitted.deep_view() == entries
            },
        },
        (config is Limit && parsed_batch(body@) is Some) ==> (r is Ok <==> parsed_batch(body@)->0.len()
            <= config->0),
{
    if let BatchRequestConfig::Disabled = config {
        return Err(error_reply(RequestId::Null, -32600, "Batch requests not supported"));
    }
    let parsed = batch_entries(body);
    let ghost entries = parsed;
    let r = admit_batch(config, parsed);
    proof {
        if let Some(v) = entries {
            assert(v.deep_view().len() == v@.len());
        }
    }
    r
}

/// How the server handles a batch once its entries are processed: a batch
/// of notifications only is answered like a notification (with nothing),
/// any other batch with the array of its answers.
#[derive(PartialEq, Eq, Structural, Clone, Copy, Debug)]
pub enum BatchReply {
    Notification,
    Answers,
}

/// Counts what the entries of a batch produced.
pub struct BatchTally {
    answers: usize,
    got_notification: bool,
}

impl BatchTally {
    /// Answers collected so far.
    pub closed spec fn answer_count(&self) -> nat {
        self.answers as nat
    }

    /// Whether a notification was among the entries.
    pub closed spec fn saw_notification(&self) -> bool {
        self.got_notification
    }

    /// Nothing processed yet.
    pub fn new() -> (r: BatchTally)
        ensures
            r.answer_count() == 0,
            !r.saw_notification(),
    {
        BatchTally { answers: 0, got_notification: false }
    }

    /// A call or an invalid entry produced an answer.
    pub fn record_answer(&mut self)
        requires
            old(self).answer_count() < usize::MAX,
        ensures
            final(self).answer_count() == old(self).answer_count() + 1,
            final(self).saw_notification() == old(self).saw_notification(),
    {
        self.answers = self.answers + 1;
    }

    /// A notification was processed; it produces no answer.
    pub fn record_notification(&mut self)
        ensures
            final(self).answer_count() == old(self).answer_count(),
            final(self).saw_notification(),
    {
        self.got_notification = true;
    }

    /// How the batch is answered.
    pub fn reply(&self) -> (r: BatchReply)
        ensures
            r == (if self.answer_count() == 0 && self.saw_notification() {
                BatchReply::Notification
            } else {
                BatchReply::Answers
            }),
    {
        if self.answers == 0 && self.got_notification {
            BatchReply::Notification
        } else {
            BatchReply::Answers
        }
    }
}

/// How many subscriptions one connection may hold at once.
pub const MAX_SUBSCRIPTIONS_PER_CONNECTION: u32 = 100;

/// The kinds of registered methods.
#[derive(PartialEq, Eq, Structural, Clone, Copy, Debug)]
pub enum MethodKind {
    Sync,
    Async,
    Subscription,
    Unsubscription,
}

/// How a call is dispatched.
#[derive(Clone, Debug)]
pub enum MethodRoute {
    /// No method of that name: answer with this "method not found" error.
    NotFound(RpcErrorReply),
    /// Run the synchronous callback and answer at once.
    RunSync,
    /// Run the asynchronous callback.
    RunAsync,
    /// A subscription: a subscription slot must be acquired first.
    NeedsSlot,
    /// Run the unsubscription callback and answer at once.
    RunUnsubscribe,
    /// Start the subscription in the acquired slot.
    Subscribe,
    /// No slot left: answer with this "too many subscriptions" error.
    TooManySubscriptions(RpcErrorReply),
}

/// Dispatches the call `id` by the kind of the method found under its
/// name; a missing method is answered "method not found" with the call's
/// id.
pub fn route_method(id: RequestId, found: Option<MethodKind>) -> (r: MethodRoute)
    ensures
        match found {
            None => r matches MethodRoute::NotFound(e) && is_error(e, id@, -32601, "Method not found"@),
            Some(MethodKind::Sync) => r is RunSync,
            Some(MethodKind::Async) => r is RunAsync,
            Some(MethodKind::Subscription) => r is NeedsSlot,
            Some(MethodKind::Unsubscription) => r is RunUnsubscribe,
        },
{
    match found {
        None => MethodRoute::NotFound(method_not_found(id)),
        Some(MethodKind::Sync) => MethodRoute::RunSync,
        Some(MethodKind::Async) => MethodRoute::RunAsync,
        Some(MethodKind::Subscription) => MethodRoute::NeedsSlot,
        Some(MethodKind::Unsubscription) => MethodRoute::RunUnsubscribe,
    }
}

/// Admits the subscription call `id` when a slot was acquired, and
/// otherwise answers "too many subscriptions" with the limit `max`.
pub fn admit_subscription(id: RequestId, slot_acquired: bool, max: u32) -> (r: MethodRoute)
    ensures
        slot_acquired ==> r is Subscribe,
        !slot_acquired ==> (r matches MethodRoute::TooManySubscriptions(e) && is_too_many_subscriptions(
            e,
            id,
            max,
        )),
{
    if slot_acquired {
        MethodRoute::Subscribe
    } else {
        MethodRoute::TooManySubscriptions(too_many_subscriptions(id, max))
    }
}

/// What happened on a JSON-RPC connection.
#[derive(Debug)]
pub enum JsonRpcEvent {
    /// A frame was read, or reading failed.
    Frame(Result<Vec<u8>, IrohTransportError>),
    /// An answer was written (`true`) or writing it failed.
    AnswerWritten(bool),
    /// A subscription notification was written (`true`) or writing it failed.
    NotificationWritten(bool),
    /// A subscription forwarder finished with this result.
    SubscriptionEnded(Result<(), IrohTransportError>),
    /// A subscription forwarder panicked.
    SubscriptionPanicked,
}

/// What the connection loop does next.
#[derive(Debug)]
pub enum JsonRpcAction {
    /// Leave the loop and close the connection normally.
    Close,
    /// Leave the loop and close the connection with this error.
    Fail(IrohTransportError),
    /// Answer with the parse error.
    ReplyParseError,
    /// Hand the frame, from this index, to the method table as a single
    /// request (`true`) or a batch.
    Dispatch { start: usize, single: bool },
    /// Keep serving.
    Continue,
}

/// The decisions of the server's connection loop: a failed read closes the
/// connection; a frame is dispatched by its shape or answered with a parse
/// error; failing to write an answer closes the connection, failing to
/// forward a notification does not; a subscription that ends with an error
/// closes the connection with that error.
pub fn jsonrpc_step(event: JsonRpcEvent) -> (a: JsonRpcAction)
    ensures
        match event {
            JsonRpcEvent::Frame(Err(_)) => a is Close,
            JsonRpcEvent::Frame(Ok(data)) => match a {
                JsonRpcAction::Dispatch { start, single } => (single && first_content(
                    data@,
                    start as int,
                ) && data@[start as int] == 0x7Bu8) || (!single && first_content(
                    data@,
                    start as int,
                ) && data@[start as int] == 0x5Bu8),
                JsonRpcAction::ReplyParseError => forall|i: int|
                    #[trigger] first_content(data@, i) ==> data@[i] != 0x7Bu8 && data@[i] != 0x5Bu8,
                _ => false,
            },
            JsonRpcEvent::AnswerWritten(ok) => if ok {
                a is Continue
            } else {
                a is Close
            },
            JsonRpcEvent::NotificationWritten(_) => a is Continue,
            JsonRpcEvent::SubscriptionEnded(Ok(())) => a is Continue,
            JsonRpcEvent::SubscriptionEnded(Err(e)) => a == JsonRpcAction::Fail(e),
            JsonRpcEvent::SubscriptionPanicked => a is Continue,
        },
{
    match event {
        JsonRpcEvent::Frame(Err(_)) => JsonRpcAction::Close,
        JsonRpcEvent::Frame(Ok(data)) => match request_shape(data.as_slice()) {
            RequestShape::Single(start) => JsonRpcAction::Dispatch { start, single: true },
            RequestShape::Batch(start) => JsonRpcAction::Dispatch { start, single: false },
            RequestShape::Unparseable => JsonRpcAction::ReplyParseError,
        },
        JsonRpcEvent::AnswerWritten(ok) => if ok {
            JsonRpcAction::Continue
        } else {
            JsonRpcAction::Close
        },
        JsonRpcEvent::NotificationWritten(_) => JsonRpcAction::Continue,
        JsonRpcEvent::SubscriptionEnded(Ok(())) => JsonRpcAction::Continue,
        JsonRpcEvent::SubscriptionEnded(Err(e)) => JsonRpcAction::Fail(e),
        JsonRpcEvent::SubscriptionPanicked => JsonRpcAction::Continue,
    }
}

} // verus!
