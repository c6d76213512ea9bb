//! The client side: the messages of the protocol, the client's errors, and
//! the sequence of steps of a call, a subscription, a notification stream
//! and a raw stream.
//!
//! Every exchange opens a fresh stream, sends one request and reads one
//! answer. A call ends there. The other kinds then accept the channel the
//! server opens and check its handshake: an `Established` message naming
//! the requested service and resource, or the two bytes `OK` on a raw
//! stream. The network work is done by the caller:
//! [`ClientExchange::step`] takes what happened and says what to do next.

use vstd::prelude::*;

use crate::errors::ResourceError;
use crate::routing::ResourceKind;

verus! {

#[verifier::external_type_specification]
#[verifier::external_body]
pub struct ExJsonError(serde_json::Error);

/// The body of a request: which kind of endpoint it asks for, with its
/// parameters.
#[derive(Clone, Debug, PartialEq, Eq)]
pub enum Body {
    /// Subscription request without parameters.
    Subscribe,
    /// Method call (or parameterised subscription) with its parameters.
    Rpc(Vec<u8>),
    /// Raw stream request with its parameters.
    Stream(Vec<u8>),
    /// Notification stream request with its parameters.
    Notify(Vec<u8>),
}

/// A request: the service and resource it is routed to, and its body.
#[derive(Clone, Debug)]
pub struct Request {
    pub service: String,
    pub resource: String,
    pub body: Body,
}

/// A successful answer.
#[derive(Clone, Debug)]
pub struct Response {
    pub data: Vec<u8>,
}

/// Messages from server to client on a subscription channel.
#[derive(Clone, Debug)]
pub enum SubscriptionMsg {
    Established { service: String, resource: String },
    Data(Vec<u8>),
    Stopped,
    ServerShutdown,
}

/// Messages on a notification channel.
#[derive(Clone, Debug)]
pub enum NotificationMsg {
    Established { service: String, resource: String },
    Data(Vec<u8>),
    Ack,
    Error(String),
    Completed,
    ServerShutdown,
}

/// Errors of client operations.
#[derive(Debug)]
pub enum ClientError {
    Io(std::io::Error),
    Serialization(serde_json::Error),
    Resource(ResourceError),
    Connection(String),
    Protocol(String),
}

/// The view of a body: its variant and its bytes.
pub open spec fn body_view(b: Body) -> (u8, Seq<u8>) {
    match b {
        Body::Subscribe => (0, Seq::<u8>::empty()),
        Body::Rpc(d) => (1, d@),
        Body::Stream(d) => (2, d@),
        Body::Notify(d) => (3, d@),
    }
}

/// The body an exchange of this kind sends, by variant and bytes: a call
/// carries its parameters (none counting as empty); a subscription carries
/// them as a method body when there are some and is a bare subscription
/// otherwise; notification and raw stream requests carry them, none
/// counting as empty.
pub open spec fn expected_body(kind: ResourceKind, params: Option<Seq<u8>>) -> (u8, Seq<u8>) {
    let data = match params {
        Some(p) => p,
        None => Seq::<u8>::empty(),
    };
    match kind {
        ResourceKind::Rpc => (1, data),
        ResourceKind::Subscription => match params {
            Some(p) => (1, p),
            None => (0, Seq::<u8>::empty()),
        },
        ResourceKind::Notification => (3, data),
        ResourceKind::Stream => (2, data),
    }
}

/// Where a client exchange stands.
#[derive(PartialEq, Eq, Structural, Clone, Copy, Debug)]
pub enum ExchangePhase {
    /// The stream for the request is being opened.
    Opening,
    /// The request is being sent.
    Sending,
    /// The answer to the request is awaited.
    AwaitingAnswer,
    /// The channel opened by the server is being accepted.
    Accepting,
    /// The handshake on that channel is awaited.
    AwaitingHandshake,
    /// The exchange is over.
    Done,
}

/// What happened.
#[derive(Debug)]
pub enum ExchangeEvent {
    /// The request stream was opened.
    Opened,
    /// Opening the request stream failed; the failure's text.
    OpenFailed(String),
    /// The request could not be serialized.
    Unencodable(serde_json::Error),
    /// The request was sent.
    Sent,
    /// Sending the request failed; the failure's text.
    SendFailed(String),
    /// The stream ended without an answer.
    NoAnswer,
    /// Reading the answer failed; the failure's text.
    ReadFailed(String),
    /// A message could not be deserialized.
    Undecodable(serde_json::Error),
    /// The answer arrived.
    Answered(Result<Response, ResourceError>),
    /// The server's channel was accepted.
    Accepted,
    /// Accepting the server's channel failed; the failure's text.
    AcceptFailed(String),
    /// The channel ended before its first message.
    NoHandshake,
    /// The first message on a subscription channel.
    SubscriptionHandshake(SubscriptionMsg),
    /// The first message on a notification channel.
    NotificationHandshake(NotificationMsg),
    /// The first two bytes of a raw stream.
    StreamAck(u8, u8),
}

/// What to do next.
#[derive(Debug)]
pub enum ExchangeAction {
    /// Serialize the exchange's request and send it on the stream.
    SendRequest,
    /// Read and deserialize the answer.
    ReadAnswer,
    /// Accept the unidirectional channel the server opens.
    AcceptUni,
    /// Accept the bidirectional channel the server opens.
    AcceptBi,
    /// Read and deserialize the first message of the channel.
    ReadHandshake,
    /// Read the first two bytes of the raw stream.
    ReadStreamAck,
    /// The exchange is over with this outcome: the answer for a call,
    /// nothing for the other kinds (whose channel is now ready), or an error.
    Return(Result<Option<Response>, ClientError>),
    /// The event does not belong to this phase; nothing to do.
    Ignore,
}

/// The protocol error for a handshake that names another endpoint.
pub open spec fn mismatch_text(
    service: Seq<char>,
    resource: Seq<char>,
    got_service: Seq<char>,
    got_resource: Seq<char>,
) -> Seq<char> {
    "Established message mismatch: expected "@ + service + "/"@ + resource + ", got "@
        + got_service + "/"@ + got_resource
}

/// Whether an outcome is a connection error with this text.
pub open spec fn is_connection_error(a: ExchangeAction, text: Seq<char>) -> bool {
    a matches ExchangeAction::Return(Err(ClientError::Connection(t))) && t@ == text
}

/// Whether an outcome is a protocol error with this text.
pub open spec fn is_protocol_error(a: ExchangeAction, text: Seq<char>) -> bool {
    a matches ExchangeAction::Return(Err(ClientError::Protocol(t))) && t@ == text
}

/// The outcome of the handshake of a subscription or notification
/// exchange for `service`/`resource` when the first message is
/// `Established` naming `s`/`r`, or is another message (`None`).
pub open spec fn handshake_outcome(
    service: Seq<char>,
    resource: Seq<char>,
    named: Option<(Seq<char>, Seq<char>)>,
    a: ExchangeAction,
) -> bool {
    match named {
        Some((s, r)) => if s == service && r == resource {
            a matches ExchangeAction::Return(Ok(None))
        } else {
            is_protocol_error(a, mismatch_text(service, resource, s, r))
        },
        None => is_protocol_error(a, "Expected Established message, got something else"@),
    }
}

/// How the phase and the action follow from the phase and the event, for
/// an exchange of `kind` with `service`/`resource`.
pub open spec fn exchange_transition(
    kind: ResourceKind,
    service: Seq<char>,
    resource: Seq<char>,
    p: ExchangePhase,
    e: ExchangeEvent,
    next: ExchangePhase,
    a: ExchangeAction,
) -> bool {
    match (p, e) {
        (ExchangePhase::Opening, ExchangeEvent::Opened) => next == ExchangePhase::Sending
            && a is SendRequest,
        (ExchangePhase::Opening, ExchangeEvent::OpenFailed(t)) => next == ExchangePhase::Done
            && is_connection_error(a, t@),
        (ExchangePhase::Sending, ExchangeEvent::Unencodable(err)) => next == ExchangePhase::Done
            && a == ExchangeAction::Return(Err(ClientError::Serialization(err))),
        (ExchangePhase::Sending, ExchangeEvent::Sent) => next == ExchangePhase::AwaitingAnswer
            && a is ReadAnswer,
        (ExchangePhase::Sending, ExchangeEvent::SendFailed(t)) => next == ExchangePhase::Done
            && is_connection_error(a, t@),
        (ExchangePhase::AwaitingAnswer, ExchangeEvent::NoAnswer) => next == ExchangePhase::Done
            && is_protocol_error(a, "No response received"@),
        (ExchangePhase::AwaitingAnswer, ExchangeEvent::ReadFailed(t)) => next
            == ExchangePhase::Done && is_connection_error(a, t@),
        (ExchangePhase::AwaitingAnswer, ExchangeEvent::Undecodable(err)) => next
            == ExchangePhase::Done && a == ExchangeAction::Return(
            Err(ClientError::Serialization(err)),
        ),
        (ExchangePhase::AwaitingAnswer, ExchangeEvent::Answered(Err(err))) => next
            == ExchangePhase::Done && a == ExchangeAction::Return(Err(ClientError::Resource(err))),
        (ExchangePhase::AwaitingAnswer, ExchangeEvent::Answered(Ok(resp))) => match kind {
            ResourceKind::Rpc => next == ExchangePhase::Done && a == ExchangeAction::Return(
                Ok(Some(resp)),
            ),
            ResourceKind::Subscription => next == ExchangePhase::Accepting && a is AcceptUni,
            _ => next == ExchangePhase::Accepting && a is AcceptBi,
        },
        (ExchangePhase::Accepting, ExchangeEvent::Accepted) => next
            == ExchangePhase::AwaitingHandshake && (if kind == ResourceKind::Stream {
            a is ReadStreamAck
        } else {
            a is ReadHandshake
        }),
        (ExchangePhase::Accepting, ExchangeEvent::AcceptFailed(t)) => next == ExchangePhase::Done
            && is_connection_error(a, t@),
        (ExchangePhase::AwaitingHandshake, ExchangeEvent::NoHandshake) => next
            == ExchangePhase::Done && is_protocol_error(a, "No established message received"@),
        (ExchangePhase::AwaitingHandshake, ExchangeEvent::ReadFailed(t)) => next
            == ExchangePhase::Done && is_connection_error(a, t@),
        (ExchangePhase::AwaitingHandshake, ExchangeEvent::Undecodable(err)) => next
            == ExchangePhase::Done && a == ExchangeAction::Return(
            Err(ClientError::Serialization(err)),
        ),
        (ExchangePhase::AwaitingHandshake, ExchangeEvent::SubscriptionHandshake(m)) => next
            == ExchangePhase::Done && handshake_outcome(
            service,
            resource,
            match m {
                SubscriptionMsg::Established { service: s, resource: r } => Some((s@, r@)),
                _ => None,
            },
            a,
        ),
        (ExchangePhase::AwaitingHandshake, ExchangeEvent::NotificationHandshake(m)) => next
            == ExchangePhase::Done && handshake_outcome(
            service,
            resource,
            match m {
                NotificationMsg::Established { service: s, resource: r } => Some((s@, r@)),
                _ => None,
            },
            a,
        ),
        (ExchangePhase::AwaitingHandshake, ExchangeEvent::StreamAck(b0, b1)) => next
            == ExchangePhase::Done && if b0 == 79u8 && b1 == 75u8 {
            a matches ExchangeAction::Return(Ok(None))
        } else {
            is_protocol_error(a, "Invalid stream ACK"@)
        },
        _ => next == p && a is Ignore,
    }
}

/// One call, subscription, notification stream or raw stream request.
pub struct ClientExchange {
    kind: ResourceKind,
    request: Request,
    phase: ExchangePhase,
}

impl ClientExchange {
    /// The kind of endpoint asked for.
    pub closed spec fn kind(&self) -> ResourceKind {
        self.kind
    }

    /// The requested service.
    pub closed spec fn service(&self) -> Seq<char> {
        self.request.service@
    }

    /// The requested resource.
    pub closed spec fn resource(&self) -> Seq<char> {
        self.request.resource@
    }

    /// The current phase.
    pub closed spec fn phase(&self) -> ExchangePhase {
        self.phase
    }

    /// The request the exchange sends.
    pub closed spec fn spec_request(&self) -> Request {
        self.request
    }

    /// Starts an exchange of `kind` with `service`/`resource`.
    pub fn new(kind: ResourceKind, service: String, resource: String, params: Option<Vec<u8>>) -> (r:
        ClientExchange)
        ensures
            r.kind() == kind,
            r.service() == service@,
            r.resource() == resource@,
            r.phase() == ExchangePhase::Opening,
            r.spec_request().service@ == service@,
            r.spec_request().resource@ == resource@,
            body_view(r.spec_request().body) == expected_body(
                kind,
                match params {
                    Some(p) => Some(p@),
                    None => None,
                },
            ),
    {
        let body = match kind {
            ResourceKind::Rpc => Body::Rpc(params_or_empty(params)),
            ResourceKind::Subscription => match params {
                Some(p) => Body::Rpc(p),
                None => Body::Subscribe,
            },
            ResourceKind::Notification => Body::Notify(params_or_empty(params)),
            ResourceKind::Stream => Body::Stream(params_or_empty(params)),
        };
        ClientExchange {
            kind,
            request: Request { service, resource, body },
            phase: ExchangePhase::Opening,
        }
    }

    /// The request the exchange sends.
    pub fn request(&self) -> (r: &Request)
        ensures
            *r == self.spec_request(),
    {
        &self.request
    }

    /// The current phase.
    pub fn current(&self) -> (r: ExchangePhase)
        ensures
            r == self.phase(),
    {
        self.phase
    }

    /// Takes what happened and says what to do next.
    pub fn step(&mut self, event: ExchangeEvent) -> (a: ExchangeAction)
        ensures
            final(self).kind() == old(self).kind(),
            final(self).service() == old(self).service(),
            final(self).resource() == old(self).resource(),
            final(self).spec_request() == old(self).spec_request(),
            exchange_transition(
                old(self).kind(),
                old(self).service(),
                old(self).resource(),
                old(self).phase(),
                event,
                final(self).phase(),
                a,
            ),
            old(self).phase() == ExchangePhase::Accepting && event is Accepted ==> ((a is ReadStreamAck
                <==> old(self).kind() == ResourceKind::Stream) && (old(self).kind()
                != ResourceKind::Stream ==> a is ReadHandshake)),
    {
        let kind = self.kind;
        let (next, action) = match (self.phase, event) {
            (ExchangePhase::Opening, ExchangeEvent::Opened) => (
                ExchangePhase::Sending,
                ExchangeAction::SendRequest,
            ),
            (ExchangePhase::Opening, ExchangeEvent::OpenFailed(t)) => (
                ExchangePhase::Done,
                ExchangeAction::Return(Err(ClientError::Connection(t))),
            ),
            (ExchangePhase::Sending, ExchangeEvent::Unencodable(err)) => (
                ExchangePhase::Done,
                ExchangeAction::Return(Err(ClientError::Serialization(err))),
            ),
            (ExchangePhase::Sending, ExchangeEvent::Sent) => (
                ExchangePhase::AwaitingAnswer,
                ExchangeAction::ReadAnswer,
            ),
            (ExchangePhase::Sending, ExchangeEvent::SendFailed(t)) => (
                ExchangePhase::Done,
                ExchangeAction::Return(Err(ClientError::Connection(t))),
            ),
            (ExchangePhase::AwaitingAnswer, ExchangeEvent::NoAnswer) => (
                ExchangePhase::Done,
                ExchangeAction::Return(Err(protocol_error("No response received"))),
            ),
            (ExchangePhase::AwaitingAnswer, ExchangeEvent::ReadFailed(t)) => (
                ExchangePhase::Done,
                ExchangeAction::Return(Err(ClientError::Connection(t))),
            ),
            (ExchangePhase::AwaitingAnswer, ExchangeEvent::Undecodable(err)) => (
                ExchangePhase::Done,
                ExchangeAction::Return(Err(ClientError::Serialization(err))),
            ),
            (ExchangePhase::AwaitingAnswer, ExchangeEvent::Answered(Err(err))) => (
                ExchangePhase::Done,
                ExchangeAction::Return(Err(ClientError::Resource(err))),
            ),
            (ExchangePhase::AwaitingAnswer, ExchangeEvent::Answered(Ok(resp))) => match kind {
                ResourceKind::Rpc => (ExchangePhase::Done, ExchangeAction::Return(Ok(Some(resp)))),
                ResourceKind::Subscription => (ExchangePhase::Accepting, ExchangeAction::AcceptUni),
                _ => (ExchangePhase::Accepting, ExchangeAction::AcceptBi),
            },
            (ExchangePhase::Accepting, ExchangeEvent::Accepted) => match kind {
                ResourceKind::Stream => (
                    ExchangePhase::AwaitingHandshake,
                    ExchangeAction::ReadStreamAck,
                ),
                _ => (ExchangePhase::AwaitingHandshake, ExchangeAction::ReadHandshake),
            },
            (ExchangePhase::Accepting, ExchangeEvent::AcceptFailed(t)) => (
                ExchangePhase::Done,
                ExchangeAction::Return(Err(ClientError::Connection(t))),
            ),
            (ExchangePhase::AwaitingHandshake, ExchangeEvent::NoHandshake) => (
                ExchangePhase::Done,
                ExchangeAction::Return(Err(protocol_error("No established message received"))),
            ),
            (ExchangePhase::AwaitingHandshake, ExchangeEvent::ReadFailed(t)) => (
                ExchangePhase::Done,
                ExchangeAction::Return(Err(ClientError::Connection(t))),
            ),
            (ExchangePhase::AwaitingHandshake, ExchangeEvent::Undecodable(err)) => (
                ExchangePhase::Done,
                ExchangeAction::Return(Err(ClientError::Serialization(err))),
            ),
            (ExchangePhase::AwaitingHandshake, ExchangeEvent::SubscriptionHandshake(m)) => {
                let outcome = match m {
                    SubscriptionMsg::Established { service: s, resource: r } => check_established(
                        &self.request.service,
                        &self.request.resource,
                        s,
                        r,
                    ),
                    _ => Err(protocol_error("Expected Established message, got something else")),
                };
                (ExchangePhase::Done, ExchangeAction::Return(outcome))
            },
            (ExchangePhase::AwaitingHandshake, ExchangeEvent::NotificationHandshake(m)) => {
                let outcome = match m {
                    NotificationMsg::Established { service: s, resource: r } => check_established(
                        &self.request.service,
                        &self.request.resource,
                        s,
                        r,
                    ),
                    _ => Err(protocol_error("Expected Established message, got something else")),
                };
                (ExchangePhase::Done, ExchangeAction::Return(outcome))
            },
            (ExchangePhase::AwaitingHandshake, ExchangeEvent::StreamAck(b0, b1)) => {
                let outcome = if b0 == 79u8 && b1 == 75u8 {
                    Ok(None)
                } else {
                    Err(protocol_error("Invalid stream ACK"))
                };
                (ExchangePhase::Done, ExchangeAction::Return(outcome))
            },
            (p, _) => (p, ExchangeAction::Ignore),
        };
        self.phase = next;
        action
    }
}

/// The parameters, none counting as empty.
fn params_or_empty(params: Option<Vec<u8>>) -> (r: Vec<u8>)
    ensures
        r@ == match params {
            Some(p) => p@,
            None => Seq::<u8>::empty(),
        },
{
    match params {
        Some(p) => p,
        None => Vec::new(),
    }
}

/// A protocol error with this text.
fn protocol_error(text: &str) -> (r: ClientError)
    ensures
        r matches ClientError::Protocol(t) && t@ == text@,
{
    ClientError::Protocol(text.to_owned())
}

/// Checks that an `Established` message names the requested endpoint.
fn check_established(service: &String, resource: &String, s: String, r: String) -> (out: Result<
    Option<Response>,
    ClientError,
>)
    ensures
        s@ == service@ && r@ == resource@ ==> out matches Ok(None),
        !(s@ == service@ && r@ == resource@) ==> (out matches Err(ClientError::Protocol(t)) && t@
            == mismatch_text(service@, resource@, s@, r@)),
{
    if s.eq(service) && r.eq(resource) {
        Ok(None)
    } else {
        let mut t = "Established message mismatch: expected ".to_owned();
        t.append(service.as_str());
        t.append("/");
        t.append(resource.as_str());
        t.append(", got ");
        t.append(s.as_str());
        t.append("/");
        t.append(r.as_str());
        proof {
            reveal_strlit("Established message mismatch: expected ");
            reveal_strlit("/");
            reveal_strlit(", got ");
            assert(t@ =~= mismatch_text(service@, resource@, s@, r@));
        }
        Err(ClientError::Protocol(t))
    }
}

/// The outcome of a notification's acknowledgment: `Ack` succeeds, `Error`
/// is the server's error, anything else is unexpected.
pub open spec fn ack_outcome(m: NotificationMsg, r: Result<(), ClientError>) -> bool {
    match m {
        NotificationMsg::Ack => r is Ok,
        NotificationMsg::Error(e) => r matches Err(ClientError::Protocol(t)) && t@ == "Server error: "@
            + e@,
        _ => r matches Err(ClientError::Protocol(t)) && t@ == "Unexpected message type"@,
    }
}

/// Interprets the server's answer to one notification message.
pub fn interpret_ack(m: NotificationMsg) -> (r: Result<(), ClientError>)
    ensures
        ack_outcome(m, r),
{
    match m {
        NotificationMsg::Ack => Ok(()),
        NotificationMsg::Error(e) => {
            let mut t = "Server error: ".to_owned();
            t.append(e.as_str());
            proof {
                reveal_strlit("Server error: ");
            }
            Err(ClientError::Protocol(t))
        },
        _ => Err(protocol_error("Unexpected message type")),
    }
}

/// The handshake a server sends on a new subscription channel: it names
/// the request's service and resource.
pub fn subscription_established(request: &Request) -> (m: SubscriptionMsg)
    ensures
        m matches SubscriptionMsg::Established { service, resource } && service@ == request.service@
            && resource@ == request.resource@,
{
    SubscriptionMsg::Established { service: request.service.clone(), resource: request.resource.clone() }
}

/// The handshake a server sends on a new notification channel: it names
/// the request's service and resource.
pub fn notification_established(request: &Request) -> (m: NotificationMsg)
    ensures
        m matches NotificationMsg::Established { service, resource } && service@ == request.service@
            && resource@ == request.resource@,
{
    NotificationMsg::Established { service: request.service.clone(), resource: request.resource.clone() }
}

/// Calls `serde_json::Error`'s `Display`. Nothing is claimed of the text.
#[verifier::external_body]
fn json_error_text(error: &serde_json::Error) -> String {
    error.to_string()
}

impl ClientError {
    /// The display text of the error: a prefix naming the kind of failure,
    /// then the failure's own text.
    pub fn text(&self) -> (r: String)
        ensures
            match self {
                ClientError::Io(_) => r@.len() >= 10 && r@.subrange(0, 10) == "IO error: "@,
                ClientError::Serialization(_) => r@.len() >= 21 && r@.subrange(0, 21)
                    == "Serialization error: "@,
                ClientError::Resource(e) => r@ == "Resource error: "@ + e.spec_text(),
                ClientError::Connection(t) => r@ == "Connection error: "@ + t@,
                ClientError::Protocol(t) => r@ == "Protocol error: "@ + t@,
            },
    {
        proof {
            reveal_strlit("IO error: ");
            reveal_strlit("Serialization error: ");
            reveal_strlit("Resource error: ");
            reveal_strlit("Connection error: ");
            reveal_strlit("Protocol error: ");
        }
        let (prefix, body) = match self {
            ClientError::Io(e) => ("IO error: ", crate::classification::io_error_text(e)),
            ClientError::Serialization(e) => ("Serialization error: ", json_error_text(e)),
            ClientError::Resource(e) => ("Resource error: ", e.text()),
            ClientError::Connection(t) => ("Connection error: ", t.clone()),
            ClientError::Protocol(t) => ("Protocol error: ", t.clone()),
        };
        let mut r = prefix.to_owned();
        r.append(body.as_str());
        r
    }
}

/// `phases[i]` and `actions[i]` are what an exchange of `kind` with
/// `service`/`resource`, starting in `phases[0]`, goes through when it is
/// given `events` in order.
pub open spec fn is_exchange_run(
    kind: ResourceKind,
    service: Seq<char>,
    resource: Seq<char>,
    events: Seq<ExchangeEvent>,
    phases: Seq<ExchangePhase>,
    actions: Seq<ExchangeAction>,
) -> bool {
    &&& phases.len() == events.len() + 1
    &&& actions.len() == events.len()
    &&& forall|i: int|
        #![trigger events[i]]
        0 <= i < events.len() ==> exchange_transition(
            kind,
            service,
            resource,
            phases[i],
            events[i],
            phases[i + 1],
            actions[i],
        )
}

/// How many of the actions end the exchange.
pub open spec fn return_count(actions: Seq<ExchangeAction>) -> nat
    decreases actions.len(),
{
    if actions.len() == 0 {
        0
    } else {
        return_count(actions.drop_last()) + if actions.last() is Return {
            1nat
        } else {
            0nat
        }
    }
}

proof fn lemma_returns_within_budget(
    kind: ResourceKind,
    service: Seq<char>,
    resource: Seq<char>,
    events: Seq<ExchangeEvent>,
    phases: Seq<ExchangePhase>,
    actions: Seq<ExchangeAction>,
)
    requires
        is_exchange_run(kind, service, resource, events, phases, actions),
    ensures
        return_count(actions) + (if phases.last() == ExchangePhase::Done { 0nat } else { 1nat }) <= (
        if phases[0] == ExchangePhase::Done {
            0nat
        } else {
            1nat
        }),
    decreases events.len(),
{
    let n = events.len() as int;
    if n > 0 {
        let ev = events.subrange(0, n - 1);
        let ph = phases.subrange(0, n);
        let ac = actions.subrange(0, n - 1);
        assert forall|i: int| 0 <= i < ev.len() implies exchange_transition(
            kind,
            service,
            resource,
            ph[i],
            #[trigger] ev[i],
            ph[i + 1],
            ac[i],
        ) by {
            assert(events[i] == ev[i]);
        }
        lemma_returns_within_budget(kind, service, resource, ev, ph, ac);
        assert(ac =~= actions.drop_last());
        assert(ph.last() == phases[n - 1]);
        lemma_step_ends_at_most_once(
            kind,
            service,
            resource,
            phases[n - 1],
            events[n - 1],
            phases[n],
            actions[n - 1],
        );
    }
}

proof fn lemma_step_ends_at_most_once(
    kind: ResourceKind,
    service: Seq<char>,
    resource: Seq<char>,
    p: ExchangePhase,
    e: ExchangeEvent,
    next: ExchangePhase,
    a: ExchangeAction,
)
    requires
        exchange_transition(kind, service, resource, p, e, next, a),
    ensures
        a is Return ==> p != ExchangePhase::Done && next == ExchangePhase::Done,
        p == ExchangePhase::Done ==> next == ExchangePhase::Done && !(a is Return),
{
}

/// An exchange ends once: whatever happens, at most one outcome is
/// returned to the caller.
pub proof fn law_exchange_returns_once(
    kind: ResourceKind,
    service: Seq<char>,
    resource: Seq<char>,
    events: Seq<ExchangeEvent>,
    phases: Seq<ExchangePhase>,
    actions: Seq<ExchangeAction>,
)
    requires
        is_exchange_run(kind, service, resource, events, phases, actions),
    ensures
        return_count(actions) <= 1,
{
    lemma_returns_within_budget(kind, service, resource, events, phases, actions);
}

} // verus!
