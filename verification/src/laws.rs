//! Properties that relate several operations of the library.

use vstd::prelude::*;

use crate::circuit::{guarded, observe, CallOutcome, CircuitState, PeerId};
use crate::classification::ErrorProfile;
use crate::errors::{severity_trips_circuit, ErrorSeverity, ResourceError, ServiceError};
use crate::exchange::{exchange_transition, ClientError, ExchangeAction, ExchangeEvent, ExchangePhase, NotificationMsg, SubscriptionMsg};
use crate::routing::{route_spec, ResourceKind};
use crate::session::{transition, StreamAction, StreamEvent, StreamPhase};
use crate::retry::network_error;
use crate::errors::mapped_result;
use crate::jsonrpc::{batch_limit, BatchRequestConfig};

verus! {

/// A failure marked as a system failure is classified as one, whatever
/// its causes.
pub proof fn law_marker_takes_precedence(p: ErrorProfile)
    requires
        p.system_failure,
    ensures
        p.default_severity() == ErrorSeverity::SystemFailure,
{
}

/// Wrapping a failure in context (which keeps its mark and its causes)
/// does not change how it is classified.
pub proof fn law_context_keeps_classification(p: ErrorProfile, q: ErrorProfile)
    requires
        q.system_failure == p.system_failure,
        q.infrastructure == p.infrastructure,
    ensures
        q.default_severity() == p.default_severity(),
{
}

/// Only infrastructure failures and system failures reach the circuit
/// breaker as failures: successes and application errors are handed to it
/// as successful calls, and the failure handed over keeps the severity and
/// the message of the failure it came from.
pub proof fn law_application_errors_bypass_breaker<T>(
    input: Result<T, ErrorProfile>,
    output: Result<Result<T, ServiceError>, ServiceError>,
)
    requires
        guarded(input, output),
    ensures
        output is Err <==> (input matches Err(e) && severity_trips_circuit(e.default_severity())),
        output matches Err(se) ==> (input matches Err(e) && se.spec_severity() == e.default_severity()
            && se.spec_message() == e.message@),
{
}

/// A handler's error, handed to the breaker with a classification equal
/// to its own severity, trips the breaker exactly when that severity is an
/// infrastructure failure or a system failure, and reaches the breaker with
/// that severity.
pub proof fn law_handler_severity_reaches_breaker<T>(
    error: ResourceError,
    handed: ErrorProfile,
    output: Result<Result<T, ServiceError>, ServiceError>,
)
    requires
        handed.default_severity() == error.spec_severity(),
        guarded(Err::<T, ErrorProfile>(handed), output),
    ensures
        output is Err <==> error.spec_severity() != ErrorSeverity::Application,
        output matches Err(se) ==> se.spec_severity() == error.spec_severity(),
        output matches Ok(Err(se)) ==> se.spec_severity() == error.spec_severity(),
{
}

/// A failure reported to the client as a callback error keeps the severity
/// it was classified with.
pub proof fn law_operation_failure_keeps_severity(failure: ServiceError, reported: ResourceError)
    requires
        reported.is_callback_error(failure.spec_text(), failure.spec_severity()),
    ensures
        reported.spec_severity() == failure.spec_severity(),
{
}

/// After a service is registered, each of its resources routes to its
/// handler.
pub proof fn law_registered_resource_routes<H>(
    routes: Map<Seq<char>, Map<Seq<char>, H>>,
    service: Seq<char>,
    resources: Map<Seq<char>, H>,
    resource: Seq<char>,
)
    requires
        resources.dom().contains(resource),
    ensures
        route_spec(
            routes.insert(service, resources),
            service,
            resource,
            Ok::<H, ResourceError>(resources[resource]),
        ),
{
}

/// Registering a service changes the routing of no other service.
pub proof fn law_registration_is_local<H>(
    routes: Map<Seq<char>, Map<Seq<char>, H>>,
    service: Seq<char>,
    resources: Map<Seq<char>, H>,
    other: Seq<char>,
    resource: Seq<char>,
    outcome: Result<H, ResourceError>,
)
    requires
        other != service,
    ensures
        route_spec(routes.insert(service, resources), other, resource, outcome) == route_spec(
            routes,
            other,
            resource,
            outcome,
        ),
{
    assert(routes.insert(service, resources).dom().contains(other) == routes.dom().contains(other));
}

/// The state observed for a peer after a call: a success shows the state
/// the breaker reports (half-open included), a rejection shows the circuit
/// open, and a failed call (an application error among them) leaves the
/// last observation as it was.
pub proof fn law_observation_follows_outcome(
    prior: Option<CircuitState>,
    outcome: CallOutcome,
    reported: CircuitState,
)
    ensures
        outcome == CallOutcome::Succeeded ==> observe(prior, outcome, reported) == Some(reported),
        outcome == CallOutcome::Rejected ==> observe(prior, outcome, reported) == Some(
            CircuitState::Open,
        ),
        outcome == CallOutcome::Failed ==> observe(prior, outcome, reported) == prior,
{
}

/// Recording an outcome for one peer leaves every other peer's observed
/// state as it was.
pub proof fn law_peers_are_isolated(
    states: Map<PeerId, CircuitState>,
    peer: PeerId,
    outcome: CallOutcome,
    reported: CircuitState,
    other: PeerId,
)
    requires
        other != peer,
    ensures
        ({
            let after = match observe(
                if states.dom().contains(peer) { Some(states[peer]) } else { None },
                outcome,
                reported,
            ) {
                Some(s) => states.insert(peer, s),
                None => states,
            };
            &&& after.dom().contains(other) == states.dom().contains(other)
            &&& states.dom().contains(other) ==> after[other] == states[other]
        }),
{
}

/// A subscription or notification exchange succeeds only on an
/// `Established` message naming the requested service and resource.
pub proof fn law_handshake_must_match(
    kind: ResourceKind,
    service: Seq<char>,
    resource: Seq<char>,
    event: ExchangeEvent,
    next: ExchangePhase,
    action: ExchangeAction,
)
    requires
        exchange_transition(kind, service, resource, ExchangePhase::AwaitingHandshake, event, next, action),
        action matches ExchangeAction::Return(Ok(_)),
        !(event is StreamAck),
    ensures
        match event {
            ExchangeEvent::SubscriptionHandshake(SubscriptionMsg::Established { service: s, resource: r }) =>
                s@ == service && r@ == resource,
            ExchangeEvent::NotificationHandshake(NotificationMsg::Established { service: s, resource: r }) =>
                s@ == service && r@ == resource,
            _ => false,
        },
{
}

/// An answer that is a resource error ends the exchange with exactly that
/// error, whatever the kind of exchange.
pub proof fn law_resource_errors_reach_caller(
    kind: ResourceKind,
    service: Seq<char>,
    resource: Seq<char>,
    error: ResourceError,
    next: ExchangePhase,
    action: ExchangeAction,
)
    requires
        exchange_transition(
            kind,
            service,
            resource,
            ExchangePhase::AwaitingAnswer,
            ExchangeEvent::Answered(Err(error)),
            next,
            action,
        ),
    ensures
        next == ExchangePhase::Done,
        action == ExchangeAction::Return(Err(ClientError::Resource(error))),
{
}

/// The handshake a server sends for a request is the one the client that
/// sent the request accepts: an `Established` message naming the request's
/// service and resource ends the client's exchange successfully.
pub proof fn law_server_handshake_accepted(
    kind: ResourceKind,
    service: Seq<char>,
    resource: Seq<char>,
    message: SubscriptionMsg,
    next: ExchangePhase,
    action: ExchangeAction,
)
    requires
        message matches SubscriptionMsg::Established { service: s, resource: r } && s@ == service
            && r@ == resource,
        exchange_transition(
            kind,
            service,
            resource,
            ExchangePhase::AwaitingHandshake,
            ExchangeEvent::SubscriptionHandshake(message),
            next,
            action,
        ),
    ensures
        next == ExchangePhase::Done,
        action matches ExchangeAction::Return(Ok(None)),
{
}

/// A failure marked as a system failure always counts against the peer's
/// breaker, as a system failure carrying the marked message.
pub proof fn law_marked_failures_count<T>(
    marked: ErrorProfile,
    output: Result<Result<T, ServiceError>, ServiceError>,
)
    requires
        marked.system_failure,
        guarded(Err::<T, ErrorProfile>(marked), output),
    ensures
        output matches Err(se) && se.spec_severity() == ErrorSeverity::SystemFailure && se.spec_message()
            == marked.message@,
{
}

/// Once the server has routed a request, it opens a second channel by the
/// resource's kind: none for an RPC (the call runs at once), a
/// unidirectional stream for a subscription, a bidirectional stream for a
/// notification or raw stream.
pub proof fn law_server_opens_channel_by_kind(
    kind: ResourceKind,
    next: StreamPhase,
    a: StreamAction,
)
    requires
        transition(StreamPhase::AwaitingRequest, StreamEvent::Routed(Ok(kind)), next, a),
    ensures
        kind == ResourceKind::Rpc ==> (a is RunRpc && next == StreamPhase::Finished),
        kind == ResourceKind::Subscription ==> (a is OpenUni && next == StreamPhase::AwaitingChannel(
            kind,
        )),
        kind == ResourceKind::Notification ==> (a is OpenBi && next == StreamPhase::AwaitingChannel(
            kind,
        )),
        kind == ResourceKind::Stream ==> (a is OpenBi && next == StreamPhase::AwaitingChannel(kind)),
{
}

/// On the opened channel the server sends the handshake its client waits
/// for: the two-byte ACK for a raw stream only, the `Established` message
/// for a subscription or a notification stream; then it waits for that
/// handshake to be written.
pub proof fn law_server_handshake_by_kind(kind: ResourceKind, next: StreamPhase, a: StreamAction)
    requires
        transition(StreamPhase::AwaitingChannel(kind), StreamEvent::ChannelOpened, next, a),
    ensures
        next == StreamPhase::AwaitingAck(kind),
        kind == ResourceKind::Stream ==> a is SendStreamAck,
        kind == ResourceKind::Subscription ==> a is SendEstablished,
        kind == ResourceKind::Notification ==> a is SendEstablished,
        a is SendStreamAck <==> kind == ResourceKind::Stream,
{
}

/// After the handshake is written the server answers `OK`, and once that
/// answer is written it hands the channel to the resource's handler.
pub proof fn law_server_answers_then_spawns(
    kind: ResourceKind,
    next1: StreamPhase,
    a1: StreamAction,
    next2: StreamPhase,
    a2: StreamAction,
)
    requires
        transition(StreamPhase::AwaitingAck(kind), StreamEvent::AckSent, next1, a1),
        transition(next1, StreamEvent::ResponseSent, next2, a2),
    ensures
        a1 is SendOk,
        a2 == StreamAction::Spawn(kind),
        next2 == StreamPhase::Finished,
{
}

/// The client reads the handshake the server sends on the accepted
/// channel: the two-byte ACK for a raw stream only, the `Established`
/// message for a subscription or a notification stream.
pub proof fn law_client_handshake_by_kind(
    kind: ResourceKind,
    service: Seq<char>,
    resource: Seq<char>,
    next: ExchangePhase,
    a: ExchangeAction,
)
    requires
        exchange_transition(
            kind,
            service,
            resource,
            ExchangePhase::Accepting,
            ExchangeEvent::Accepted,
            next,
            a,
        ),
    ensures
        next == ExchangePhase::AwaitingHandshake,
        kind == ResourceKind::Stream ==> a is ReadStreamAck,
        kind == ResourceKind::Subscription ==> a is ReadHandshake,
        kind == ResourceKind::Notification ==> a is ReadHandshake,
        a is ReadStreamAck <==> kind == ResourceKind::Stream,
{
}

/// A successful answer ends an RPC with its response; for the other kinds
/// the client goes on to accept the server's channel: unidirectional for a
/// subscription, bidirectional for a notification or raw stream.
pub proof fn law_client_accepts_channel_by_kind(
    kind: ResourceKind,
    service: Seq<char>,
    resource: Seq<char>,
    resp: crate::exchange::Response,
    next: ExchangePhase,
    a: ExchangeAction,
)
    requires
        exchange_transition(
            kind,
            service,
            resource,
            ExchangePhase::AwaitingAnswer,
            ExchangeEvent::Answered(Ok(resp)),
            next,
            a,
        ),
    ensures
        kind == ResourceKind::Rpc ==> (next == ExchangePhase::Done && a == ExchangeAction::Return(
            Ok(Some(resp)),
        )),
        kind == ResourceKind::Subscription ==> (next == ExchangePhase::Accepting && a is AcceptUni),
        kind == ResourceKind::Notification ==> (next == ExchangePhase::Accepting && a is AcceptBi),
        kind == ResourceKind::Stream ==> (next == ExchangePhase::Accepting && a is AcceptBi),
{
}

/// The built-in retry predicates retry exactly the variants they name:
/// network-only retries connection and I/O errors and nothing else; a
/// serialization error, a resource error or a protocol error is never
/// retried by it.
pub proof fn law_network_errors_are_connection_and_io(e: ClientError)
    ensures
        network_error(e) <==> (e is Connection || e is Io),
        e is Serialization ==> !network_error(e),
        e is Resource ==> !network_error(e),
        e is Protocol ==> !network_error(e),
{
}

/// Marking a failed result with a severity gives a callback error of
/// exactly that severity, carrying the failure's message and no context;
/// a success passes through unchanged.
pub proof fn law_marked_result_has_named_severity<T>(
    input: Result<T, ErrorProfile>,
    output: Result<T, ResourceError>,
    severity: ErrorSeverity,
)
    requires
        mapped_result(input, output, severity),
    ensures
        input matches Ok(v) ==> output == Ok::<T, ResourceError>(v),
        input matches Err(e) ==> (output matches Err(
            ResourceError::CallbackError { message: m, severity: s, context: c },
        ) && s == severity && m@ == e.message@ && c is None),
        input is Err ==> (output matches Err(r) && r.spec_severity() == severity),
{
}

/// A batch limit is the configured number of entries, in full: a limit of
/// `l` admits batches of up to `l` entries; no limit admits any batch a
/// machine can hold; a disabled configuration admits none.
pub proof fn law_batch_limit_is_the_configured_count(l: u32)
    ensures
        batch_limit(BatchRequestConfig::Limit(l)) == Some(l as nat),
        batch_limit(BatchRequestConfig::Unlimited) == Some(usize::MAX as nat),
        batch_limit(BatchRequestConfig::Disabled) is None,
{
}

/// A request that cannot be served ends the stream: a closed stream ends
/// it quietly, an unreadable request ends it with an error, and a request
/// that cannot be routed is answered with the routing error itself.
pub proof fn law_server_refusals(event: StreamEvent, next: StreamPhase, a: StreamAction)
    requires
        transition(StreamPhase::AwaitingRequest, event, next, a),
        event is Closed || event is Unreadable || (event is Routed && event->Routed_0 is Err),
    ensures
        next == StreamPhase::Finished,
        event is Closed ==> a is Finish,
        event is Unreadable ==> a is Fail,
        event matches StreamEvent::Routed(Err(err)) ==> a == StreamAction::Reply(err),
{
}

/// When the second channel cannot be opened, or its handshake cannot be
/// written, the stream ends with an application error naming what failed:
/// "Failed to establish notification stream", "Failed to open bidi stream"
/// or "Failed to establish stream" by kind, and "Failed to send stream
/// ACK: " or "Failed to send ack: " followed by the failure.
pub proof fn law_server_channel_failures(
    kind: ResourceKind,
    failure: String,
    next1: StreamPhase,
    a1: StreamAction,
    next2: StreamPhase,
    a2: StreamAction,
)
    requires
        transition(StreamPhase::AwaitingChannel(kind), StreamEvent::ChannelFailed, next1, a1),
        transition(StreamPhase::AwaitingAck(kind), StreamEvent::AckFailed(failure), next2, a2),
    ensures
        next1 == StreamPhase::Finished && next2 == StreamPhase::Finished,
        a1 matches StreamAction::Reply(ResourceError::CallbackError { message: m, severity: s, context: c })
            && s == ErrorSeverity::Application && c is None && m@ == (if kind
            == ResourceKind::Notification {
            "Failed to establish notification stream"@
        } else if kind == ResourceKind::Stream {
            "Failed to open bidi stream"@
        } else {
            "Failed to establish stream"@
        }),
        a2 matches StreamAction::Reply(ResourceError::CallbackError { message: m, severity: s, context: c })
            && s == ErrorSeverity::Application && c is None && m@ == (if kind == ResourceKind::Stream {
            "Failed to send stream ACK: "@ + failure@
        } else {
            "Failed to send ack: "@ + failure@
        }),
{
}

/// Transport failures on the client end the exchange with a connection
/// error carrying the failure's text, whichever step they happen at; a
/// missing answer or handshake ends it with a protocol error saying which.
pub proof fn law_client_failures(
    kind: ResourceKind,
    service: Seq<char>,
    resource: Seq<char>,
    p: ExchangePhase,
    event: ExchangeEvent,
    next: ExchangePhase,
    a: ExchangeAction,
)
    requires
        exchange_transition(kind, service, resource, p, event, next, a),
    ensures
        (p == ExchangePhase::Opening && event is OpenFailed) ==> next == ExchangePhase::Done,
        (p == ExchangePhase::Opening && event is OpenFailed) ==> (a matches ExchangeAction::Return(
            Err(ClientError::Connection(t)),
        ) && t@ == event->OpenFailed_0@),
        (p == ExchangePhase::Sending && event is SendFailed) ==> next == ExchangePhase::Done,
        (p == ExchangePhase::Sending && event is SendFailed) ==> (a matches ExchangeAction::Return(
            Err(ClientError::Connection(t)),
        ) && t@ == event->SendFailed_0@),
        (p == ExchangePhase::Accepting && event is AcceptFailed) ==> next == ExchangePhase::Done,
        (p == ExchangePhase::Accepting && event is AcceptFailed) ==> (a matches ExchangeAction::Return(
            Err(ClientError::Connection(t)),
        ) && t@ == event->AcceptFailed_0@),
        ((p == ExchangePhase::AwaitingAnswer || p == ExchangePhase::AwaitingHandshake) && event is ReadFailed) ==> next == ExchangePhase::Done,
        ((p == ExchangePhase::AwaitingAnswer || p == ExchangePhase::AwaitingHandshake) && event is ReadFailed) ==> (a matches ExchangeAction::Return(
            Err(ClientError::Connection(t)),
        ) && t@ == event->ReadFailed_0@),
        (p == ExchangePhase::AwaitingAnswer && event is NoAnswer) ==> next == ExchangePhase::Done,
        (p == ExchangePhase::AwaitingAnswer && event is NoAnswer) ==> (a matches ExchangeAction::Return(
            Err(ClientError::Protocol(t)),
        ) && t@ == "No response received"@),
        (p == ExchangePhase::AwaitingHandshake && event is NoHandshake) ==> next
            == ExchangePhase::Done,
        (p == ExchangePhase::AwaitingHandshake && event is NoHandshake) ==> (a matches ExchangeAction::Return(
            Err(ClientError::Protocol(t)),
        ) && t@ == "No established message received"@),
{
}

/// A raw stream opens exactly when the server's two bytes are `O` `K`;
/// any other pair is refused as an invalid ACK. A subscription or
/// notification opens when the `Established` message names the service
/// and resource asked for.
pub proof fn law_client_handshake_accepts(
    kind: ResourceKind,
    service: Seq<char>,
    resource: Seq<char>,
    event: ExchangeEvent,
    next: ExchangePhase,
    a: ExchangeAction,
)
    requires
        exchange_transition(kind, service, resource, ExchangePhase::AwaitingHandshake, event, next, a),
    ensures
        event matches ExchangeEvent::StreamAck(b0, b1) ==> (next == ExchangePhase::Done && (a
            == ExchangeAction::Return(Ok(None)) <==> (b0 == 79u8 && b1 == 75u8))),
        event matches ExchangeEvent::StreamAck(b0, b1) ==> (!(b0 == 79u8 && b1 == 75u8) ==> (a matches ExchangeAction::Return(
            Err(ClientError::Protocol(t)),
        ) && t@ == "Invalid stream ACK"@)),
        event matches ExchangeEvent::SubscriptionHandshake(SubscriptionMsg::Established { service: s, resource: r })
            ==> (s@ == service && r@ == resource ==> a == ExchangeAction::Return(Ok(None))),
        event matches ExchangeEvent::NotificationHandshake(NotificationMsg::Established { service: s, resource: r })
            ==> (s@ == service && r@ == resource ==> a == ExchangeAction::Return(Ok(None))),
{
}

} // verus!
