//! The server side of one request stream.
//!
//! A client opens a stream and sends one request naming a service and a
//! resource. The server routes it and then, depending on the kind of the
//! resource, answers at once (RPC) or first opens a second channel, sends
//! the handshake on it, answers the request with an empty success and only
//! then hands the channel to the resource's handler (subscriptions,
//! notifications and raw streams). Each failure along the way is answered
//! with a callback error naming the step that failed.
//!
//! The network work is done by the caller: [`StreamSession::step`] takes
//! what happened and says what to do next.

use vstd::prelude::*;

use crate::errors::{ErrorSeverity, ResourceError};
use crate::routing::ResourceKind;

verus! {

/// Where the handling of a request stream stands.
#[derive(PartialEq, Eq, Structural, Clone, Copy, Debug)]
pub enum StreamPhase {
    /// No request read yet.
    AwaitingRequest,
    /// The second channel for a resource of this kind is being opened.
    AwaitingChannel(ResourceKind),
    /// The handshake is being sent on the second channel.
    AwaitingAck(ResourceKind),
    /// The empty success answer is being sent on the request stream.
    AwaitingResponse(ResourceKind),
    /// Nothing more happens on this stream.
    Finished,
}

/// What happened on the stream.
#[derive(Debug)]
pub enum StreamEvent {
    /// The peer closed the stream before sending a request.
    Closed,
    /// The request could not be read or decoded.
    Unreadable,
    /// A request arrived and was routed: the kind of its resource, or the
    /// routing error.
    Routed(Result<ResourceKind, ResourceError>),
    /// The second channel was opened.
    ChannelOpened,
    /// The second channel could not be opened.
    ChannelFailed,
    /// The handshake was sent.
    AckSent,
    /// The handshake could not be sent; the text of the failure.
    AckFailed(String),
    /// The success answer was sent.
    ResponseSent,
    /// The success answer could not be sent.
    ResponseFailed,
}

/// What to do next.
#[derive(Clone, Debug)]
pub enum StreamAction {
    /// Stop handling the stream; all went as expected.
    Finish,
    /// Stop handling the stream and report an error.
    Fail,
    /// Answer the request with this error, then stop.
    Reply(ResourceError),
    /// Run the RPC handler, answer with its result, then stop.
    RunRpc,
    /// Open a unidirectional channel to the peer.
    OpenUni,
    /// Open a bidirectional channel to the peer.
    OpenBi,
    /// Send the `Established` message naming the request's service and
    /// resource on the new channel.
    SendEstablished,
    /// Write the two bytes `OK` on the new raw channel.
    SendStreamAck,
    /// Answer the request with an empty success.
    SendOk,
    /// Hand the new channel to the handler of this kind, then stop.
    Spawn(ResourceKind),
    /// The event does not belong to this phase; nothing to do.
    Ignore,
}

/// The answer sent when the second channel cannot be opened.
pub open spec fn channel_failure_text(kind: ResourceKind) -> Seq<char> {
    match kind {
        ResourceKind::Notification => "Failed to establish notification stream"@,
        ResourceKind::Stream => "Failed to open bidi stream"@,
        _ => "Failed to establish stream"@,
    }
}

/// The answer sent when the handshake cannot be sent.
pub open spec fn ack_failure_text(kind: ResourceKind, failure: Seq<char>) -> Seq<char> {
    match kind {
        ResourceKind::Stream => "Failed to send stream ACK: "@ + failure,
        _ => "Failed to send ack: "@ + failure,
    }
}

/// An application-level callback error with this message.
pub open spec fn is_failure_reply(a: StreamAction, message: Seq<char>) -> bool {
    a matches StreamAction::Reply(e) && e.is_callback_error(message, ErrorSeverity::Application)
}

/// How the phase and the action follow from the phase and the event.
pub open spec fn transition(p: StreamPhase, e: StreamEvent, next: StreamPhase, a: StreamAction) -> bool {
    match (p, e) {
        (StreamPhase::AwaitingRequest, StreamEvent::Closed) => next == StreamPhase::Finished
            && a is Finish,
        (StreamPhase::AwaitingRequest, StreamEvent::Unreadable) => next == StreamPhase::Finished
            && a is Fail,
        (StreamPhase::AwaitingRequest, StreamEvent::Routed(Err(err))) => next
            == StreamPhase::Finished && a == StreamAction::Reply(err),
        (StreamPhase::AwaitingRequest, StreamEvent::Routed(Ok(kind))) => match kind {
            ResourceKind::Rpc => next == StreamPhase::Finished && a is RunRpc,
            ResourceKind::Subscription => next == StreamPhase::AwaitingChannel(kind) && a is OpenUni,
            _ => next == StreamPhase::AwaitingChannel(kind) && a is OpenBi,
        },
        (StreamPhase::AwaitingChannel(kind), StreamEvent::ChannelOpened) => next
            == StreamPhase::AwaitingAck(kind) && (if kind == ResourceKind::Stream {
            a is SendStreamAck
        } else {
            a is SendEstablished
        }),
        (StreamPhase::AwaitingChannel(kind), StreamEvent::ChannelFailed) => next
            == StreamPhase::Finished && is_failure_reply(a, channel_failure_text(kind)),
        (StreamPhase::AwaitingAck(kind), StreamEvent::AckSent) => next
            == StreamPhase::AwaitingResponse(kind) && a is SendOk,
        (StreamPhase::AwaitingAck(kind), StreamEvent::AckFailed(failure)) => next
            == StreamPhase::Finished && is_failure_reply(a, ack_failure_text(kind, failure@)),
        (StreamPhase::AwaitingResponse(kind), StreamEvent::ResponseSent) => next
            == StreamPhase::Finished && a == StreamAction::Spawn(kind),
        (StreamPhase::AwaitingResponse(kind), StreamEvent::ResponseFailed) => next
            == StreamPhase::Finished && a is Finish,
        _ => next == p && a is Ignore,
    }
}

/// The handling of one request stream.
pub struct StreamSession {
    phase: StreamPhase,
}

impl StreamSession {
    /// The current phase.
    pub closed spec fn phase(&self) -> StreamPhase {
        self.phase
    }

    /// A session waiting for its request.
    pub fn new() -> (r: StreamSession)
        ensures
            r.phase() == StreamPhase::AwaitingRequest,
    {
        StreamSession { phase: StreamPhase::AwaitingRequest }
    }

    /// The current phase.
    pub fn current(&self) -> (r: StreamPhase)
        ensures
            r == self.phase(),
    {
        self.phase
    }

    /// Takes what happened and says what to do next.
    pub fn step(&mut self, event: StreamEvent) -> (a: StreamAction)
        ensures
            transition(old(self).phase(), event, final(self).phase(), a),
            old(self).phase() is AwaitingChannel && event is ChannelOpened ==> ((a is SendStreamAck
                <==> old(self).phase()->AwaitingChannel_0 == ResourceKind::Stream) && (old(
                self,
            ).phase()->AwaitingChannel_0 != ResourceKind::Stream ==> a is SendEstablished)),
    {
        let (next, action) = match (self.phase, event) {
            (StreamPhase::AwaitingRequest, StreamEvent::Closed) => (
                StreamPhase::Finished,
                StreamAction::Finish,
            ),
            (StreamPhase::AwaitingRequest, StreamEvent::Unreadable) => (
                StreamPhase::Finished,
                StreamAction::Fail,
            ),
            (StreamPhase::AwaitingRequest, StreamEvent::Routed(Err(err))) => (
                StreamPhase::Finished,
                StreamAction::Reply(err),
            ),
            (StreamPhase::AwaitingRequest, StreamEvent::Routed(Ok(kind))) => match kind {
                ResourceKind::Rpc => (StreamPhase::Finished, StreamAction::RunRpc),
                ResourceKind::Subscription => (
                    StreamPhase::AwaitingChannel(kind),
                    StreamAction::OpenUni,
                ),
                _ => (StreamPhase::AwaitingChannel(kind), StreamAction::OpenBi),
            },
            (StreamPhase::AwaitingChannel(kind), StreamEvent::ChannelOpened) => {
                let action = match kind {
                    ResourceKind::Stream => StreamAction::SendStreamAck,
                    _ => StreamAction::SendEstablished,
                };
                (StreamPhase::AwaitingAck(kind), action)
            },
            (StreamPhase::AwaitingChannel(kind), StreamEvent::ChannelFailed) => (
                StreamPhase::Finished,
                StreamAction::Reply(channel_failure(kind)),
            ),
            (StreamPhase::AwaitingAck(kind), StreamEvent::AckSent) => (
                StreamPhase::AwaitingResponse(kind),
                StreamAction::SendOk,
            ),
            (StreamPhase::AwaitingAck(kind), StreamEvent::AckFailed(failure)) => (
                StreamPhase::Finished,
                StreamAction::Reply(ack_failure(kind, failure)),
            ),
            (StreamPhase::AwaitingResponse(kind), StreamEvent::ResponseSent) => (
                StreamPhase::Finished,
                StreamAction::Spawn(kind),
            ),
            (StreamPhase::AwaitingResponse(_), StreamEvent::ResponseFailed) => (
                StreamPhase::Finished,
                StreamAction::Finish,
            ),
            (p, _) => (p, StreamAction::Ignore),
        };
        self.phase = next;
        action
    }
}

/// The error answered when the second channel cannot be opened.
fn channel_failure(kind: ResourceKind) -> (r: ResourceError)
    ensures
        r.is_callback_error(channel_failure_text(kind), ErrorSeverity::Application),
{
    let message = match kind {
        ResourceKind::Notification => "Failed to establish notification stream",
        ResourceKind::Stream => "Failed to open bidi stream",
        _ => "Failed to establish stream",
    };
    proof {
        reveal_strlit("Failed to establish notification stream");
        reveal_strlit("Failed to open bidi stream");
        reveal_strlit("Failed to establish stream");
    }
    ResourceError::CallbackError {
        message: message.to_owned(),
        severity: ErrorSeverity::Application,
        context: None,
    }
}

/// The error answered when the handshake cannot be sent.
fn ack_failure(kind: ResourceKind, failure: String) -> (r: ResourceError)
    ensures
        r.is_callback_error(ack_failure_text(kind, failure@), ErrorSeverity::Application),
{
    let prefix = match kind {
        ResourceKind::Stream => "Failed to send stream ACK: ",
        _ => "Failed to send ack: ",
    };
    let mut message = prefix.to_owned();
    message.append(failure.as_str());
    proof {
        reveal_strlit("Failed to send stream ACK: ");
        reveal_strlit("Failed to send ack: ");
    }
    ResourceError::CallbackError { message, severity: ErrorSeverity::Application, context: None }
}

/// Whether an action answers the request on the request stream.
pub open spec fn answers_request(a: StreamAction) -> bool {
    a is Reply || a is RunRpc || a is SendOk
}

/// How many of the actions answer the request.
pub open spec fn answer_count(actions: Seq<StreamAction>) -> nat
    decreases actions.len(),
{
    if actions.len() == 0 {
        0
    } else {
        answer_count(actions.drop_last()) + if answers_request(actions.last()) {
            1nat
        } else {
            0nat
        }
    }
}

/// `phases[i]` and `actions[i]` are what a session starting in
/// `phases[0]` goes through when it is given `events` in order.
pub open spec fn is_run(
    events: Seq<StreamEvent>,
    phases: Seq<StreamPhase>,
    actions: Seq<StreamAction>,
) -> bool {
    &&& phases.len() == events.len() + 1
    &&& actions.len() == events.len()
    &&& forall|i: int|
        #![trigger events[i]]
        0 <= i < events.len() ==> transition(phases[i], events[i], phases[i + 1], actions[i])
}

/// How many answers a phase still allows.
spec fn answer_budget(p: StreamPhase) -> nat {
    match p {
        StreamPhase::AwaitingRequest | StreamPhase::AwaitingChannel(_) | StreamPhase::AwaitingAck(_) => 1,
        _ => 0,
    }
}

proof fn lemma_run_prefix(
    events: Seq<StreamEvent>,
    phases: Seq<StreamPhase>,
    actions: Seq<StreamAction>,
    n: int,
)
    requires
        is_run(events, phases, actions),
        0 <= n <= events.len(),
    ensures
        is_run(events.subrange(0, n), phases.subrange(0, n + 1), actions.subrange(0, n)),
{
    let ev = events.subrange(0, n);
    let ph = phases.subrange(0, n + 1);
    let ac = actions.subrange(0, n);
    assert forall|i: int| 0 <= i < ev.len() implies transition(ph[i], #[trigger] ev[i], ph[i + 1], ac[i]) by {
        assert(transition(phases[i], events[i], phases[i + 1], actions[i]));
    }
}

proof fn lemma_answers_within_budget(
    events: Seq<StreamEvent>,
    phases: Seq<StreamPhase>,
    actions: Seq<StreamAction>,
)
    requires
        is_run(events, phases, actions),
    ensures
        answer_count(actions) + answer_budget(phases.last()) <= answer_budget(phases[0]),
    decreases events.len(),
{
    let n = events.len() as int;
    if n > 0 {
        lemma_run_prefix(events, phases, actions, n - 1);
        let ph = phases.subrange(0, n);
        lemma_answers_within_budget(events.subrange(0, n - 1), ph, actions.subrange(0, n - 1));
        assert(actions.subrange(0, n - 1) =~= actions.drop_last());
        assert(transition(phases[n - 1], events[n - 1], phases[n], actions[n - 1]));
        assert(ph.last() == phases[n - 1]);
    }
}

/// A request stream is answered at most once, however the steps go.
pub proof fn law_request_answered_at_most_once(
    events: Seq<StreamEvent>,
    phases: Seq<StreamPhase>,
    actions: Seq<StreamAction>,
)
    requires
        is_run(events, phases, actions),
        phases[0] == StreamPhase::AwaitingRequest,
    ensures
        answer_count(actions) <= 1,
{
    lemma_answers_within_budget(events, phases, actions);
}

/// A handler is handed its channel only after the channel was opened, the
/// handshake sent and the request answered with a success, in that order.
pub proof fn law_spawn_follows_handshake(
    events: Seq<StreamEvent>,
    phases: Seq<StreamPhase>,
    actions: Seq<StreamAction>,
    i: int,
)
    requires
        is_run(events, phases, actions),
        phases[0] == StreamPhase::AwaitingRequest,
        0 <= i < actions.len(),
        actions[i] is Spawn,
    ensures
        exists|j: int, k: int, m: int|
            0 <= j < k < m < i && (actions[j] is OpenUni || actions[j] is OpenBi) && (
            actions[k] is SendEstablished || actions[k] is SendStreamAck) && actions[m] is SendOk,
{
    assert(transition(phases[i], events[i], phases[i + 1], actions[i]));
    lemma_phase_history(events, phases, actions, i);
}

proof fn lemma_phase_history(
    events: Seq<StreamEvent>,
    phases: Seq<StreamPhase>,
    actions: Seq<StreamAction>,
    i: int,
)
    requires
        is_run(events, phases, actions),
        phases[0] == StreamPhase::AwaitingRequest,
        0 <= i <= events.len(),
    ensures
        phases[i] is AwaitingChannel ==> exists|j: int|
            0 <= j < i && (actions[j] is OpenUni || actions[j] is OpenBi),
        phases[i] is AwaitingAck ==> exists|j: int, k: int|
            0 <= j < k < i && (actions[j] is OpenUni || actions[j] is OpenBi) && (
            actions[k] is SendEstablished || actions[k] is SendStreamAck),
        phases[i] is AwaitingResponse ==> exists|j: int, k: int, m: int|
            0 <= j < k < m < i && (actions[j] is OpenUni || actions[j] is OpenBi) && (
            actions[k] is SendEstablished || actions[k] is SendStreamAck) && actions[m] is SendOk,
    decreases i,
{
    if i > 0 {
        lemma_phase_history(events, phases, actions, i - 1);
        assert(transition(phases[i - 1], events[i - 1], phases[i], actions[i - 1]));
    }
}

} // verus!
