//! When the recurring work of a node is done.
use vstd::prelude::*;

use crate::config::Interval;
use crate::tunnel::{KeyModel, TunnelKey};

verus! {

/// How long to wait between two refreshes of the peers, in seconds.
pub const PEER_REFRESH_SECS: u64 = 5;

/// How long a listener waits after an accept failed, in milliseconds.
pub const ACCEPT_RETRY_MILLIS: u64 = 50;

/// What has happened in a loop that does something again and again.
#[derive(Debug, Clone, Copy, PartialEq, Eq, Structural)]
pub enum LoopEvent {
    /// The loop begins.
    Started,
    /// A try succeeded.
    Succeeded,
    /// A try failed.
    Failed,
    /// The pause is over.
    Slept,
}

/// What a loop does next.
#[derive(Debug, Clone, Copy, PartialEq, Eq, Structural)]
pub enum LoopStep {
    /// Try once.
    Run,
    /// Wait this long.
    Sleep(Interval),
}

/// How a loop goes on: it tries at once, and again after a pause that follows each try,
/// whatever came of it.
pub open spec fn loop_next(pause: Interval, event: LoopEvent) -> LoopStep {
    match event {
        LoopEvent::Started => LoopStep::Run,
        LoopEvent::Succeeded => LoopStep::Sleep(pause),
        LoopEvent::Failed => LoopStep::Sleep(pause),
        LoopEvent::Slept => LoopStep::Run,
    }
}

/// Decides how a loop with the given pause goes on.
pub(crate) fn continue_loop(pause: Interval, event: LoopEvent) -> (step: LoopStep)
    ensures
        step == loop_next(pause, event),
{
    match event {
        LoopEvent::Started => LoopStep::Run,
        LoopEvent::Succeeded => LoopStep::Sleep(pause),
        LoopEvent::Failed => LoopStep::Sleep(pause),
        LoopEvent::Slept => LoopStep::Run,
    }
}

/// Decides how the loop that refreshes the peers goes on.
pub fn refresh_loop_next(event: LoopEvent) -> (step: LoopStep)
    ensures
        step == loop_next(Interval::whole_secs(PEER_REFRESH_SECS), event),
{
    continue_loop(Interval::from_secs(PEER_REFRESH_SECS), event)
}

/// What has happened at the listener of a backend.
#[derive(Debug, Clone, Copy, PartialEq, Eq, Structural)]
pub enum ListenEvent {
    /// The listener is set up.
    Started,
    /// A client was accepted.
    Accepted,
    /// Accepting a client failed.
    AcceptFailed,
    /// Forwarding the client's stream was begun, as work of its own.
    ForwardBegun,
    /// The pause is over.
    Slept,
}

/// What the listener of a backend does next.
#[derive(Debug)]
pub enum ListenStep {
    /// Wait for a client.
    Accept,
    /// Begin to forward the client's stream to this backend, as work of its own.
    Forward(TunnelKey),
    /// Wait this long.
    Sleep(Interval),
}

/// What the listener of a backend does next, with text as character sequences.
pub enum ListenStepModel {
    Accept,
    Forward(KeyModel),
    Sleep(Interval),
}

impl View for ListenStep {
    type V = ListenStepModel;

    open spec fn view(&self) -> ListenStepModel {
        match self {
            ListenStep::Accept => ListenStepModel::Accept,
            ListenStep::Forward(key) => ListenStepModel::Forward(key@),
            ListenStep::Sleep(pause) => ListenStepModel::Sleep(*pause),
        }
    }
}

/// How the listener of a backend goes on: it accepts one client after the other, forwards each
/// to the backend, and makes a pause where accepting one failed.
pub open spec fn listen_next(key: KeyModel, event: ListenEvent) -> ListenStepModel {
    match event {
        ListenEvent::Started => ListenStepModel::Accept,
        ListenEvent::Accepted => ListenStepModel::Forward(key),
        ListenEvent::AcceptFailed => ListenStepModel::Sleep(
            Interval::whole_millis(ACCEPT_RETRY_MILLIS),
        ),
        ListenEvent::ForwardBegun => ListenStepModel::Accept,
        ListenEvent::Slept => ListenStepModel::Accept,
    }
}

impl TunnelKey {
    /// Decides how the listener of the backend goes on.
    pub fn continue_listen(&self, event: ListenEvent) -> (step: ListenStep)
        ensures
            step@ == listen_next(self@, event),
    {
        match event {
            ListenEvent::Started => ListenStep::Accept,
            ListenEvent::Accepted => ListenStep::Forward(self.clone()),
            ListenEvent::AcceptFailed => ListenStep::Sleep(
                Interval::from_millis(ACCEPT_RETRY_MILLIS),
            ),
            ListenEvent::ForwardBegun => ListenStep::Accept,
            ListenEvent::Slept => ListenStep::Accept,
        }
    }
}

/// What has happened in the loop that accepts connections of other nodes.
#[derive(Debug, Clone, Copy, PartialEq, Eq, Structural)]
pub enum AcceptEvent {
    /// The loop begins.
    Started,
    /// Another node is connecting.
    Incoming,
    /// The endpoint accepts no more connections.
    EndpointClosed,
    /// The connection was taken up, as work of its own. What comes of it has no say here.
    ServeBegun,
}

/// What the loop that accepts connections does next.
#[derive(Debug, Clone, Copy, PartialEq, Eq, Structural)]
pub enum AcceptStep {
    /// Wait for another node to connect.
    Accept,
    /// Take the connection up, as work of its own.
    Serve,
    /// Accept no more.
    Stop,
}

/// How the loop that accepts connections goes on: each connection is taken up, and only the end
/// of the endpoint stops the loop.
pub open spec fn accept_next(event: AcceptEvent) -> AcceptStep {
    match event {
        AcceptEvent::Started => AcceptStep::Accept,
        AcceptEvent::Incoming => AcceptStep::Serve,
        AcceptEvent::EndpointClosed => AcceptStep::Stop,
        AcceptEvent::ServeBegun => AcceptStep::Accept,
    }
}

/// Decides how the loop that accepts connections goes on.
pub fn accept_loop_next(event: AcceptEvent) -> (step: AcceptStep)
    ensures
        step == accept_next(event),
{
    match event {
        AcceptEvent::Started => AcceptStep::Accept,
        AcceptEvent::Incoming => AcceptStep::Serve,
        AcceptEvent::EndpointClosed => AcceptStep::Stop,
        AcceptEvent::ServeBegun => AcceptStep::Accept,
    }
}

/// What came of the last thing that was to be done for an incoming connection.
#[derive(Debug, Clone, Copy, PartialEq, Eq, Structural)]
pub enum InboundEvent {
    /// The connection was taken up.
    Begun,
    /// The connection stands.
    Connected,
    HandshakeFailed,
    /// The other node has left the connection.
    Served,
    ServeFailed,
}

/// What to do next for an incoming connection.
#[derive(Debug, Clone, Copy, PartialEq, Eq, Structural)]
pub enum InboundStep {
    /// Wait for the connection to stand.
    Handshake,
    /// Serve the streams of the connection.
    Serve,
    /// Drop the connection.
    End,
}

/// How an incoming connection goes on: it is served once it stands, and every failure ends it.
pub open spec fn inbound_next(event: InboundEvent) -> InboundStep {
    match event {
        InboundEvent::Begun => InboundStep::Handshake,
        InboundEvent::Connected => InboundStep::Serve,
        InboundEvent::HandshakeFailed => InboundStep::End,
        InboundEvent::Served => InboundStep::End,
        InboundEvent::ServeFailed => InboundStep::End,
    }
}

/// Decides how an incoming connection goes on.
pub fn continue_inbound(event: InboundEvent) -> (step: InboundStep)
    ensures
        step == inbound_next(event),
{
    match event {
        InboundEvent::Begun => InboundStep::Handshake,
        InboundEvent::Connected => InboundStep::Serve,
        InboundEvent::HandshakeFailed => InboundStep::End,
        InboundEvent::Served => InboundStep::End,
        InboundEvent::ServeFailed => InboundStep::End,
    }
}

/// Whether an event can come of what a loop did last.
pub open spec fn answers_loop(step: LoopStep, event: LoopEvent) -> bool {
    match event {
        LoopEvent::Started => false,
        LoopEvent::Succeeded | LoopEvent::Failed => step is Run,
        LoopEvent::Slept => step is Sleep,
    }
}

/// Whether these are the events of a loop from its beginning on.
pub open spec fn loop_run(pause: Interval, events: Seq<LoopEvent>) -> bool {
    &&& events.len() > 0 ==> events[0] == LoopEvent::Started
    &&& forall|i: int|
        0 < i < events.len() ==> answers_loop(loop_next(pause, events[i - 1]), #[trigger] events[i])
}

/// A loop tries at once, and then tries and pauses by turns without end: each pause is just as
/// long as asked for, and a failed try changes nothing.
pub proof fn law_loop_never_stops(pause: Interval, events: Seq<LoopEvent>, n: int)
    requires
        loop_run(pause, events),
        0 <= n < events.len(),
    ensures
        loop_next(pause, events[n]) == (if n % 2 == 0 {
            LoopStep::Run
        } else {
            LoopStep::Sleep(pause)
        }),
    decreases n,
{
    if n > 0 {
        law_loop_never_stops(pause, events, n - 1);
        assert(answers_loop(loop_next(pause, events[n - 1]), events[n]));
    }
}

/// Whether an event can come of what a listener did last.
pub open spec fn answers_listen(step: ListenStepModel, event: ListenEvent) -> bool {
    match event {
        ListenEvent::Started => false,
        ListenEvent::Accepted | ListenEvent::AcceptFailed => step is Accept,
        ListenEvent::ForwardBegun => step is Forward,
        ListenEvent::Slept => step is Sleep,
    }
}

/// Whether these are the events of the listener of a backend from its beginning on.
pub open spec fn listen_run(key: KeyModel, events: Seq<ListenEvent>) -> bool {
    &&& events.len() > 0 ==> events[0] == ListenEvent::Started
    &&& forall|i: int|
        0 < i < events.len() ==> answers_listen(listen_next(key, events[i - 1]), #[trigger] events[i])
}

/// A listener never stops: every second step it accepts a client. In between it forwards the
/// client that it accepted to the backend, or makes its short pause if there was none.
pub proof fn law_listener_never_stops(key: KeyModel, events: Seq<ListenEvent>, n: int)
    requires
        listen_run(key, events),
        0 <= n < events.len(),
    ensures
        n % 2 == 0 ==> listen_next(key, events[n]) is Accept,
        n % 2 == 1 ==> listen_next(key, events[n]) == (if events[n] == ListenEvent::Accepted {
            ListenStepModel::Forward(key)
        } else {
            ListenStepModel::Sleep(Interval::whole_millis(ACCEPT_RETRY_MILLIS))
        }),
    decreases n,
{
    if n > 0 {
        law_listener_never_stops(key, events, n - 1);
        assert(answers_listen(listen_next(key, events[n - 1]), events[n]));
    }
}

/// Whether an event can come of what the loop that accepts connections did last.
pub open spec fn answers_accept(step: AcceptStep, event: AcceptEvent) -> bool {
    match event {
        AcceptEvent::Started => false,
        AcceptEvent::Incoming | AcceptEvent::EndpointClosed => step is Accept,
        AcceptEvent::ServeBegun => step is Serve,
    }
}

/// Whether these are the events of the loop that accepts connections from its beginning on.
pub open spec fn accept_run(events: Seq<AcceptEvent>) -> bool {
    &&& events.len() > 0 ==> events[0] == AcceptEvent::Started
    &&& forall|i: int|
        0 < i < events.len() ==> answers_accept(accept_next(events[i - 1]), #[trigger] events[i])
}

/// Every second step a connection is accepted, and in between the one that came is taken up,
/// until the endpoint accepts no more: that alone stops the loop.
pub proof fn law_accept_loop_ends_with_the_endpoint(events: Seq<AcceptEvent>, n: int)
    requires
        accept_run(events),
        0 <= n < events.len(),
    ensures
        n % 2 == 0 ==> accept_next(events[n]) is Accept,
        n % 2 == 1 ==> accept_next(events[n]) == (if events[n] == AcceptEvent::EndpointClosed {
            AcceptStep::Stop
        } else {
            AcceptStep::Serve
        }),
        accept_next(events[n]) is Stop ==> events.len() == n + 1,
    decreases n,
{
    if n > 0 {
        law_accept_loop_ends_with_the_endpoint(events, n - 1);
        assert(answers_accept(accept_next(events[n - 1]), events[n]));
    }
    if n + 1 < events.len() {
        assert(answers_accept(accept_next(events[n]), events[n + 1]));
    }
}

/// A loop tries when it begins and after each pause, and makes the pause that it was given, just
/// that one, after each try.
pub proof fn law_every_try_is_followed_by_the_pause(pause: Interval)
    ensures
        loop_next(pause, LoopEvent::Started) == LoopStep::Run,
        loop_next(pause, LoopEvent::Slept) == LoopStep::Run,
        loop_next(pause, LoopEvent::Succeeded) == LoopStep::Sleep(pause),
        loop_next(pause, LoopEvent::Failed) == LoopStep::Sleep(pause),
{
}

/// The peers are refreshed 5 seconds after the last refresh, and a listener waits 50 milliseconds
/// after an accept failed.
pub proof fn law_lengths_of_the_pauses()
    ensures
        loop_next(Interval::whole_secs(PEER_REFRESH_SECS), LoopEvent::Succeeded)
            == LoopStep::Sleep(Interval { secs: 5, subsec_nanos: 0 }),
        loop_next(Interval::whole_secs(PEER_REFRESH_SECS), LoopEvent::Failed) == LoopStep::Sleep(
            Interval { secs: 5, subsec_nanos: 0 },
        ),
        Interval::whole_millis(ACCEPT_RETRY_MILLIS) == (Interval {
            secs: 0,
            subsec_nanos: 50_000_000,
        }),
{
}

/// Each client of a listener is forwarded to the backend of the listener; a failed accept is
/// followed by the pause; and after either, as at the beginning, a client is accepted.
pub proof fn law_each_client_is_forwarded(step: ListenStep, key: TunnelKey, event: ListenEvent)
    requires
        step@ == listen_next(key@, event),
    ensures
        event is Accepted ==> (step matches ListenStep::Forward(to) && to.remote_node@
            == key.remote_node@ && to.dst_ip@ == key.dst_ip@ && to.dst_port == key.dst_port),
        event is AcceptFailed ==> step == ListenStep::Sleep(
            Interval { secs: 0, subsec_nanos: 50_000_000 },
        ),
        event is Started || event is ForwardBegun || event is Slept ==> step is Accept,
{
}

/// Each incoming connection is taken up, and after each the next one is waited for; the loop
/// stops exactly when the endpoint accepts no more.
pub proof fn law_each_connection_is_taken_up(event: AcceptEvent)
    ensures
        accept_next(event) is Stop <==> event is EndpointClosed,
        accept_next(event) is Serve <==> event is Incoming,
        accept_next(event) is Accept <==> event is Started || event is ServeBegun,
{
}

/// A connection that stands is served, and only such a one. It ends where it does not come to
/// stand, and when it was served, with success or without.
pub proof fn law_standing_connections_are_served(event: InboundEvent)
    ensures
        inbound_next(event) is Handshake <==> event is Begun,
        inbound_next(event) is Serve <==> event is Connected,
        inbound_next(event) is End <==> event is HandshakeFailed || event is Served
            || event is ServeFailed,
{
}

}
