//! What holds of a tunneled stream from end to end.
use vstd::prelude::*;

use crate::forward::{
    ForwardError, ForwardErrorModel, ForwardEvent, ForwardStep, ForwardStepModel,
};
use crate::relay::RelayError;
use crate::serve::{ServeError, ServeErrorModel, ServeEvent, ServeStep, ServeStepModel};
use crate::tunnel::{KeyModel, TunnelKey};
use crate::wire::{FramedRequest, RequestError, TcpConnectRequest, RUSTERNETES_IROH_ALPN};

verus! {

/// A request crosses the wire: what the near end sends for a body tells the far end to read just
/// that body where its length is accepted, and is refused else; and the request in it makes the
/// far end connect to the backend that the stream is for. Here `wire` is what the far end
/// receives: what was sent for the request, and what followed it.
pub proof fn law_request_crosses_the_wire(
    key: KeyModel,
    body: Vec<u8>,
    frame: FramedRequest,
    rest: Seq<u8>,
    wire: Seq<u8>,
    header: [u8; 4],
    read: Vec<u8>,
    request: TcpConnectRequest,
)
    requires
        body@.len() < 0x1_0000_0000,
        crate::forward::forward_next(key, ForwardEvent::RequestEncoded(body))
            == ForwardStepModel::SendHeader(frame@),
        wire == frame.header@ + frame.body@ + rest,
        header@ == wire.take(4),
        read@ == wire.skip(4).take(body@.len() as int),
        crate::forward::forward_next(key, ForwardEvent::StreamOpened)
            == ForwardStepModel::EncodeRequest(request@),
    ensures
        crate::serve::serve_next(ServeEvent::HeaderRead(header)) == (if crate::wire::length_ok(
            body@.len(),
        ) {
            ServeStepModel::ReadBody(body@.len() as usize)
        } else {
            ServeStepModel::Fail(
                ServeErrorModel::Refused(RequestError::InvalidLength(body@.len() as usize)),
            )
        }),
        crate::serve::serve_next(ServeEvent::BodyRead(read)) == ServeStepModel::DecodeRequest(
            body@,
        ),
        wire.skip(4 + body@.len() as int) == rest,
        crate::serve::serve_next(ServeEvent::RequestDecoded(request))
            == ServeStepModel::ConnectBackend(
            key.dst_ip + ":"@ + crate::text::decimal(key.dst_port as nat),
        ),
{
    assert(wire == crate::wire::framed(body@) + rest);
    crate::wire::law_framing_reads_back(body@, rest);
}

/// A stream comes out of the far end as it went into the near end: what the near end reads up to
/// the end of the stream and sends, the far end receives in chunks of any size, and writes just
/// that.
pub proof fn law_stream_reaches_the_other_end(reads: Seq<Seq<u8>>, chunks: Seq<Seq<u8>>)
    requires
        forall|i: int| 0 <= i < reads.len() ==> (#[trigger] reads[i]).len() > 0,
        forall|i: int| 0 <= i < chunks.len() ==> (#[trigger] chunks[i]).len() > 0,
        chunks.flatten() == crate::relay::relayed(reads.push(Seq::empty())),
    ensures
        crate::relay::relayed(chunks.push(Seq::empty())) == reads.flatten(),
{
    crate::relay::law_relay_keeps_the_stream(reads, Seq::empty());
    crate::relay::law_relay_keeps_the_stream(chunks, Seq::empty());
    assert(reads.push(Seq::empty()) + Seq::<Seq<u8>>::empty() =~= reads.push(Seq::empty()));
    assert(chunks.push(Seq::empty()) + Seq::<Seq<u8>>::empty() =~= chunks.push(Seq::empty()));
}

/// Whether an event can come of what was to be done for a connection.
pub open spec fn answers_serve(step: ServeStepModel, event: ServeEvent) -> bool {
    match event {
        ServeEvent::StreamOpened | ServeEvent::NoMoreStreams => step is AcceptStream,
        ServeEvent::HeaderRead(_) | ServeEvent::HeaderFailed => step is ReadHeader,
        ServeEvent::BodyRead(body) => step is ReadBody && step->ReadBody_0 == body@.len(),
        ServeEvent::BodyFailed => step is ReadBody,
        ServeEvent::RequestDecoded(_) | ServeEvent::DecodingFailed => step is DecodeRequest,
        ServeEvent::BackendConnected => step is ConnectBackend,
        ServeEvent::BackendFailed(dst) => step == ServeStepModel::ConnectBackend(dst@),
        ServeEvent::RelayEnded | ServeEvent::RelayFailed(_) => step is Relay,
    }
}

/// What was to be done for a connection after the first `n` events.
pub open spec fn serve_at(events: Seq<ServeEvent>, n: int) -> ServeStepModel {
    if n <= 0 {
        ServeStepModel::AcceptStream
    } else {
        crate::serve::serve_next(events[n - 1])
    }
}

/// Whether each event comes of what was to be done before it.
pub open spec fn serve_run(events: Seq<ServeEvent>) -> bool {
    forall|i: int| 0 <= i < events.len() ==> answers_serve(serve_at(events, i), #[trigger] events[i])
}

/// A stream is relayed only to a backend that was connected at the destination of a request
/// which was read from a body of accepted length, as long as the header before it says.
pub proof fn law_relay_follows_an_accepted_request(events: Seq<ServeEvent>, n: int)
    requires
        serve_run(events),
        0 <= n <= events.len(),
        serve_at(events, n) is Relay,
    ensures
        n >= 5,
        events[n - 5] == ServeEvent::StreamOpened,
        events[n - 4] matches ServeEvent::HeaderRead(header) && crate::wire::length_ok(
            crate::wire::be_value(header@),
        ) && (events[n - 3] matches ServeEvent::BodyRead(body) && body@.len()
            == crate::wire::be_value(header@) && serve_at(events, n - 2)
            == ServeStepModel::DecodeRequest(body@)),
        events[n - 2] matches ServeEvent::RequestDecoded(request) && serve_at(events, n - 1)
            == ServeStepModel::ConnectBackend(request@.destination()),
        events[n - 1] == ServeEvent::BackendConnected,
{
    assert(answers_serve(serve_at(events, n - 1), events[n - 1]));
    assert(answers_serve(serve_at(events, n - 2), events[n - 2]));
    assert(answers_serve(serve_at(events, n - 3), events[n - 3]));
    assert(answers_serve(serve_at(events, n - 4), events[n - 4]));
    assert(answers_serve(serve_at(events, n - 5), events[n - 5]));
}

/// A refused request is answered by the end of its connection: nothing is done for it and no
/// further stream is served.
pub proof fn law_refusal_ends_the_connection(events: Seq<ServeEvent>, n: int)
    requires
        serve_run(events),
        0 <= n < events.len(),
        events[n] matches ServeEvent::HeaderRead(header) && !crate::wire::length_ok(
            crate::wire::be_value(header@),
        ),
    ensures
        serve_at(events, n + 1) == ServeStepModel::Fail(
            ServeErrorModel::Refused(
                RequestError::InvalidLength(
                    crate::wire::be_value(events[n]->HeaderRead_0@) as usize,
                ),
            ),
        ),
        events.len() == n + 1,
{
    if n + 1 < events.len() {
        assert(answers_serve(serve_at(events, n + 1), events[n + 1]));
    }
}

/// A connection is left without an error only when the other node opens no more streams, and
/// after each stream that ended well the next one is waited for.
pub proof fn law_connection_serves_stream_after_stream(events: Seq<ServeEvent>, n: int)
    requires
        serve_run(events),
        0 < n <= events.len(),
    ensures
        serve_at(events, n) is Done <==> events[n - 1] == ServeEvent::NoMoreStreams,
        serve_at(events, n) is AcceptStream <==> events[n - 1] == ServeEvent::RelayEnded,
        (serve_at(events, n) is Done || serve_at(events, n) is Fail) ==> events.len() == n,
{
    if n < events.len() {
        assert(answers_serve(serve_at(events, n), events[n]));
    }
}

/// Whether an event can come of what was to be done for a stream.
pub open spec fn answers_forward(step: ForwardStepModel, event: ForwardEvent) -> bool {
    match event {
        ForwardEvent::Dialed | ForwardEvent::DialFailed => step is Dial,
        ForwardEvent::StreamOpened | ForwardEvent::StreamFailed => step is OpenStream,
        ForwardEvent::RequestEncoded(_) | ForwardEvent::EncodingFailed => step is EncodeRequest,
        ForwardEvent::HeaderSent(frame) => step == ForwardStepModel::SendHeader(frame@),
        ForwardEvent::HeaderFailed => step is SendHeader,
        ForwardEvent::BodySent | ForwardEvent::BodyFailed => step is SendBody,
        ForwardEvent::RelayEnded | ForwardEvent::RelayFailed(_) => step is Relay,
    }
}

/// What was to be done for a stream to a backend after the first `n` events.
pub open spec fn forward_at(
    peers: Map<Seq<char>, iroh::EndpointAddr>,
    key: KeyModel,
    events: Seq<ForwardEvent>,
    n: int,
) -> ForwardStepModel {
    if n <= 0 {
        crate::forward::forward_start(peers, key)
    } else {
        crate::forward::forward_next(key, events[n - 1])
    }
}

/// Whether each event comes of what was to be done before it.
pub open spec fn forward_run(
    peers: Map<Seq<char>, iroh::EndpointAddr>,
    key: KeyModel,
    events: Seq<ForwardEvent>,
) -> bool {
    forall|i: int|
        0 <= i < events.len() ==> answers_forward(
            forward_at(peers, key, events, i),
            #[trigger] events[i],
        )
}

/// A stream is relayed to the advertised node of its backend alone, over a connection of the
/// overlay protocol, and only after the connect request of that backend went out as it was
/// serialized, its length first.
pub proof fn law_relay_follows_the_request(
    peers: Map<Seq<char>, iroh::EndpointAddr>,
    key: KeyModel,
    events: Seq<ForwardEvent>,
    n: int,
)
    requires
        forward_run(peers, key, events),
        0 <= n <= events.len(),
        forward_at(peers, key, events, n) is Relay,
    ensures
        n == 5,
        peers.contains_key(key.remote_node),
        forward_at(peers, key, events, 0) == ForwardStepModel::Dial(
            peers[key.remote_node],
            RUSTERNETES_IROH_ALPN@,
        ),
        forward_at(peers, key, events, 2) == ForwardStepModel::EncodeRequest(
            crate::forward::request_for(key),
        ),
        events[2] matches ForwardEvent::RequestEncoded(body) && forward_at(peers, key, events, 3)
            == ForwardStepModel::SendHeader(crate::wire::framed(body@)) && forward_at(
            peers,
            key,
            events,
            4,
        ) == ForwardStepModel::SendBody(crate::wire::framed(body@)),
{
    assert(answers_forward(forward_at(peers, key, events, n - 1), events[n - 1]));
    assert(answers_forward(forward_at(peers, key, events, n - 2), events[n - 2]));
    assert(answers_forward(forward_at(peers, key, events, n - 3), events[n - 3]));
    assert(answers_forward(forward_at(peers, key, events, n - 4), events[n - 4]));
    assert(answers_forward(forward_at(peers, key, events, n - 5), events[n - 5]));
    if n > 5 {
        assert(answers_forward(forward_at(peers, key, events, n - 6), events[n - 6]));
    }
}

/// Nothing is dialed for a backend whose node has no advertisement.
pub proof fn law_unadvertised_node_is_refused(
    peers: Map<Seq<char>, iroh::EndpointAddr>,
    key: KeyModel,
    events: Seq<ForwardEvent>,
)
    requires
        forward_run(peers, key, events),
        !peers.contains_key(key.remote_node),
    ensures
        forward_at(peers, key, events, 0) == ForwardStepModel::Fail(
            ForwardErrorModel::NoPeer(key.remote_node),
        ),
        events.len() == 0,
{
    if events.len() > 0 {
        assert(answers_forward(forward_at(peers, key, events, 0), events[0]));
    }
}

/// For one stream of a client at most one connection is made and at most one stream is opened,
/// and whatever fails ends the forwarding: where dialing or opening fails, nothing is relayed.
pub proof fn law_forwarding_connects_once(
    peers: Map<Seq<char>, iroh::EndpointAddr>,
    key: KeyModel,
    events: Seq<ForwardEvent>,
    n: int,
)
    requires
        forward_run(peers, key, events),
        0 <= n <= events.len(),
    ensures
        forward_at(peers, key, events, n) is Dial ==> n == 0,
        forward_at(peers, key, events, n) is OpenStream ==> n == 1,
        forward_at(peers, key, events, n) is Done || forward_at(peers, key, events, n) is Fail
            ==> events.len() == n,
        n > 0 && (events[n - 1] == ForwardEvent::DialFailed || events[n - 1]
            == ForwardEvent::StreamFailed) ==> forward_at(peers, key, events, n) is Fail && n <= 2,
{
    if n > 0 {
        assert(answers_forward(forward_at(peers, key, events, n - 1), events[n - 1]));
    }
    if n > 1 {
        assert(answers_forward(forward_at(peers, key, events, n - 2), events[n - 2]));
    }
    if n > 2 {
        assert(answers_forward(forward_at(peers, key, events, n - 3), events[n - 3]));
    }
    if n < events.len() {
        assert(answers_forward(forward_at(peers, key, events, n), events[n]));
    }
}

/// A backend whose node has advertised itself gets its node dialed, at the address that the node
/// advertised and by the overlay protocol; for any other backend the stream is given up, and the
/// error names the node.
pub proof fn law_advertised_node_is_dialed(
    step: ForwardStep,
    peers: Map<Seq<char>, iroh::EndpointAddr>,
    key: TunnelKey,
)
    requires
        step@ == crate::forward::forward_start(peers, key@),
    ensures
        peers.contains_key(key.remote_node@) ==> (step matches ForwardStep::Dial(addr, alpn) && addr
            == peers[key.remote_node@] && alpn@ == RUSTERNETES_IROH_ALPN@),
        !peers.contains_key(key.remote_node@) ==> (step matches ForwardStep::Fail(err) && (
        err matches ForwardError::NoPeer(node) && node@ == key.remote_node@)),
{
}

/// Each success takes a stream one step on. A connection is followed by a stream; a stream by the
/// request, for the address and the port of the backend; a serialized request, however long, by
/// four bytes that tell its length and then by itself; a request that is sent by the relay; and a
/// relay that has ended is the end.
pub proof fn law_each_success_takes_a_stream_on(step: ForwardStep, key: TunnelKey, event: ForwardEvent)
    requires
        step@ == crate::forward::forward_next(key@, event),
    ensures
        event is Dialed ==> step is OpenStream,
        event is StreamOpened ==> (step matches ForwardStep::EncodeRequest(request)
            && request.dst_ip@ == key.dst_ip@ && request.dst_port == key.dst_port),
        event matches ForwardEvent::RequestEncoded(body) ==> (step matches ForwardStep::SendHeader(
            frame,
        ) && frame.body@ == body@ && frame.header[0] * 0x100_0000 + frame.header[1] * 0x1_0000
            + frame.header[2] * 0x100 + frame.header[3] == body@.len() % 0x1_0000_0000),
        event matches ForwardEvent::HeaderSent(sent) ==> (step matches ForwardStep::SendBody(frame)
            && frame.header@ == sent.header@ && frame.body@ == sent.body@),
        event is BodySent ==> step is Relay,
        event is RelayEnded ==> step is Done,
{
    if let ForwardEvent::RequestEncoded(body) = event {
        if let ForwardStep::SendHeader(frame) = step {
            crate::wire::law_frame_has_two_parts(frame, body@);
            crate::wire::law_headers_are_big_endian(body@.len(), frame.header);
        }
    }
    if let ForwardEvent::HeaderSent(sent) = event {
        if let ForwardStep::SendBody(frame) = step {
            assert(frame.header@ =~= frame@.take(4));
            assert(sent.header@ =~= sent@.take(4));
            assert(frame.body@ =~= frame@.skip(4));
            assert(sent.body@ =~= sent@.skip(4));
        }
    }
}

/// Each failure ends a stream with its own error, and nothing but a failure does.
pub proof fn law_each_failure_ends_a_stream(step: ForwardStep, key: TunnelKey, event: ForwardEvent)
    requires
        step@ == crate::forward::forward_next(key@, event),
    ensures
        step is Fail <==> (event is DialFailed || event is StreamFailed || event is EncodingFailed
            || event is HeaderFailed || event is BodyFailed || event is RelayFailed),
        event is DialFailed ==> (step matches ForwardStep::Fail(err) && (
        err matches ForwardError::Unreachable(node) && node@ == key.remote_node@)),
        event is StreamFailed ==> step->Fail_0 is NoStream,
        event is EncodingFailed ==> step->Fail_0 is Unencodable,
        event is HeaderFailed ==> step->Fail_0 is HeaderUnsent,
        event is BodyFailed ==> step->Fail_0 is BodyUnsent,
        event matches ForwardEvent::RelayFailed(relay) ==> step->Fail_0
            == ForwardError::Relay(relay),
{
}

/// Whether an event tells of a failure.
pub open spec fn is_forward_failure(event: ForwardEvent) -> bool {
    event is DialFailed || event is StreamFailed || event is EncodingFailed || event is HeaderFailed
        || event is BodyFailed || event is RelayFailed
}

/// A stream to an advertised node for which nothing fails is relayed: after a connection, a
/// stream, a serialized request, and its two parts sent, comes the relay, and after the relay the
/// end.
pub proof fn law_undisturbed_stream_is_relayed(
    peers: Map<Seq<char>, iroh::EndpointAddr>,
    key: KeyModel,
    events: Seq<ForwardEvent>,
)
    requires
        peers.contains_key(key.remote_node),
        forward_run(peers, key, events),
        forall|i: int| 0 <= i < events.len() ==> !is_forward_failure(#[trigger] events[i]),
    ensures
        events.len() >= 5 ==> forward_at(peers, key, events, 5) is Relay,
        events.len() >= 6 ==> forward_at(peers, key, events, 6) is Done,
        events.len() <= 6,
        forall|i: int|
            0 <= i < events.len() && i < 6 ==> !(forward_at(peers, key, events, i) is Done)
                && !(forward_at(peers, key, events, i) is Fail),
{
    assert(events.len() > 0 ==> answers_forward(forward_at(peers, key, events, 0), events[0])
        && !is_forward_failure(events[0]));
    assert(events.len() > 1 ==> answers_forward(forward_at(peers, key, events, 1), events[1])
        && !is_forward_failure(events[1]));
    assert(events.len() > 2 ==> answers_forward(forward_at(peers, key, events, 2), events[2])
        && !is_forward_failure(events[2]));
    assert(events.len() > 3 ==> answers_forward(forward_at(peers, key, events, 3), events[3])
        && !is_forward_failure(events[3]));
    assert(events.len() > 4 ==> answers_forward(forward_at(peers, key, events, 4), events[4])
        && !is_forward_failure(events[4]));
    assert(events.len() > 5 ==> answers_forward(forward_at(peers, key, events, 5), events[5])
        && !is_forward_failure(events[5]));
    assert(events.len() > 6 ==> answers_forward(forward_at(peers, key, events, 6), events[6]));
}

/// A request header is refused exactly where the number that it spells, most significant byte
/// first, is 0 or more than 8192. Else a body of just that many bytes is read.
pub proof fn law_only_bad_lengths_are_refused(step: ServeStep, header: [u8; 4])
    requires
        step@ == crate::serve::serve_next(ServeEvent::HeaderRead(header)),
    ensures
        ({
            let len = header[0] * 0x100_0000 + header[1] * 0x1_0000 + header[2] * 0x100 + header[3];
            &&& 1 <= len <= 8192 ==> step == ServeStep::ReadBody(len as usize)
            &&& len == 0 || len > 8192 ==> step == ServeStep::Fail(
                ServeError::Refused(RequestError::InvalidLength(len as usize)),
            )
        }),
{
}

/// What is told of the length of a body when it is read: the number that the header spells, if it
/// is from 1 to 8192, and else the refusal of that number.
pub proof fn law_header_tells_the_length(header: [u8; 4])
    ensures
        ({
            let len = header[0] * 0x100_0000 + header[1] * 0x1_0000 + header[2] * 0x100 + header[3];
            &&& crate::wire::be_value(header@) == len
            &&& crate::wire::length_ok(len as nat) <==> 1 <= len <= 8192
        }),
{
}

/// Each success takes a connection one step on: an opened stream to its header, a body to the
/// request in it, a request to the backend at its address and port, a backend to the relay, and a
/// relay that has ended to the next stream. When there are no more streams, all is done.
pub proof fn law_each_success_takes_a_connection_on(step: ServeStep, event: ServeEvent)
    requires
        step@ == crate::serve::serve_next(event),
    ensures
        event is StreamOpened ==> step is ReadHeader,
        event is NoMoreStreams ==> step is Done,
        event matches ServeEvent::BodyRead(read) ==> (step matches ServeStep::DecodeRequest(body)
            && body@ == read@),
        event matches ServeEvent::RequestDecoded(request) ==> (
        step matches ServeStep::ConnectBackend(dst) && dst@ == request.dst_ip@ + seq![':']
            + crate::text::decimal(request.dst_port as nat)),
        event is BackendConnected ==> step is Relay,
        event is RelayEnded ==> step is AcceptStream,
{
    if let ServeEvent::RequestDecoded(request) = event {
        crate::wire::law_destination_text(request);
    }
}

/// Each failure ends a connection with its own error, and nothing does but a failure or a refused
/// header.
pub proof fn law_each_failure_ends_a_connection(step: ServeStep, event: ServeEvent)
    requires
        step@ == crate::serve::serve_next(event),
    ensures
        step is Fail && !(event is HeaderRead) <==> (event is HeaderFailed || event is BodyFailed
            || event is DecodingFailed || event is BackendFailed || event is RelayFailed),
        event is HeaderFailed ==> step->Fail_0 is HeaderUnread,
        event is BodyFailed ==> step->Fail_0 is BodyUnread,
        event is DecodingFailed ==> step->Fail_0 is InvalidRequest,
        event matches ServeEvent::BackendFailed(dst) ==> (step->Fail_0
            matches ServeError::BackendUnreachable(named) && named@ == dst@),
        event matches ServeEvent::RelayFailed(relay) ==> step->Fail_0 == ServeError::Relay(relay),
{
}

/// Whether an event tells of a failure, or of a header whose length is not from 1 to 8192.
pub open spec fn is_serve_failure(event: ServeEvent) -> bool {
    match event {
        ServeEvent::HeaderRead(header) => {
            let len = header[0] * 0x100_0000 + header[1] * 0x1_0000 + header[2] * 0x100 + header[3];
            len == 0 || len > 8192
        },
        _ => event is HeaderFailed || event is BodyFailed || event is DecodingFailed
            || event is BackendFailed || event is RelayFailed,
    }
}

/// A stream for which nothing fails is relayed: after it was opened, its header, its body and its
/// request read, and the backend reached, comes the relay, and after the relay the next stream is
/// waited for.
pub proof fn law_undisturbed_request_is_served(events: Seq<ServeEvent>, n: int)
    requires
        serve_run(events),
        0 <= n < events.len(),
        events[n] == ServeEvent::StreamOpened,
        forall|i: int| n <= i < events.len() ==> !is_serve_failure(#[trigger] events[i]),
    ensures
        events.len() >= n + 5 ==> serve_at(events, n + 5) is Relay,
        events.len() >= n + 6 ==> serve_at(events, n + 6) is AcceptStream,
{
    assert(events.len() > n + 1 ==> answers_serve(serve_at(events, n + 1), events[n + 1])
        && !is_serve_failure(events[n + 1]));
    assert(events.len() > n + 2 ==> answers_serve(serve_at(events, n + 2), events[n + 2])
        && !is_serve_failure(events[n + 2]));
    assert(events.len() > n + 3 ==> answers_serve(serve_at(events, n + 3), events[n + 3])
        && !is_serve_failure(events[n + 3]));
    assert(events.len() > n + 4 ==> answers_serve(serve_at(events, n + 4), events[n + 4])
        && !is_serve_failure(events[n + 4]));
    assert(events.len() > n + 5 ==> answers_serve(serve_at(events, n + 5), events[n + 5])
        && !is_serve_failure(events[n + 5]));
}

/// The sentence of a forwarding error says what failed, and names the node where one is missing.
pub proof fn law_forward_error_sentences(err: ForwardError)
    ensures
        err matches ForwardError::NoPeer(node) ==> err@.message()
            == "no iroh peer advertisement for "@ + node@,
        err matches ForwardError::Unreachable(node) ==> err@.message()
            == "failed to connect to remote node "@ + node@,
        err is NoStream ==> err@.message() == "failed to open iroh stream"@,
        err is Unencodable ==> err@.message() == "failed to serialize connect request"@,
        err is HeaderUnsent ==> err@.message() == "failed to send request length"@,
        err is BodyUnsent ==> err@.message() == "failed to send request bytes"@,
        err matches ForwardError::Relay(relay) ==> err@.message() == relay.message_spec(),
{
}

/// The sentence of a serving error says what failed, and names the destination that was not
/// reached or the length that was refused.
pub proof fn law_serve_error_sentences(err: ServeError)
    ensures
        err is HeaderUnread ==> err@.message() == "failed to read request length"@,
        err matches ServeError::Refused(RequestError::InvalidLength(len)) ==> err@.message()
            == "invalid request length "@ + crate::text::decimal(len as nat),
        err is BodyUnread ==> err@.message() == "failed to read request"@,
        err is InvalidRequest ==> err@.message() == "invalid request JSON"@,
        err matches ServeError::BackendUnreachable(dst) ==> err@.message()
            == "failed to connect to backend "@ + dst@,
        err matches ServeError::Relay(relay) ==> err@.message() == relay.message_spec(),
{
}

}
