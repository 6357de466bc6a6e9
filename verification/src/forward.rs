//! The near end of a tunneled stream: from a local client to the node that owns the backend.
use iroh::EndpointAddr;
use vstd::prelude::*;
use vstd::string::StringExecFns;

use crate::peers::PeerTable;
use crate::relay::RelayError;
use crate::tunnel::{KeyModel, TunnelKey};
use crate::wire::{
    frame_request, FramedRequest, RequestModel, TcpConnectRequest, RUSTERNETES_IROH_ALPN,
};

verus! {

/// Why a stream is not forwarded, or not to its end.
#[derive(Debug)]
pub enum ForwardError {
    /// The node that owns the backend, whose name this is, has no known address.
    NoPeer(String),
    /// The node that owns the backend, whose name this is, could not be reached.
    Unreachable(String),
    /// No stream could be opened to the node.
    NoStream,
    /// The connect request could not be serialized.
    Unencodable,
    /// The header of the connect request could not be sent.
    HeaderUnsent,
    /// The body of the connect request could not be sent.
    BodyUnsent,
    /// The stream broke off.
    Relay(RelayError),
}

/// A forwarding error, with text as a character sequence.
pub enum ForwardErrorModel {
    NoPeer(Seq<char>),
    Unreachable(Seq<char>),
    NoStream,
    Unencodable,
    HeaderUnsent,
    BodyUnsent,
    Relay(RelayError),
}

impl View for ForwardError {
    type V = ForwardErrorModel;

    open spec fn view(&self) -> ForwardErrorModel {
        match self {
            ForwardError::NoPeer(node) => ForwardErrorModel::NoPeer(node@),
            ForwardError::Unreachable(node) => ForwardErrorModel::Unreachable(node@),
            ForwardError::NoStream => ForwardErrorModel::NoStream,
            ForwardError::Unencodable => ForwardErrorModel::Unencodable,
            ForwardError::HeaderUnsent => ForwardErrorModel::HeaderUnsent,
            ForwardError::BodyUnsent => ForwardErrorModel::BodyUnsent,
            ForwardError::Relay(err) => ForwardErrorModel::Relay(*err),
        }
    }
}

impl ForwardErrorModel {
    /// The sentence that tells an operator about the error.
    pub open spec fn message(self) -> Seq<char> {
        match self {
            ForwardErrorModel::NoPeer(node) => "no iroh peer advertisement for "@ + node,
            ForwardErrorModel::Unreachable(node) => "failed to connect to remote node "@ + node,
            ForwardErrorModel::NoStream => "failed to open iroh stream"@,
            ForwardErrorModel::Unencodable => "failed to serialize connect request"@,
            ForwardErrorModel::HeaderUnsent => "failed to send request length"@,
            ForwardErrorModel::BodyUnsent => "failed to send request bytes"@,
            ForwardErrorModel::Relay(err) => err.message_spec(),
        }
    }
}

impl ForwardError {
    /// The sentence that tells an operator about the error.
    pub fn message(&self) -> (s: String)
        ensures
            s@ == self@.message(),
    {
        match self {
            ForwardError::NoPeer(node) => "no iroh peer advertisement for ".to_owned().concat(
                node.as_str(),
            ),
            ForwardError::Unreachable(node) => {
                "failed to connect to remote node ".to_owned().concat(node.as_str())
            },
            ForwardError::NoStream => "failed to open iroh stream".to_owned(),
            ForwardError::Unencodable => "failed to serialize connect request".to_owned(),
            ForwardError::HeaderUnsent => "failed to send request length".to_owned(),
            ForwardError::BodyUnsent => "failed to send request bytes".to_owned(),
            ForwardError::Relay(err) => err.message(),
        }
    }
}

/// What came of the last thing that was to be done for a stream.
#[derive(Debug)]
pub enum ForwardEvent {
    /// The node was reached.
    Dialed,
    DialFailed,
    /// A stream to the node is open.
    StreamOpened,
    StreamFailed,
    /// The connect request is serialized to these bytes.
    RequestEncoded(Vec<u8>),
    EncodingFailed,
    /// The header of this framed request was sent.
    HeaderSent(FramedRequest),
    HeaderFailed,
    /// The body of the request was sent.
    BodySent,
    BodyFailed,
    /// Both directions of the stream have ended.
    RelayEnded,
    RelayFailed(RelayError),
}

/// What to do next for a stream.
#[derive(Debug)]
pub enum ForwardStep {
    /// Connect to this node, by the protocol of this ALPN.
    Dial(EndpointAddr, [u8; 26]),
    /// Open a stream to the node.
    OpenStream,
    /// Serialize this request.
    EncodeRequest(TcpConnectRequest),
    /// Send the header of this framed request.
    SendHeader(FramedRequest),
    /// Send the body of this framed request.
    SendBody(FramedRequest),
    /// Copy the stream in both directions.
    Relay,
    /// All is done.
    Done,
    /// Give the stream up.
    Fail(ForwardError),
}

/// What to do next, with text and bytes as sequences. A framed request is the bytes that go out
/// for it, of which the first four are its header.
pub enum ForwardStepModel {
    Dial(EndpointAddr, Seq<u8>),
    OpenStream,
    EncodeRequest(RequestModel),
    SendHeader(Seq<u8>),
    SendBody(Seq<u8>),
    Relay,
    Done,
    Fail(ForwardErrorModel),
}

impl View for ForwardStep {
    type V = ForwardStepModel;

    open spec fn view(&self) -> ForwardStepModel {
        match self {
            ForwardStep::Dial(addr, alpn) => ForwardStepModel::Dial(*addr, alpn@),
            ForwardStep::OpenStream => ForwardStepModel::OpenStream,
            ForwardStep::EncodeRequest(request) => ForwardStepModel::EncodeRequest(request@),
            ForwardStep::SendHeader(frame) => ForwardStepModel::SendHeader(frame@),
            ForwardStep::SendBody(frame) => ForwardStepModel::SendBody(frame@),
            ForwardStep::Relay => ForwardStepModel::Relay,
            ForwardStep::Done => ForwardStepModel::Done,
            ForwardStep::Fail(err) => ForwardStepModel::Fail(err@),
        }
    }
}

/// The request that a stream for a backend opens with.
pub open spec fn request_for(key: KeyModel) -> RequestModel {
    RequestModel { dst_ip: key.dst_ip, dst_port: key.dst_port }
}

/// How forwarding to a backend begins: its node is dialed by the overlay protocol, where its
/// address is known.
pub open spec fn forward_start(
    peers: Map<Seq<char>, EndpointAddr>,
    key: KeyModel,
) -> ForwardStepModel {
    match crate::peers::peer_of(peers, key.remote_node) {
        Some(addr) => ForwardStepModel::Dial(addr, RUSTERNETES_IROH_ALPN@),
        None => ForwardStepModel::Fail(ForwardErrorModel::NoPeer(key.remote_node)),
    }
}

/// How forwarding to a backend goes on after an event.
pub open spec fn forward_next(key: KeyModel, event: ForwardEvent) -> ForwardStepModel {
    match event {
        ForwardEvent::Dialed => ForwardStepModel::OpenStream,
        ForwardEvent::DialFailed => ForwardStepModel::Fail(
            ForwardErrorModel::Unreachable(key.remote_node),
        ),
        ForwardEvent::StreamOpened => ForwardStepModel::EncodeRequest(request_for(key)),
        ForwardEvent::StreamFailed => ForwardStepModel::Fail(ForwardErrorModel::NoStream),
        ForwardEvent::RequestEncoded(body) => ForwardStepModel::SendHeader(
            crate::wire::framed(body@),
        ),
        ForwardEvent::EncodingFailed => ForwardStepModel::Fail(ForwardErrorModel::Unencodable),
        ForwardEvent::HeaderSent(frame) => ForwardStepModel::SendBody(frame@),
        ForwardEvent::HeaderFailed => ForwardStepModel::Fail(ForwardErrorModel::HeaderUnsent),
        ForwardEvent::BodySent => ForwardStepModel::Relay,
        ForwardEvent::BodyFailed => ForwardStepModel::Fail(ForwardErrorModel::BodyUnsent),
        ForwardEvent::RelayEnded => ForwardStepModel::Done,
        ForwardEvent::RelayFailed(err) => ForwardStepModel::Fail(ForwardErrorModel::Relay(err)),
    }
}

impl TunnelKey {
    /// Begins to forward a stream to the backend.
    pub(crate) fn begin_forward(&self, peers: &PeerTable) -> (step: ForwardStep)
        ensures
            step@ == forward_start(peers@, self@),
    {
        match peers.get_peer_addr(self.remote_node.as_str()) {
            Some(addr) => ForwardStep::Dial(addr, RUSTERNETES_IROH_ALPN),
            None => ForwardStep::Fail(ForwardError::NoPeer(self.remote_node.clone())),
        }
    }

    /// Goes on with forwarding a stream to the backend after what was to be done last.
    pub fn continue_forward(&self, event: ForwardEvent) -> (step: ForwardStep)
        ensures
            step@ == forward_next(self@, event),
    {
        match event {
            ForwardEvent::Dialed => ForwardStep::OpenStream,
            ForwardEvent::DialFailed => ForwardStep::Fail(
                ForwardError::Unreachable(self.remote_node.clone()),
            ),
            ForwardEvent::StreamOpened => ForwardStep::EncodeRequest(
                TcpConnectRequest { dst_ip: self.dst_ip.clone(), dst_port: self.dst_port },
            ),
            ForwardEvent::StreamFailed => ForwardStep::Fail(ForwardError::NoStream),
            ForwardEvent::RequestEncoded(body) => ForwardStep::SendHeader(frame_request(body)),
            ForwardEvent::EncodingFailed => ForwardStep::Fail(ForwardError::Unencodable),
            ForwardEvent::HeaderSent(frame) => ForwardStep::SendBody(frame),
            ForwardEvent::HeaderFailed => ForwardStep::Fail(ForwardError::HeaderUnsent),
            ForwardEvent::BodySent => ForwardStep::Relay,
            ForwardEvent::BodyFailed => ForwardStep::Fail(ForwardError::BodyUnsent),
            ForwardEvent::RelayEnded => ForwardStep::Done,
            ForwardEvent::RelayFailed(err) => ForwardStep::Fail(ForwardError::Relay(err)),
        }
    }
}

}
