//! The far end of tunneled streams: from another node to the backends here.
use vstd::prelude::*;
use vstd::string::StringExecFns;

use crate::relay::RelayError;
use crate::wire::{request_length, RequestError, TcpConnectRequest};

verus! {

/// Why a connection of another node is given up.
#[derive(Debug)]
pub enum ServeError {
    /// The header of a connect request could not be read.
    HeaderUnread,
    /// The header of a connect request is refused.
    Refused(RequestError),
    /// The body of a connect request could not be read.
    BodyUnread,
    /// The body of a connect request is no request.
    InvalidRequest,
    /// The backend could not be reached at this destination.
    BackendUnreachable(String),
    /// A stream broke off.
    Relay(RelayError),
}

/// A serving error, with text as a character sequence.
pub enum ServeErrorModel {
    HeaderUnread,
    Refused(RequestError),
    BodyUnread,
    InvalidRequest,
    BackendUnreachable(Seq<char>),
    Relay(RelayError),
}

impl View for ServeError {
    type V = ServeErrorModel;

    open spec fn view(&self) -> ServeErrorModel {
        match self {
            ServeError::HeaderUnread => ServeErrorModel::HeaderUnread,
            ServeError::Refused(err) => ServeErrorModel::Refused(*err),
            ServeError::BodyUnread => ServeErrorModel::BodyUnread,
            ServeError::InvalidRequest => ServeErrorModel::InvalidRequest,
            ServeError::BackendUnreachable(dst) => ServeErrorModel::BackendUnreachable(dst@),
            ServeError::Relay(err) => ServeErrorModel::Relay(*err),
        }
    }
}

impl ServeErrorModel {
    /// The sentence that tells an operator about the error.
    pub open spec fn message(self) -> Seq<char> {
        match self {
            ServeErrorModel::HeaderUnread => "failed to read request length"@,
            ServeErrorModel::Refused(err) => err.message_spec(),
            ServeErrorModel::BodyUnread => "failed to read request"@,
            ServeErrorModel::InvalidRequest => "invalid request JSON"@,
            ServeErrorModel::BackendUnreachable(dst) => "failed to connect to backend "@ + dst,
            ServeErrorModel::Relay(err) => err.message_spec(),
        }
    }
}

impl ServeError {
    /// The sentence that tells an operator about the error.
    pub fn message(&self) -> (s: String)
        ensures
            s@ == self@.message(),
    {
        match self {
            ServeError::HeaderUnread => "failed to read request length".to_owned(),
            ServeError::Refused(err) => err.message(),
            ServeError::BodyUnread => "failed to read request".to_owned(),
            ServeError::InvalidRequest => "invalid request JSON".to_owned(),
            ServeError::BackendUnreachable(dst) => "failed to connect to backend ".to_owned().concat(
                dst.as_str(),
            ),
            ServeError::Relay(err) => err.message(),
        }
    }
}

/// What came of the last thing that was to be done for a connection.
#[derive(Debug)]
pub enum ServeEvent {
    /// The other node has opened a stream.
    StreamOpened,
    /// The other node opens no more streams.
    NoMoreStreams,
    /// These four bytes, the header of a request, were read.
    HeaderRead([u8; 4]),
    HeaderFailed,
    /// These bytes, the body of a request, were read.
    BodyRead(Vec<u8>),
    BodyFailed,
    /// The body holds this request.
    RequestDecoded(TcpConnectRequest),
    /// The body holds no request.
    DecodingFailed,
    /// The backend was reached.
    BackendConnected,
    /// The backend was not reached at this destination.
    BackendFailed(String),
    /// Both directions of the stream have ended.
    RelayEnded,
    RelayFailed(RelayError),
}

/// What to do next for a connection.
#[derive(Debug)]
pub enum ServeStep {
    /// Wait for the other node to open a stream.
    AcceptStream,
    /// Read the four bytes of a request header.
    ReadHeader,
    /// Read a body of this many bytes.
    ReadBody(usize),
    /// Read the request that this body holds.
    DecodeRequest(Vec<u8>),
    /// Connect to the backend at this destination.
    ConnectBackend(String),
    /// Copy the stream in both directions.
    Relay,
    /// All is done.
    Done,
    /// Give the connection up.
    Fail(ServeError),
}

/// What to do next, with text and bytes as sequences.
pub enum ServeStepModel {
    AcceptStream,
    ReadHeader,
    ReadBody(usize),
    DecodeRequest(Seq<u8>),
    ConnectBackend(Seq<char>),
    Relay,
    Done,
    Fail(ServeErrorModel),
}

impl View for ServeStep {
    type V = ServeStepModel;

    open spec fn view(&self) -> ServeStepModel {
        match self {
            ServeStep::AcceptStream => ServeStepModel::AcceptStream,
            ServeStep::ReadHeader => ServeStepModel::ReadHeader,
            ServeStep::ReadBody(len) => ServeStepModel::ReadBody(*len),
            ServeStep::DecodeRequest(body) => ServeStepModel::DecodeRequest(body@),
            ServeStep::ConnectBackend(dst) => ServeStepModel::ConnectBackend(dst@),
            ServeStep::Relay => ServeStepModel::Relay,
            ServeStep::Done => ServeStepModel::Done,
            ServeStep::Fail(err) => ServeStepModel::Fail(err@),
        }
    }
}

/// How serving a connection goes on after an event: streams are served one after the other
/// until there are no more, and the first failure ends the connection.
pub open spec fn serve_next(event: ServeEvent) -> ServeStepModel {
    match event {
        ServeEvent::StreamOpened => ServeStepModel::ReadHeader,
        ServeEvent::NoMoreStreams => ServeStepModel::Done,
        ServeEvent::HeaderRead(header) => {
            let len = crate::wire::be_value(header@);
            if crate::wire::length_ok(len) {
                ServeStepModel::ReadBody(len as usize)
            } else {
                ServeStepModel::Fail(
                    ServeErrorModel::Refused(RequestError::InvalidLength(len as usize)),
                )
            }
        },
        ServeEvent::HeaderFailed => ServeStepModel::Fail(ServeErrorModel::HeaderUnread),
        ServeEvent::BodyRead(body) => ServeStepModel::DecodeRequest(body@),
        ServeEvent::BodyFailed => ServeStepModel::Fail(ServeErrorModel::BodyUnread),
        ServeEvent::RequestDecoded(request) => ServeStepModel::ConnectBackend(
            request@.destination(),
        ),
        ServeEvent::DecodingFailed => ServeStepModel::Fail(ServeErrorModel::InvalidRequest),
        ServeEvent::BackendConnected => ServeStepModel::Relay,
        ServeEvent::BackendFailed(dst) => ServeStepModel::Fail(
            ServeErrorModel::BackendUnreachable(dst@),
        ),
        ServeEvent::RelayEnded => ServeStepModel::AcceptStream,
        ServeEvent::RelayFailed(err) => ServeStepModel::Fail(ServeErrorModel::Relay(err)),
    }
}

/// Goes on with serving a connection after what was to be done last. Serving begins with
/// waiting for a stream.
pub fn handle_connection(event: ServeEvent) -> (step: ServeStep)
    ensures
        step@ == serve_next(event),
{
    match event {
        ServeEvent::StreamOpened => ServeStep::ReadHeader,
        ServeEvent::NoMoreStreams => ServeStep::Done,
        ServeEvent::HeaderRead(header) => match request_length(header) {
            Ok(len) => ServeStep::ReadBody(len),
            Err(err) => ServeStep::Fail(ServeError::Refused(err)),
        },
        ServeEvent::HeaderFailed => ServeStep::Fail(ServeError::HeaderUnread),
        ServeEvent::BodyRead(body) => ServeStep::DecodeRequest(body),
        ServeEvent::BodyFailed => ServeStep::Fail(ServeError::BodyUnread),
        ServeEvent::RequestDecoded(request) => ServeStep::ConnectBackend(request.destination()),
        ServeEvent::DecodingFailed => ServeStep::Fail(ServeError::InvalidRequest),
        ServeEvent::BackendConnected => ServeStep::Relay,
        ServeEvent::BackendFailed(dst) => ServeStep::Fail(ServeError::BackendUnreachable(dst)),
        ServeEvent::RelayEnded => ServeStep::AcceptStream,
        ServeEvent::RelayFailed(err) => ServeStep::Fail(ServeError::Relay(err)),
    }
}

}
