//! Errors of WebTransport sessions and of their streams.

use vstd::prelude::*;

use crate::ez;
use crate::ez::error::QuicheError;
use crate::proto;

verus! {

/// An error of the operating system, by its text.
#[derive(Debug)]
pub enum IoError {
    /// The host cannot be reached.
    HostUnreachable(String),
    /// Any other error.
    Other(String),
}

impl Clone for IoError {
    fn clone(&self) -> (r: IoError)
        ensures
            r == *self,
    {
        match self {
            IoError::HostUnreachable(text) => IoError::HostUnreachable(text.clone()),
            IoError::Other(text) => IoError::Other(text.clone()),
        }
    }
}

/// An error returned when connecting to a WebTransport endpoint.
#[derive(Debug)]
pub enum ClientError {
    /// The stream ended early.
    UnexpectedEnd,
    /// The QUIC connection failed.
    Quiche(QuicheError),
    /// The name of the host is not valid.
    InvalidDnsName(String),
    /// The operating system failed.
    IoError(IoError),
}

/// An error of a session, split by whether it is one of the QUIC connection or of WebTransport.
#[derive(Debug)]
pub enum SessionError {
    /// The QUIC connection failed.
    Quiche(QuicheError),
    /// The WebTransport protocol was broken.
    WebTransport(WebTransportError),
    /// The HTTP/3 settings were not understood, with the reason.
    Settings(String),
    /// The CONNECT request or response was not understood, with the reason.
    Connect(String),
    /// The session is closed.
    Closed,
    /// The session is not established yet.
    Pending,
    /// The session failed for an unknown reason.
    Unknown,
}

/// An error that can occur when reading or writing the WebTransport stream header.
#[derive(Debug)]
pub enum WebTransportError {
    /// The session was closed, with a code and a reason.
    Closed(u32, String),
    /// The session is not the one of this connection.
    UnknownSession,
    /// The header of the stream is not valid.
    InvalidHeader,
}

/// An error when writing to a stream.
#[derive(Debug)]
pub enum WriteError {
    /// The peer asked to stop, with this code.
    Stopped(u32),
    /// The peer asked to stop, with a code that is not one of WebTransport.
    InvalidStopped,
    /// The session failed.
    SessionError(SessionError),
    /// The stream is closed.
    ClosedStream,
    /// The write would have to wait.
    WouldBlock,
}

/// An error when reading from a stream.
#[derive(Debug)]
pub enum ReadError {
    /// The session failed.
    SessionError(SessionError),
    /// The peer reset the stream, with this code.
    Reset(u32),
    /// The peer reset the stream, with a code that is not one of WebTransport.
    InvalidReset,
    /// The stream is closed.
    ClosedStream,
    /// The read would have to wait.
    WouldBlock,
}

/// An error when reading an exact number of bytes.
#[derive(Debug)]
pub enum ReadExactError {
    /// The stream ended after this many bytes.
    FinishedEarly(usize),
    /// The read failed.
    ReadError(ReadError),
}

/// An error when reading to the end of a stream.
#[derive(Debug)]
pub enum ReadToEndError {
    /// The stream is longer than allowed.
    TooLong,
    /// The read failed.
    ReadError(ReadError),
}

/// An error that says that the stream was already closed.
#[derive(Debug, Clone, Copy)]
pub struct ClosedStream;

/// An error returned when receiving a new WebTransport session.
#[derive(Debug)]
pub enum ServerError {
    /// The stream ended early.
    UnexpectedEnd,
    /// The QUIC connection failed.
    Quiche(QuicheError),
    /// The operating system failed.
    IoError(IoError),
}

/// Why a WebTransport stream refuses to read or write.
#[derive(Debug, Clone, Copy, PartialEq, Eq, Structural)]
pub enum StreamError {
    /// The stream was reset, with this code.
    Reset(u32),
    /// The stream was stopped, with this code.
    Stop(u32),
    /// The stream was reset, with a code that is not one of WebTransport.
    InvalidReset(u64),
    /// The stream was stopped, with a code that is not one of WebTransport.
    InvalidStop(u64),
    /// The stream was finished before.
    Closed,
}

/// The error of a WebTransport stream for one of its QUIC stream.
pub open spec fn stream_error(err: ez::stream::StreamError) -> StreamError {
    match err {
        ez::stream::StreamError::Reset(code) => match proto::from_http3(code) {
            Some(code) => StreamError::Reset(code),
            None => StreamError::InvalidReset(code),
        },
        ez::stream::StreamError::Stop(code) => match proto::from_http3(code) {
            Some(code) => StreamError::Stop(code),
            None => StreamError::InvalidStop(code),
        },
        ez::stream::StreamError::Closed => StreamError::Closed,
    }
}

impl From<ez::stream::StreamError> for StreamError {
    fn from(err: ez::stream::StreamError) -> (r: StreamError) {
        match err {
            ez::stream::StreamError::Reset(code) => match proto::error_from_http3(code) {
                Some(code) => StreamError::Reset(code),
                None => StreamError::InvalidReset(code),
            },
            ez::stream::StreamError::Stop(code) => match proto::error_from_http3(code) {
                Some(code) => StreamError::Stop(code),
                None => StreamError::InvalidStop(code),
            },
            ez::stream::StreamError::Closed => StreamError::Closed,
        }
    }
}

impl vstd::std_specs::convert::FromSpecImpl<ez::stream::StreamError> for StreamError {
    open spec fn obeys_from_spec() -> bool {
        true
    }

    open spec fn from_spec(err: ez::stream::StreamError) -> StreamError {
        stream_error(err)
    }
}

impl From<IoError> for ClientError {
    fn from(err: IoError) -> (r: ClientError) {
        ClientError::IoError(err)
    }
}

impl vstd::std_specs::convert::FromSpecImpl<IoError> for ClientError {
    open spec fn obeys_from_spec() -> bool {
        true
    }

    open spec fn from_spec(err: IoError) -> ClientError {
        ClientError::IoError(err)
    }
}

impl From<IoError> for ServerError {
    fn from(err: IoError) -> (r: ServerError) {
        ServerError::IoError(err)
    }
}

impl vstd::std_specs::convert::FromSpecImpl<IoError> for ServerError {
    open spec fn obeys_from_spec() -> bool {
        true
    }

    open spec fn from_spec(err: IoError) -> ServerError {
        ServerError::IoError(err)
    }
}

impl From<QuicheError> for ClientError {
    fn from(err: QuicheError) -> (r: ClientError) {
        ClientError::Quiche(err)
    }
}

impl vstd::std_specs::convert::FromSpecImpl<QuicheError> for ClientError {
    open spec fn obeys_from_spec() -> bool {
        true
    }

    open spec fn from_spec(err: QuicheError) -> ClientError {
        ClientError::Quiche(err)
    }
}

impl From<QuicheError> for ServerError {
    fn from(err: QuicheError) -> (r: ServerError) {
        ServerError::Quiche(err)
    }
}

impl vstd::std_specs::convert::FromSpecImpl<QuicheError> for ServerError {
    open spec fn obeys_from_spec() -> bool {
        true
    }

    open spec fn from_spec(err: QuicheError) -> ServerError {
        ServerError::Quiche(err)
    }
}

impl From<QuicheError> for SessionError {
    fn from(err: QuicheError) -> (r: SessionError) {
        SessionError::Quiche(err)
    }
}

impl vstd::std_specs::convert::FromSpecImpl<QuicheError> for SessionError {
    open spec fn obeys_from_spec() -> bool {
        true
    }

    open spec fn from_spec(err: QuicheError) -> SessionError {
        SessionError::Quiche(err)
    }
}

impl From<WebTransportError> for SessionError {
    fn from(err: WebTransportError) -> (r: SessionError) {
        SessionError::WebTransport(err)
    }
}

impl vstd::std_specs::convert::FromSpecImpl<WebTransportError> for SessionError {
    open spec fn obeys_from_spec() -> bool {
        true
    }

    open spec fn from_spec(err: WebTransportError) -> SessionError {
        SessionError::WebTransport(err)
    }
}

/// The code with which a stream was closed reaches the peer as it was given, whichever side broke
/// the stream off.
pub proof fn close_code_survives(code: u32)
    ensures
        stream_error(ez::stream::StreamError::Reset(proto::to_http3(code))) == StreamError::Reset(
            code,
        ),
        stream_error(ez::stream::StreamError::Stop(proto::to_http3(code))) == StreamError::Stop(
            code,
        ),
{
    proto::error_code_survives(code);
}

} // verus!
