//! The requests and responses of the plugin.

use bytes::Bytes;
use vstd::prelude::*;

verus! {

/// How the sender reacts to congestion.
#[derive(Clone, Copy, Debug, PartialEq, Eq, Structural)]
pub enum CongestionControl {
    Default,
    LowLatency,
    Throughput,
}

/// Connects to a server.
#[derive(Debug)]
pub struct ConnectRequest {
    pub url: url::Url,
    pub congestion_control: Option<CongestionControl>,
    /// SHA-256 hashes of the certificates to accept, in hexadecimal.
    pub server_certificate_hashes: Option<Vec<String>>,
}

/// The session that was made.
#[derive(Clone, Copy, Debug, PartialEq, Eq, Structural)]
pub struct ConnectResponse {
    pub session: usize,
}

impl Default for ConnectResponse {
    fn default() -> (r: ConnectResponse)
        ensures
            r.session == 0,
    {
        ConnectResponse { session: 0 }
    }
}

/// Closes a session.
#[derive(Debug)]
pub struct CloseRequest {
    pub session: usize,
    pub code: u32,
    pub reason: Option<String>,
}

/// The session was closed.
#[derive(Clone, Copy, Debug, PartialEq, Eq, Structural)]
pub struct CloseResponse {}

impl Default for CloseResponse {
    fn default() -> (r: CloseResponse)
        ensures
            r == (CloseResponse {}),
    {
        CloseResponse {}
    }
}

/// Waits until a session is closed.
#[derive(Clone, Copy, Debug, PartialEq, Eq, Structural)]
pub struct ClosedRequest {
    pub session: usize,
}

/// The session is closed.
#[derive(Clone, Copy, Debug, PartialEq, Eq, Structural)]
pub struct ClosedResponse {}

/// Accepts a stream that the peer opens.
#[derive(Clone, Copy, Debug, PartialEq, Eq, Structural)]
pub struct AcceptRequest {
    pub session: usize,
    pub bidirectional: bool,
}

/// The stream that was accepted.
#[derive(Clone, Copy, Debug, PartialEq, Eq, Structural)]
pub struct AcceptResponse {
    pub stream: usize,
}

/// Opens a stream.
#[derive(Clone, Copy, Debug, PartialEq, Eq, Structural)]
pub struct OpenRequest {
    pub session: usize,
    pub bidirectional: bool,
    pub send_order: Option<i32>,
}

/// The stream that was opened.
#[derive(Clone, Copy, Debug, PartialEq, Eq, Structural)]
pub struct OpenResponse {
    pub stream: usize,
}

impl Default for OpenResponse {
    fn default() -> (r: OpenResponse)
        ensures
            r.stream == 0,
    {
        OpenResponse { stream: 0 }
    }
}

/// Reads from a stream.
#[derive(Clone, Copy, Debug, PartialEq, Eq, Structural)]
pub struct ReadRequest {
    pub session: usize,
    pub stream: usize,
}

/// What was read.
#[derive(Debug)]
pub struct ReadResponse {
    /// Without data the stream is closed.
    pub data: Option<Bytes>,
}

/// Writes to a stream.
#[derive(Debug)]
pub struct WriteRequest {
    pub session: usize,
    pub stream: usize,
    pub data: Bytes,
}

/// The data was written.
#[derive(Clone, Copy, Debug, PartialEq, Eq, Structural)]
pub struct WriteResponse {}

/// Finishes a stream.
#[derive(Clone, Copy, Debug, PartialEq, Eq, Structural)]
pub struct FinishRequest {
    pub session: usize,
    pub stream: usize,
}

/// The stream was finished.
#[derive(Clone, Copy, Debug, PartialEq, Eq, Structural)]
pub struct FinishResponse {}

/// Resets a stream.
#[derive(Clone, Copy, Debug, PartialEq, Eq, Structural)]
pub struct ResetRequest {
    pub session: usize,
    pub stream: usize,
    pub code: u32,
}

/// The stream was reset.
#[derive(Clone, Copy, Debug, PartialEq, Eq, Structural)]
pub struct ResetResponse {}

} // verus!
