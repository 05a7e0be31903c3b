//! The CONNECT request that opens a session.

use url::Url;
use vstd::prelude::*;

use crate::ez::error::ConnectionError;
use crate::ez::stream::{StreamError, StreamId};
use crate::proto;

verus! {

/// The status of a request that was accepted.
pub const STATUS_OK: u16 = 200;

/// An error of the exchange of a CONNECT request and its response.
#[derive(Debug)]
pub enum ConnectError {
    /// The stream was closed early.
    UnexpectedEnd,
    /// The request or the response was not understood, with the reason.
    Proto(String),
    /// The connection ended.
    Connection(ConnectionError),
    /// The stream failed.
    Stream(StreamError),
    /// The request was refused, with this status.
    Status(u16),
}

/// A CONNECT request that was exchanged. Its stream, of which the two sides are held here, is not
/// closed before this is dropped.
pub struct Connect<S, R> {
    url: Url,
    stream_id: StreamId,
    send: S,
    recv: R,
}

impl<S, R> Connect<S, R> {
    /// The address in the request.
    pub closed spec fn address(self) -> Url {
        self.url
    }

    /// The stream of the request.
    pub closed spec fn stream(self) -> StreamId {
        self.stream_id
    }

    /// The two sides of the stream.
    pub closed spec fn sides(self) -> (S, R) {
        (self.send, self.recv)
    }

    /// The server received a request on the given stream.
    pub fn accept(url: Url, stream_id: StreamId, send: S, recv: R) -> (r: Connect<S, R>)
        ensures
            r.address() == url,
            r.stream() == stream_id,
            r.sides() == (send, recv),
    {
        Connect { url, stream_id, send, recv }
    }

    /// The client sent a request on the given stream and received a response with the given
    /// status. Any status but [`STATUS_OK`] is an error.
    pub fn open(url: Url, stream_id: StreamId, send: S, recv: R, status: u16) -> (r: Result<
        Connect<S, R>,
        ConnectError,
    >)
        ensures
            match r {
                Ok(connect) => {
                    &&& status == STATUS_OK
                    &&& connect.address() == url
                    &&& connect.stream() == stream_id
                    &&& connect.sides() == (send, recv)
                },
                Err(err) => status != STATUS_OK && err == ConnectError::Status(status),
            },
    {
        if status != STATUS_OK {
            return Err(ConnectError::Status(status));
        }
        Ok(Connect { url, stream_id, send, recv })
    }

    /// The bytes with which the server responds to a request.
    pub fn respond(&self, status: u16) -> (r: Vec<u8>)
        requires
            100 <= status <= 999,
        ensures
            r@ == proto::connect_response(status),
    {
        let mut buf: Vec<u8> = Vec::new();
        proto::connect_response_encode(status, &mut buf);
        assert(buf@ =~= proto::connect_response(status));
        buf
    }

    /// The identifier of the session, which is that of the stream.
    pub fn session_id(&self) -> (r: u64)
        requires
            self.stream().0 < proto::VARINT_LIMIT,
        ensures
            r == self.stream().0,
            r < proto::VARINT_LIMIT,
    {
        self.stream_id.0
    }

    /// The address in the request.
    pub fn url(&self) -> (r: &Url)
        ensures
            *r == self.address(),
    {
        &self.url
    }

    /// The sending side of the stream, on which the server responds.
    pub fn send(&mut self) -> (r: &mut S)
        ensures
            *r == old(self).sides().0,
            final(self).sides() == (*final(r), old(self).sides().1),
            final(self).address() == old(self).address(),
            final(self).stream() == old(self).stream(),
    {
        &mut self.send
    }

    /// The two sides of the stream.
    pub fn into_inner(self) -> (r: (S, R))
        ensures
            r == self.sides(),
    {
        (self.send, self.recv)
    }
}

} // verus!
