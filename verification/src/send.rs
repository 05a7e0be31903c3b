//! The sending side of a WebTransport stream.

use std::task::Waker;

use bytes::Bytes;
use vstd::prelude::*;

use crate::buffer;
use crate::error::{SessionError, WebTransportError};
use crate::ez;
use crate::ez::connection::DriverState;
use crate::ez::error::ConnectionError;
use crate::ez::send::SendView;
use crate::proto;
use crate::task::Poll;

verus! {

/// An error when writing to a stream.
#[derive(Debug)]
pub enum SendError {
    /// The session failed.
    Session(SessionError),
    /// The peer asked to stop, with this code.
    Stop(u32),
    /// The peer asked to stop, with a code that is not one of WebTransport.
    InvalidStop(u64),
}

/// The error of a session for the end of its connection: a close with an error code of WebTransport
/// closes the session with that code.
pub open spec fn session_error(err: ConnectionError) -> SessionError {
    match err {
        ConnectionError::Quiche(e) => SessionError::Quiche(e),
        ConnectionError::Remote(code, reason) | ConnectionError::Local(code, reason) => {
            match proto::from_http3(code) {
                Some(code) => SessionError::WebTransport(WebTransportError::Closed(code, reason)),
                None => SessionError::Closed,
            }
        },
        ConnectionError::Dropped => SessionError::Closed,
        ConnectionError::Unknown(_) => SessionError::Unknown,
    }
}

fn closed_with(code: u64, reason: String) -> (r: SessionError)
    ensures
        r == match proto::from_http3(code) {
            Some(code) => SessionError::WebTransport(WebTransportError::Closed(code, reason)),
            None => SessionError::Closed,
        },
{
    match proto::error_from_http3(code) {
        Some(code) => SessionError::WebTransport(WebTransportError::Closed(code, reason)),
        None => SessionError::Closed,
    }
}

impl From<ConnectionError> for SessionError {
    fn from(err: ConnectionError) -> (r: SessionError) {
        match err {
            ConnectionError::Quiche(e) => SessionError::Quiche(e),
            ConnectionError::Remote(code, reason) => closed_with(code, reason),
            ConnectionError::Local(code, reason) => closed_with(code, reason),
            ConnectionError::Dropped => SessionError::Closed,
            ConnectionError::Unknown(_) => SessionError::Unknown,
        }
    }
}

impl vstd::std_specs::convert::FromSpecImpl<ConnectionError> for SessionError {
    open spec fn obeys_from_spec() -> bool {
        true
    }

    open spec fn from_spec(err: ConnectionError) -> SessionError {
        session_error(err)
    }
}

/// The error of a WebTransport stream for one of its QUIC stream.
pub open spec fn send_error(err: ez::error::SendError) -> SendError {
    match err {
        ez::error::SendError::Stop(code) => match proto::from_http3(code) {
            Some(code) => SendError::Stop(code),
            None => SendError::InvalidStop(code),
        },
        ez::error::SendError::Connection(err) => SendError::Session(session_error(err)),
    }
}

impl From<ez::error::SendError> for SendError {
    fn from(err: ez::error::SendError) -> (r: SendError) {
        match err {
            ez::error::SendError::Stop(code) => match proto::error_from_http3(code) {
                Some(code) => SendError::Stop(code),
                None => SendError::InvalidStop(code),
            },
            ez::error::SendError::Connection(err) => SendError::Session(SessionError::from(err)),
        }
    }
}

impl vstd::std_specs::convert::FromSpecImpl<ez::error::SendError> for SendError {
    open spec fn obeys_from_spec() -> bool {
        true
    }

    open spec fn from_spec(err: ez::error::SendError) -> SendError {
        send_error(err)
    }
}

/// The error of a write for why its QUIC stream refuses it: a stream that this side closed belongs
/// to a session that is closed.
pub open spec fn write_error(err: ez::stream::StreamError) -> SendError {
    match err {
        ez::stream::StreamError::Stop(code) => send_error(ez::error::SendError::Stop(code)),
        ez::stream::StreamError::Reset(_) => SendError::Session(SessionError::Closed),
        ez::stream::StreamError::Closed => SendError::Session(SessionError::Closed),
    }
}

fn refused(err: ez::stream::StreamError) -> (r: SendError)
    ensures
        r == write_error(err),
{
    match err {
        ez::stream::StreamError::Stop(code) => SendError::from(ez::error::SendError::Stop(code)),
        ez::stream::StreamError::Reset(_) => SendError::Session(SessionError::Closed),
        ez::stream::StreamError::Closed => SendError::Session(SessionError::Closed),
    }
}

/// The outcome of a write, with the error codes of WebTransport.
pub open spec fn write_view(res: Poll<Result<usize, ez::stream::StreamError>>) -> Poll<
    Result<usize, SendError>,
> {
    match res {
        Poll::Ready(Ok(n)) => Poll::Ready(Ok(n)),
        Poll::Ready(Err(err)) => Poll::Ready(Err(write_error(err))),
        Poll::Pending => Poll::Pending,
    }
}

fn write_outcome(res: Poll<Result<usize, ez::stream::StreamError>>) -> (r: Poll<
    Result<usize, SendError>,
>)
    ensures
        r == write_view(res),
{
    match res {
        Poll::Ready(Ok(n)) => Poll::Ready(Ok(n)),
        Poll::Ready(Err(err)) => Poll::Ready(Err(refused(err))),
        Poll::Pending => Poll::Pending,
    }
}

/// The sending side of a stream: a QUIC stream with the error codes of WebTransport. It is open
/// until it is finished or reset.
pub struct SendStream {
    inner: ez::send::SendStream,
    open: bool,
}

impl View for SendStream {
    type V = SendView;

    closed spec fn view(&self) -> SendView {
        self.inner@
    }
}

impl SendStream {
    /// Whether the stream was neither finished nor reset.
    pub closed spec fn is_open(self) -> bool {
        self.open
    }

    /// A WebTransport stream on the given QUIC stream.
    pub fn new(inner: ez::send::SendStream) -> (r: SendStream)
        ensures
            r@ == inner@,
            r.is_open(),
    {
        SendStream { inner, open: true }
    }

    /// The QUIC stream.
    pub fn inner(&mut self) -> (r: &mut ez::send::SendStream)
        ensures
            r@ == old(self)@,
            final(self)@ == final(r)@,
            final(self).is_open() == old(self).is_open(),
    {
        &mut self.inner
    }

    /// Writes some of the slice; see [`ez::send::SendStream::write`].
    pub fn write(&mut self, driver: &mut DriverState, waker: Waker, buf: &[u8]) -> (r: (
        Poll<Result<usize, SendError>>,
        Option<Waker>,
    ))
        requires
            old(self).is_open(),
        ensures
            final(self).is_open(),
            final(self)@ == old(self)@.written(waker, buf@).0,
            r.0 == write_view(old(self)@.written(waker, buf@).1),
            (final(driver)@, r.1) == match r.0 {
                Poll::Ready(_) => old(driver)@.send_woken(old(self)@.id),
                Poll::Pending => (old(driver)@, None),
            },
    {
        let (res, wake) = self.inner.write(driver, waker, buf);
        (write_outcome(res), wake)
    }

    /// Writes some of the buffer; see [`ez::send::SendStream::write_buf`].
    pub fn write_buf(&mut self, driver: &mut DriverState, waker: Waker, buf: &mut Bytes) -> (r: (
        Poll<Result<usize, SendError>>,
        Option<Waker>,
    ))
        requires
            old(self).is_open(),
        ensures
            final(self).is_open(),
            final(self)@ == old(self)@.written(waker, buffer::bytes_of(*old(buf))).0,
            r.0 == write_view(old(self)@.written(waker, buffer::bytes_of(*old(buf))).1),
            buffer::bytes_of(*final(buf)) == match r.0 {
                Poll::Ready(Ok(n)) => buffer::bytes_of(*old(buf)).skip(n as int),
                _ => buffer::bytes_of(*old(buf)),
            },
            (final(driver)@, r.1) == match r.0 {
                Poll::Ready(_) => old(driver)@.send_woken(old(self)@.id),
                Poll::Pending => (old(driver)@, None),
            },
    {
        let (res, wake) = self.inner.write_buf(driver, waker, buf);
        (write_outcome(res), wake)
    }

    /// Finishes the stream: what was written is still sent. A stream that the peer asked to stop
    /// stays as it is.
    pub fn finish(&mut self, driver: &mut DriverState) -> (r: Option<Waker>)
        requires
            old(self).is_open(),
        ensures
            !final(self).is_open(),
            final(self)@ == old(self)@.finished().0,
            (final(driver)@, r) == match old(self)@.finished().1 {
                Ok(_) => old(driver)@.send_woken(old(self)@.id),
                Err(_) => (old(driver)@, None),
            },
    {
        self.open = false;
        match self.inner.finish(driver) {
            Ok(wake) => wake,
            Err(_) => None,
        }
    }

    /// Resets the stream with the given error code: what was not sent yet is dropped.
    pub fn reset(&mut self, driver: &mut DriverState, code: u32) -> (r: Option<Waker>)
        requires
            old(self).is_open(),
        ensures
            !final(self).is_open(),
            final(self)@ == (SendView { reset: Some(proto::to_http3(code)), ..old(self)@ }),
            (final(driver)@, r) == old(driver)@.send_woken(old(self)@.id),
    {
        self.open = false;
        self.inner.close(driver, proto::error_to_http3(code))
    }

    /// Gives the stream up: it is finished, unless it was finished or reset before.
    pub fn drop_handle(&mut self, driver: &mut DriverState) -> (r: Option<Waker>)
        ensures
            !final(self).is_open(),
            final(self)@ == if old(self).is_open() {
                old(self)@.finished().0
            } else {
                old(self)@
            },
            (final(driver)@, r) == if old(self).is_open() && old(self)@.finished().1 is Ok {
                old(driver)@.send_woken(old(self)@.id)
            } else {
                (old(driver)@, None)
            },
    {
        if !self.open {
            return None;
        }
        self.finish(driver)
    }
}

} // verus!
