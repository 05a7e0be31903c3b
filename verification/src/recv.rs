//! The receiving side of a WebTransport stream.

use std::task::Waker;

use bytes::Bytes;
use vstd::prelude::*;

use crate::error;
use crate::error::StreamError;
use crate::ez;
use crate::ez::connection::DriverState;
use crate::ez::recv::RecvView;
use crate::proto;
use crate::task::Poll;

verus! {

/// The error code with which a stream is stopped when it is dropped before its end.
pub const DROP_CODE: u32 = 0x44454356;

/// The receiving side of a stream: a QUIC stream with the error codes of WebTransport.
pub struct RecvStream {
    inner: ez::recv::RecvStream,
}

impl View for RecvStream {
    type V = RecvView;

    closed spec fn view(&self) -> RecvView {
        self.inner@
    }
}

/// The outcome of a wait for the end of a stream, with the error codes of WebTransport.
pub open spec fn closed_view(res: Poll<Result<(), ez::stream::StreamError>>) -> Poll<
    Result<(), StreamError>,
> {
    match res {
        Poll::Ready(Ok(_)) => Poll::Ready(Ok(())),
        Poll::Ready(Err(err)) => Poll::Ready(Err(error::stream_error(err))),
        Poll::Pending => Poll::Pending,
    }
}

/// The outcome of a read, with the error codes of WebTransport.
pub open spec fn read_view<T>(res: Poll<Result<Option<T>, ez::stream::StreamError>>) -> Poll<
    Result<Option<T>, StreamError>,
> {
    match res {
        Poll::Ready(Ok(data)) => Poll::Ready(Ok(data)),
        Poll::Ready(Err(err)) => Poll::Ready(Err(error::stream_error(err))),
        Poll::Pending => Poll::Pending,
    }
}

/// What a chunk that was read holds.
pub open spec fn chunk_view(res: Poll<Result<Option<Bytes>, StreamError>>) -> Poll<
    Result<Option<Seq<u8>>, StreamError>,
> {
    match res {
        Poll::Ready(Ok(Some(chunk))) => Poll::Ready(
            Ok(Some(crate::buffer::bytes_of(chunk))),
        ),
        Poll::Ready(Ok(None)) => Poll::Ready(Ok(None)),
        Poll::Ready(Err(err)) => Poll::Ready(Err(err)),
        Poll::Pending => Poll::Pending,
    }
}

impl RecvStream {
    /// A WebTransport stream on the given QUIC stream.
    pub fn new(inner: ez::recv::RecvStream) -> (r: RecvStream)
        ensures
            r@ == inner@,
    {
        RecvStream { inner }
    }

    /// The QUIC stream.
    pub fn inner(&mut self) -> (r: &mut ez::recv::RecvStream)
        ensures
            r@ == old(self)@,
            final(self)@ == final(r)@,
    {
        &mut self.inner
    }

    /// Reads into the slice; see [`ez::recv::RecvStream::read`].
    pub fn read(&mut self, driver: &mut DriverState, waker: Waker, buf: &mut [u8]) -> (r: (
        Poll<Result<Option<usize>, StreamError>>,
        Option<Waker>,
    ))
        requires
            old(self)@.wf(),
            old(self)@.is_idle(),
        ensures
            ({
                let (state, res) = old(self)@.read(waker, old(buf)@.len() as usize);
                &&& final(self)@ == state
                &&& r.0 == read_view(ez::recv::chunk_len(res))
                &&& final(buf)@ == match res {
                    Poll::Ready(Ok(Some(chunk))) => chunk + old(buf)@.skip(chunk.len() as int),
                    _ => old(buf)@,
                }
            }),
            (final(driver)@, r.1) == match r.0 {
                Poll::Ready(_) => (old(driver)@, None),
                Poll::Pending => old(driver)@.recv_woken(old(self)@.id),
            },
            final(self)@.wf(),
            final(self)@.is_idle(),
    {
        let (res, wake) = self.inner.read(driver, waker, buf);
        let res = match res {
            Poll::Ready(Ok(n)) => Poll::Ready(Ok(n)),
            Poll::Ready(Err(err)) => Poll::Ready(Err(StreamError::from(err))),
            Poll::Pending => Poll::Pending,
        };
        (res, wake)
    }

    /// The next chunk; see [`ez::recv::RecvStream::read_chunk`].
    pub fn read_chunk(&mut self, driver: &mut DriverState, waker: Waker, max: usize) -> (r: (
        Poll<Result<Option<Bytes>, StreamError>>,
        Option<Waker>,
    ))
        requires
            old(self)@.wf(),
            old(self)@.is_idle(),
        ensures
            ({
                let (state, res) = old(self)@.read(waker, max);
                &&& final(self)@ == state
                &&& chunk_view(r.0) == read_view(res)
            }),
            (final(driver)@, r.1) == match r.0 {
                Poll::Ready(_) => (old(driver)@, None),
                Poll::Pending => old(driver)@.recv_woken(old(self)@.id),
            },
            final(self)@.wf(),
            final(self)@.is_idle(),
    {
        let (res, wake) = self.inner.read_chunk(driver, waker, max);
        let res = match res {
            Poll::Ready(Ok(chunk)) => Poll::Ready(Ok(chunk)),
            Poll::Ready(Err(err)) => Poll::Ready(Err(StreamError::from(err))),
            Poll::Pending => Poll::Pending,
        };
        (res, wake)
    }

    /// Stops the stream with the given error code.
    pub fn close(&mut self, driver: &mut DriverState, code: u32) -> (r: Option<Waker>)
        ensures
            final(self)@ == (RecvView { stop: Some(proto::to_http3(code)), ..old(self)@ }),
            (final(driver)@, r) == old(driver)@.recv_woken(old(self)@.id),
    {
        self.inner.close(driver, proto::error_to_http3(code))
    }

    /// Whether the stream has ended; see [`ez::recv::RecvStream::closed`].
    pub fn closed(&mut self, waker: Waker) -> (r: Poll<Result<(), StreamError>>)
        ensures
            final(self)@ == old(self)@.closing(waker).0,
            r == closed_view(old(self)@.closing(waker).1),
    {
        match self.inner.closed(waker) {
            Poll::Ready(Ok(_)) => Poll::Ready(Ok(())),
            Poll::Ready(Err(err)) => Poll::Ready(Err(StreamError::from(err))),
            Poll::Pending => Poll::Pending,
        }
    }

    /// Gives the stream up: it is stopped with [`DROP_CODE`], unless it is closed.
    pub fn drop_handle(&mut self, driver: &mut DriverState) -> (r: Option<Waker>)
        ensures
            final(self)@ == if old(self)@.is_closed() {
                old(self)@
            } else {
                RecvView { stop: Some(proto::to_http3(DROP_CODE)), ..old(self)@ }
            },
            (final(driver)@, r) == if old(self)@.is_closed() {
                (old(driver)@, None)
            } else {
                old(driver)@.recv_woken(old(self)@.id)
            },
    {
        if self.inner.is_closed() {
            return None;
        }
        self.close(driver, DROP_CODE)
    }
}

} // verus!
