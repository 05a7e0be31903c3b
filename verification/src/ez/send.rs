//! The sending side of a stream.

use std::collections::VecDeque;
use std::task::Waker;

use bytes::Bytes;
use vstd::prelude::*;

use super::connection::DriverState;
use super::error::QuicheError;
use super::stream::{StreamError, StreamId};
use crate::buffer;
use crate::task::Poll;

verus! {

/// The code of the RESET_STREAM that a stream gets when it is dropped without being finished or
/// closed.
pub const DROP_CODE: u64 = 0x656E646464726F70;

/// The state of the sending side of a stream, which its handle shares with the driver.
pub struct SendState {
    id: StreamId,
    // The amount of data that is allowed to be written.
    capacity: usize,
    // Data ready to send; it has been subtracted from the capacity.
    queued: VecDeque<Bytes>,
    // The chunk that was handed to the connection and has not been answered yet.
    sending: Option<Bytes>,
    // Called by the driver when the stream is writable again.
    blocked: Option<Waker>,
    // Whether to send a FIN.
    fin: bool,
    // The code of the RESET_STREAM to send.
    reset: Option<u64>,
    // The code of the STOP_SENDING that was received.
    stop: Option<u64>,
    // The priority to set.
    priority: Option<u8>,
}

/// What a [`SendState`] holds.
#[verifier::ext_equal]
pub ghost struct SendView {
    pub id: StreamId,
    /// How many bytes may still be written.
    pub capacity: usize,
    /// The chunks that were written and wait to be sent, the next one first.
    pub queued: Seq<Seq<u8>>,
    /// The chunk that was handed to the connection and has not been answered yet.
    pub sending: Option<Seq<u8>>,
    /// The task to wake once the stream changes.
    pub blocked: Option<Waker>,
    /// Whether the stream was finished.
    pub fin: bool,
    /// The code with which the stream was reset.
    pub reset: Option<u64>,
    /// The code with which the peer asked to stop.
    pub stop: Option<u64>,
    /// The priority that is still to be set.
    pub priority: Option<u8>,
}

/// What the driver tells a stream that it flushes.
pub enum SendEvent {
    /// The flush begins.
    Start,
    /// The answer to [`SendAction::Shutdown`].
    Shutdown(Result<(), QuicheError>),
    /// The answer to [`SendAction::Prioritize`].
    Prioritized(Result<(), QuicheError>),
    /// The answer to [`SendAction::Send`]: how many bytes were accepted.
    Sent(Result<usize, QuicheError>),
    /// The answer to [`SendAction::Register`].
    Registered(Result<bool, QuicheError>),
    /// The answer to [`SendAction::Finish`].
    Finished(Result<usize, QuicheError>),
    /// The answer to [`SendAction::Capacity`]: how many bytes the connection would accept.
    Capacity(Result<usize, QuicheError>),
}

/// What a stream that is being flushed asks of the driver.
pub enum SendAction {
    /// Shut the stream down for writing, with this code.
    Shutdown(u64),
    /// Set the priority of the stream, as incremental.
    Prioritize(u8),
    /// Send the chunk of [`SendState::in_flight`], without a FIN.
    Send,
    /// Ask to be told when at least one byte can be sent.
    Register,
    /// Send a FIN without data.
    Finish,
    /// Ask how many bytes can be sent.
    Capacity,
    /// The flush is over: wake whoever is given, or fail.
    Return(Result<Option<Waker>, QuicheError>),
}

impl SendView {
    /// The sending side of a new stream.
    pub open spec fn new(id: StreamId) -> SendView {
        SendView {
            id,
            capacity: 0,
            queued: Seq::empty(),
            sending: None,
            blocked: None,
            fin: false,
            reset: None,
            stop: None,
            priority: None,
        }
    }

    /// Why nothing can be written, if so.
    pub open spec fn refusal(self) -> Option<StreamError> {
        match (self.reset, self.stop) {
            (Some(code), _) => Some(StreamError::Reset(code)),
            (None, Some(code)) => Some(StreamError::Stop(code)),
            (None, None) => if self.fin {
                Some(StreamError::Closed)
            } else {
                None
            },
        }
    }

    /// Whether the stream is closed by either side.
    pub open spec fn is_closed(self) -> bool {
        self.refusal() is Some
    }

    /// The bytes that were written and that the connection has not accepted, in order.
    pub open spec fn pending(self) -> Seq<u8> {
        match self.sending {
            Some(chunk) => chunk + self.queued.flatten(),
            None => self.queued.flatten(),
        }
    }

    /// Makes room for up to `remaining` bytes: the stream afterwards, and how many may be written.
    pub open spec fn reserved(self, waker: Waker, remaining: nat) -> (SendView, Poll<
        Result<usize, StreamError>,
    >) {
        match self.refusal() {
            Some(err) => (self, Poll::Ready(Err(err))),
            None => if self.capacity == 0 {
                (SendView { blocked: Some(waker), ..self }, Poll::Pending)
            } else {
                let n = vstd::math::min(self.capacity as int, remaining as int);
                (
                    SendView { capacity: (self.capacity - n) as usize, ..self },
                    Poll::Ready(Ok(n as usize)),
                )
            },
        }
    }

    /// Writes as much of `data` as there is room for: the stream afterwards, and the outcome.
    pub open spec fn written(self, waker: Waker, data: Seq<u8>) -> (SendView, Poll<
        Result<usize, StreamError>,
    >) {
        let (state, res) = self.reserved(waker, data.len());
        match res {
            Poll::Ready(Ok(n)) => (
                SendView { queued: state.queued.push(data.take(n as int)), ..state },
                res,
            ),
            _ => (state, res),
        }
    }

    /// Waits for the end of the stream: the stream afterwards, and the outcome.
    pub open spec fn closing(self, waker: Waker) -> (SendView, Poll<Result<(), StreamError>>) {
        match (self.reset, self.stop) {
            (Some(code), _) => (self, Poll::Ready(Err(StreamError::Reset(code)))),
            (None, Some(code)) => (self, Poll::Ready(Err(StreamError::Stop(code)))),
            (None, None) => if self.fin && self.queued.len() == 0 {
                (self, Poll::Ready(Ok(())))
            } else {
                (SendView { blocked: Some(waker), ..self }, Poll::Pending)
            },
        }
    }

    /// The flush ends by waking whoever waits.
    pub open spec fn woken(self) -> (SendView, SendAction) {
        (SendView { blocked: None, ..self }, SendAction::Return(Ok(self.blocked)))
    }

    /// The flush ends with an error.
    pub open spec fn failed(self, err: QuicheError) -> (SendView, SendAction) {
        (self, SendAction::Return(Err(err)))
    }

    /// The flush goes on once no further chunk is to be sent: a FIN follows the last byte.
    pub open spec fn drained(self) -> (SendView, SendAction) {
        if self.queued.len() == 0 && self.fin {
            (self, SendAction::Finish)
        } else {
            (self, SendAction::Capacity)
        }
    }

    /// The flush goes on with the next chunk, if there is one.
    pub open spec fn advanced(self) -> (SendView, SendAction) {
        if self.queued.len() > 0 {
            (
                SendView {
                    sending: Some(self.queued.first()),
                    queued: self.queued.drop_first(),
                    ..self
                },
                SendAction::Send,
            )
        } else {
            self.drained()
        }
    }

    /// The flush goes on after the first `n` bytes of the chunk on its way were accepted: what is
    /// left of it stays first in line.
    pub open spec fn accepted(self, n: nat) -> (SendView, SendAction) {
        let idle = SendView { sending: None, ..self };
        match self.sending {
            Some(chunk) if n < chunk.len() => (
                SendView { queued: seq![chunk.skip(n as int)] + self.queued, ..idle },
                SendAction::Register,
            ),
            _ => idle.advanced(),
        }
    }

    /// The peer asked to stop.
    pub open spec fn stopped(self, code: u64) -> (SendView, SendAction) {
        SendView { sending: None, stop: Some(code), ..self }.woken()
    }

    /// One step of a flush: the stream afterwards, and what is asked of the driver.
    pub open spec fn flushed(self, event: SendEvent) -> (SendView, SendAction) {
        match event {
            SendEvent::Start => match self.reset {
                Some(code) => (self, SendAction::Shutdown(code)),
                None => if self.stop is Some {
                    self.woken()
                } else {
                    match self.priority {
                        Some(p) => (
                            SendView { priority: None, ..self },
                            SendAction::Prioritize(p),
                        ),
                        None => self.advanced(),
                    }
                },
            },
            SendEvent::Shutdown(Ok(_)) => self.woken(),
            SendEvent::Shutdown(Err(err)) => self.failed(err),
            SendEvent::Prioritized(Ok(_)) => self.advanced(),
            SendEvent::Prioritized(Err(err)) => self.failed(err),
            SendEvent::Sent(Ok(n)) => self.accepted(n as nat),
            SendEvent::Sent(Err(QuicheError::Done)) => self.accepted(0),
            SendEvent::Sent(Err(QuicheError::StreamStopped(code))) => self.stopped(code),
            SendEvent::Sent(Err(err)) => SendView { sending: None, ..self }.failed(err),
            SendEvent::Registered(Ok(_)) => self.drained(),
            SendEvent::Registered(Err(err)) => self.failed(err),
            SendEvent::Finished(Ok(_)) => self.woken(),
            SendEvent::Finished(Err(err)) => self.failed(err),
            SendEvent::Capacity(Ok(capacity)) => {
                let state = SendView { capacity, ..self };
                if capacity > 0 {
                    state.woken()
                } else {
                    (state, SendAction::Return(Ok(None)))
                }
            },
            SendEvent::Capacity(Err(QuicheError::StreamStopped(code))) => self.stopped(code),
            SendEvent::Capacity(Err(err)) => self.failed(err),
        }
    }
}

impl View for SendState {
    type V = SendView;

    closed spec fn view(&self) -> SendView {
        SendView {
            id: self.id,
            capacity: self.capacity,
            queued: buffer::chunks_of(self.queued@),
            sending: match self.sending {
                Some(chunk) => Some(buffer::bytes_of(chunk)),
                None => None,
            },
            blocked: self.blocked,
            fin: self.fin,
            reset: self.reset,
            stop: self.stop,
            priority: self.priority,
        }
    }
}

impl SendState {
    /// The sending side of a new stream, which has no capacity yet.
    pub fn new(id: StreamId) -> (r: SendState)
        ensures
            r@ == SendView::new(id),
    {
        SendState {
            id,
            capacity: 0,
            queued: VecDeque::new(),
            sending: None,
            blocked: None,
            fin: false,
            reset: None,
            stop: None,
            priority: None,
        }
    }

    /// The identifier of the stream.
    pub fn id(&self) -> (r: StreamId)
        ensures
            r == self@.id,
    {
        self.id
    }

    /// Why nothing can be written, if so.
    fn refusal(&self) -> (r: Option<StreamError>)
        ensures
            r == self@.refusal(),
    {
        if let Some(code) = self.reset {
            return Some(StreamError::Reset(code));
        }
        if let Some(code) = self.stop {
            return Some(StreamError::Stop(code));
        }
        if self.fin {
            return Some(StreamError::Closed);
        }
        None
    }

    /// Takes room for up to `remaining` bytes off the capacity, and returns how many there is room
    /// for; the caller then hands them to [`SendState::enqueue`]. Without capacity the waker is
    /// kept until there is some.
    pub fn poll_reserve(&mut self, waker: Waker, remaining: usize) -> (r: Poll<
        Result<usize, StreamError>,
    >)
        ensures
            (final(self)@, r) == old(self)@.reserved(waker, remaining as nat),
    {
        if let Some(err) = self.refusal() {
            return Poll::Ready(Err(err));
        }
        if self.capacity == 0 {
            self.blocked = Some(waker);
            return Poll::Pending;
        }
        let n: usize = if self.capacity < remaining {
            self.capacity
        } else {
            remaining
        };
        self.capacity = self.capacity - n;
        Poll::Ready(Ok(n))
    }

    /// Puts a chunk at the end of the queue.
    pub fn enqueue(&mut self, chunk: Bytes)
        ensures
            final(self)@ == (SendView {
                queued: old(self)@.queued.push(buffer::bytes_of(chunk)),
                ..old(self)@
            }),
    {
        self.queued.push_back(chunk);
        assert(self@ =~= (SendView {
            queued: old(self)@.queued.push(buffer::bytes_of(chunk)),
            ..old(self)@
        }));
    }

    /// Writes some of the buffer to the stream and takes what was written off the buffer. Returns
    /// the number of bytes written.
    pub fn poll_write_buf(&mut self, waker: Waker, buf: &mut Bytes) -> (r: Poll<
        Result<usize, StreamError>,
    >)
        ensures
            (final(self)@, r) == old(self)@.written(waker, buffer::bytes_of(*old(buf))),
            buffer::bytes_of(*final(buf)) == match r {
                Poll::Ready(Ok(n)) => buffer::bytes_of(*old(buf)).skip(n as int),
                _ => buffer::bytes_of(*old(buf)),
            },
    {
        let res = self.poll_reserve(waker, buffer::bytes_len(buf));
        if let Poll::Ready(Ok(n)) = res {
            let chunk = buffer::bytes_copy_to(buf, n);
            self.enqueue(chunk);
        }
        res
    }

    /// Writes some of the slice to the stream. Returns the number of bytes written.
    pub fn poll_write(&mut self, waker: Waker, buf: &[u8]) -> (r: Poll<Result<usize, StreamError>>)
        ensures
            (final(self)@, r) == old(self)@.written(waker, buf@),
    {
        let res = self.poll_reserve(waker, buf.len());
        if let Poll::Ready(Ok(n)) = res {
            let chunk = buffer::bytes_copy_from(vstd::slice::slice_subrange(buf, 0, n));
            assert(buf@.subrange(0, n as int) =~= buf@.take(n as int));
            self.enqueue(chunk);
        }
        res
    }

    /// Whether the stream has ended: with an error if either side broke it off, without one once
    /// it was finished and everything was handed to the connection. Until then the waker is kept.
    pub fn poll_closed(&mut self, waker: Waker) -> (r: Poll<Result<(), StreamError>>)
        ensures
            (final(self)@, r) == old(self)@.closing(waker),
    {
        if let Some(code) = self.reset {
            return Poll::Ready(Err(StreamError::Reset(code)));
        }
        if let Some(code) = self.stop {
            return Poll::Ready(Err(StreamError::Stop(code)));
        }
        if self.fin && self.queued.len() == 0 {
            return Poll::Ready(Ok(()));
        }
        self.blocked = Some(waker);
        Poll::Pending
    }

    /// The chunk that [`SendAction::Send`] sends.
    pub fn in_flight(&self) -> (r: Option<&Bytes>)
        ensures
            self@.sending == match r {
                Some(chunk) => Some(buffer::bytes_of(*chunk)),
                None => None,
            },
    {
        match &self.sending {
            Some(chunk) => Some(chunk),
            None => None,
        }
    }

    /// One step of a flush. The driver starts with [`SendEvent::Start`], performs what is returned
    /// and hands back the answer, until [`SendAction::Return`].
    pub fn flush(&mut self, event: SendEvent) -> (r: SendAction)
        ensures
            (final(self)@, r) == old(self)@.flushed(event),
    {
        match event {
            SendEvent::Start => {
                if let Some(code) = self.reset {
                    return SendAction::Shutdown(code);
                }
                if self.stop.is_some() {
                    return self.wake();
                }
                if let Some(priority) = self.priority.take() {
                    return SendAction::Prioritize(priority);
                }
                self.advance()
            },
            SendEvent::Shutdown(Ok(_)) => self.wake(),
            SendEvent::Shutdown(Err(err)) => SendAction::Return(Err(err)),
            SendEvent::Prioritized(Ok(_)) => self.advance(),
            SendEvent::Prioritized(Err(err)) => SendAction::Return(Err(err)),
            SendEvent::Sent(Ok(n)) => self.accept(n),
            SendEvent::Sent(Err(QuicheError::Done)) => self.accept(0),
            SendEvent::Sent(Err(QuicheError::StreamStopped(code))) => self.stopped(code),
            SendEvent::Sent(Err(err)) => {
                self.sending = None;
                SendAction::Return(Err(err))
            },
            SendEvent::Registered(Ok(_)) => self.drained(),
            SendEvent::Registered(Err(err)) => SendAction::Return(Err(err)),
            SendEvent::Finished(Ok(_)) => self.wake(),
            SendEvent::Finished(Err(err)) => SendAction::Return(Err(err)),
            SendEvent::Capacity(Ok(capacity)) => {
                self.capacity = capacity;
                if capacity > 0 {
                    return self.wake();
                }
                // No write capacity available, so don't wake up the application.
                SendAction::Return(Ok(None))
            },
            SendEvent::Capacity(Err(QuicheError::StreamStopped(code))) => self.stopped(code),
            SendEvent::Capacity(Err(err)) => SendAction::Return(Err(err)),
        }
    }

    fn wake(&mut self) -> (r: SendAction)
        ensures
            (final(self)@, r) == old(self)@.woken(),
    {
        SendAction::Return(Ok(self.blocked.take()))
    }

    fn stopped(&mut self, code: u64) -> (r: SendAction)
        ensures
            (final(self)@, r) == old(self)@.stopped(code),
    {
        self.sending = None;
        self.stop = Some(code);
        self.wake()
    }

    fn drained(&mut self) -> (r: SendAction)
        ensures
            (final(self)@, r) == old(self)@.drained(),
    {
        if self.queued.len() == 0 && self.fin {
            SendAction::Finish
        } else {
            SendAction::Capacity
        }
    }

    fn advance(&mut self) -> (r: SendAction)
        ensures
            (final(self)@, r) == old(self)@.advanced(),
    {
        match self.queued.pop_front() {
            Some(chunk) => {
                self.sending = Some(chunk);
                assert(self@ =~= old(self)@.advanced().0);
                SendAction::Send
            },
            None => self.drained(),
        }
    }

    fn accept(&mut self, n: usize) -> (r: SendAction)
        ensures
            (final(self)@, r) == old(self)@.accepted(n as nat),
    {
        if let Some(mut chunk) = self.sending.take() {
            if n < buffer::bytes_len(&chunk) {
                let rest = buffer::bytes_split_off(&mut chunk, n);
                self.queued.push_front(rest);
                assert(self@ =~= old(self)@.accepted(n as nat).0);
                return SendAction::Register;
            }
        }
        self.advance()
    }
}

/// The sending side of a stream, as its handle uses it. Whatever gives the driver something to do
/// records the stream with the driver, and returns the waker that is to be called for it.
pub struct SendStream {
    state: SendState,
}

impl View for SendStream {
    type V = SendView;

    closed spec fn view(&self) -> SendView {
        self.state@
    }
}

impl SendView {
    /// Finishes the stream, unless it is closed.
    pub open spec fn finished(self) -> (SendView, Result<(), StreamError>) {
        match self.refusal() {
            Some(err) => (self, Err(err)),
            None => (SendView { fin: true, ..self }, Ok(())),
        }
    }

    /// Gives the stream up: it is reset unless it is closed.
    pub open spec fn dropped(self) -> SendView {
        if self.is_closed() {
            self
        } else {
            SendView { reset: Some(DROP_CODE), ..self }
        }
    }
}

impl SendStream {
    /// A handle for the given state.
    pub fn new(state: SendState) -> (r: SendStream)
        ensures
            r@ == state@,
    {
        SendStream { state }
    }

    /// The identifier of the stream.
    pub fn id(&self) -> (r: StreamId)
        ensures
            r == self@.id,
    {
        self.state.id()
    }

    /// The state that the driver flushes.
    pub fn state(&mut self) -> (r: &mut SendState)
        ensures
            r@ == old(self)@,
            final(self)@ == final(r)@,
    {
        &mut self.state
    }

    /// Writes some of the buffer and takes what was written off the buffer. Returns the number of
    /// bytes written; the driver is told unless the write has to wait.
    pub fn write_buf(&mut self, driver: &mut DriverState, waker: Waker, buf: &mut Bytes) -> (r: (
        Poll<Result<usize, StreamError>>,
        Option<Waker>,
    ))
        ensures
            (final(self)@, r.0) == old(self)@.written(waker, buffer::bytes_of(*old(buf))),
            buffer::bytes_of(*final(buf)) == match r.0 {
                Poll::Ready(Ok(n)) => buffer::bytes_of(*old(buf)).skip(n as int),
                _ => buffer::bytes_of(*old(buf)),
            },
            (final(driver)@, r.1) == match r.0 {
                Poll::Ready(_) => old(driver)@.send_woken(old(self)@.id),
                Poll::Pending => (old(driver)@, None),
            },
    {
        match self.state.poll_write_buf(waker, buf) {
            Poll::Ready(res) => (Poll::Ready(res), driver.wake_send(self.state.id())),
            Poll::Pending => (Poll::Pending, None),
        }
    }

    /// Writes some of the slice. Returns the number of bytes written; the driver is told unless
    /// the write has to wait.
    pub fn write(&mut self, driver: &mut DriverState, waker: Waker, buf: &[u8]) -> (r: (
        Poll<Result<usize, StreamError>>,
        Option<Waker>,
    ))
        ensures
            (final(self)@, r.0) == old(self)@.written(waker, buf@),
            (final(driver)@, r.1) == match r.0 {
                Poll::Ready(_) => old(driver)@.send_woken(old(self)@.id),
                Poll::Pending => (old(driver)@, None),
            },
    {
        match self.state.poll_write(waker, buf) {
            Poll::Ready(res) => (Poll::Ready(res), driver.wake_send(self.state.id())),
            Poll::Pending => (Poll::Pending, None),
        }
    }

    /// Marks the stream as finished, and tells the driver. Returns an error if the stream is
    /// already closed.
    pub fn finish(&mut self, driver: &mut DriverState) -> (r: Result<Option<Waker>, StreamError>)
        ensures
            final(self)@ == old(self)@.finished().0,
            match old(self)@.finished().1 {
                Ok(_) => r is Ok && (final(driver)@, r->Ok_0) == old(driver)@.send_woken(
                    old(self)@.id,
                ),
                Err(err) => r == Err::<Option<Waker>, _>(err) && final(driver)@ == old(driver)@,
            },
    {
        match self.state.refusal() {
            Some(err) => Err(err),
            None => {
                self.state.fin = true;
                Ok(driver.wake_send(self.state.id()))
            },
        }
    }

    /// Immediately closes the stream by a RESET_STREAM with the given code.
    pub fn close(&mut self, driver: &mut DriverState, code: u64) -> (r: Option<Waker>)
        ensures
            final(self)@ == (SendView { reset: Some(code), ..old(self)@ }),
            (final(driver)@, r) == old(driver)@.send_woken(old(self)@.id),
    {
        self.state.reset = Some(code);
        driver.wake_send(self.state.id())
    }

    /// Whether the stream is closed by either side: it was reset, the peer asked to stop, or it
    /// was finished.
    pub fn is_closed(&self) -> (r: bool)
        ensures
            r == self@.is_closed(),
    {
        self.state.fin || self.state.reset.is_some() || self.state.stop.is_some()
    }

    /// Whether the stream has ended; see [`SendState::poll_closed`].
    pub fn closed(&mut self, waker: Waker) -> (r: Poll<Result<(), StreamError>>)
        ensures
            (final(self)@, r) == old(self)@.closing(waker),
    {
        self.state.poll_closed(waker)
    }

    /// Sets the priority of the stream at the next flush.
    pub fn set_priority(&mut self, driver: &mut DriverState, priority: u8) -> (r: Option<Waker>)
        ensures
            final(self)@ == (SendView { priority: Some(priority), ..old(self)@ }),
            (final(driver)@, r) == old(driver)@.send_woken(old(self)@.id),
    {
        self.state.priority = Some(priority);
        driver.wake_send(self.state.id())
    }

    /// Gives the stream up: unless it is closed it is reset with [`DROP_CODE`].
    pub fn drop_handle(&mut self, driver: &mut DriverState) -> (r: Option<Waker>)
        ensures
            final(self)@ == old(self)@.dropped(),
            (final(driver)@, r) == if old(self)@.is_closed() {
                (old(driver)@, None)
            } else {
                old(driver)@.send_woken(old(self)@.id)
            },
    {
        if self.is_closed() {
            return None;
        }
        self.close(driver, DROP_CODE)
    }
}

/// Writes a whole buffer by writing some of it again and again.
pub struct WriteAll {
    len: usize,
    done: usize,
}

impl WriteAll {
    /// How many bytes there are to write.
    pub closed spec fn total(self) -> usize {
        self.len
    }

    /// How many bytes were written so far.
    pub closed spec fn written(self) -> usize {
        self.done
    }

    /// No more was written than there is to write.
    pub closed spec fn wf(self) -> bool {
        self.done <= self.len
    }

    /// Begins with a buffer of the given length.
    pub fn new(len: usize) -> (r: WriteAll)
        ensures
            r.wf(),
            r.total() == len,
            r.written() == 0,
    {
        WriteAll { len, done: 0 }
    }

    /// Where the bytes that are still to be written begin; nothing once all are written.
    pub fn next(&self) -> (r: Option<usize>)
        requires
            self.wf(),
        ensures
            r == if self.written() < self.total() {
                Some(self.written())
            } else {
                None
            },
    {
        if self.done < self.len {
            Some(self.done)
        } else {
            None
        }
    }

    /// Records how a write of the bytes from [`WriteAll::next`] on went: the bytes written are
    /// done with, an error ends it.
    pub fn wrote<E>(&mut self, res: Result<usize, E>) -> (r: Result<(), E>)
        requires
            old(self).wf(),
            res matches Ok(n) ==> old(self).written() + n <= old(self).total(),
        ensures
            final(self).wf(),
            final(self).total() == old(self).total(),
            final(self).written() == old(self).written() + (if let Ok(n) = res { n as int } else { 0 }),
            r == match res {
                Ok(_) => Ok(()),
                Err(err) => Err(err),
            },
    {
        match res {
            Ok(n) => {
                self.done = self.done + n;
                Ok(())
            },
            Err(err) => Err(err),
        }
    }
}

} // verus!
