//! The receiving side of a stream.

use std::collections::VecDeque;
use std::task::Waker;

use bytes::{Bytes, BytesMut};
use vstd::prelude::*;

use super::connection::DriverState;
use super::error::QuicheError;
use super::stream::{StreamError, StreamId};
use crate::buffer;
use crate::task::Poll;

verus! {

/// The code of the STOP_SENDING that a stream gets when it is dropped before its end.
pub const DROP_CODE: u64 = 0x6563766464726F70;

/// The size of the first read buffer.
pub const MIN_BUFFER: usize = 64;

/// The size that a read buffer does not exceed.
pub const MAX_BUFFER: usize = 32768;

/// The state of the receiving side of a stream, which its handle shares with the driver.
pub struct RecvState {
    id: StreamId,
    // Data that has been read and needs to be returned to the application.
    queued: VecDeque<Bytes>,
    // The amount of data that should be queued.
    max: usize,
    // The driver wakes up the application when data is available.
    blocked: Option<Waker>,
    // Set when a FIN was received.
    fin: bool,
    // The code of the RESET_STREAM that was received.
    reset: Option<u64>,
    // The code of the STOP_SENDING to send.
    stop: Option<u64>,
    // Buffer for reading data; empty, but for the time of a read.
    buf: BytesMut,
    // The size of the buffer doubles each time until it reaches the maximum size.
    buf_capacity: usize,
    // The room that the last read found in the buffer, before it grew and after.
    found: usize,
    room: usize,
    // Whether the flush that is under way has received data.
    changed: bool,
}

/// What a [`RecvState`] holds.
#[verifier::ext_equal]
pub ghost struct RecvView {
    pub id: StreamId,
    /// The chunks that were received and wait to be read, the next one first.
    pub queued: Seq<Seq<u8>>,
    /// How many more bytes the application wants.
    pub max: usize,
    /// The task to wake once the stream changes.
    pub blocked: Option<Waker>,
    /// Whether the peer finished the stream.
    pub fin: bool,
    /// The code with which the peer reset the stream.
    pub reset: Option<u64>,
    /// The code with which the stream was stopped.
    pub stop: Option<u64>,
    /// The bytes that the connection writes to; none but for the time of a read.
    pub buf: Seq<u8>,
    /// The size that was asked for when the read buffer last grew.
    pub buf_capacity: usize,
    /// The room that the last read found in the read buffer; none if the buffer had to grow.
    pub found: usize,
    /// The room that the read buffer then had for the last read.
    pub room: usize,
    /// Whether the flush that is under way has received data.
    pub changed: bool,
}

/// What the driver tells a stream that it flushes.
pub enum RecvEvent {
    /// The flush begins.
    Start,
    /// The answer to [`RecvAction::Shutdown`].
    Shutdown(Result<(), QuicheError>),
    /// The answer to [`RecvAction::Recv`]: how many bytes were written to the buffer, and whether
    /// they are the last ones.
    Received(Result<(usize, bool), QuicheError>),
    /// The answer to [`RecvAction::IsFinished`].
    Finished(bool),
}

/// What a stream that is being flushed asks of the driver.
pub enum RecvAction {
    /// Shut the stream down for reading, with this code.
    Shutdown(u64),
    /// Receive data into [`RecvState::buffer`].
    Recv,
    /// Ask whether the peer finished the stream and everything was received.
    IsFinished,
    /// The flush is over: wake whoever is given, or fail.
    Return(Result<Option<Waker>, QuicheError>),
}

/// What follows a step of a flush.
pub ghost enum RecvOutcome {
    /// The stream is as given, and the driver is asked for this.
    Act(RecvView, RecvAction),
    /// The stream is as given but for its read buffer, which is made ready for a read.
    Read(RecvView),
}

/// The size that a read buffer grows to.
pub open spec fn grown(capacity: usize) -> usize {
    if 2 * capacity < MAX_BUFFER {
        (2 * capacity) as usize
    } else {
        MAX_BUFFER
    }
}

impl RecvView {
    /// The receiving side of a new stream.
    pub open spec fn new(id: StreamId) -> RecvView {
        RecvView {
            id,
            queued: Seq::empty(),
            max: 0,
            blocked: None,
            fin: false,
            reset: None,
            stop: None,
            buf: Seq::empty(),
            buf_capacity: MIN_BUFFER,
            found: 0,
            room: 0,
            changed: false,
        }
    }

    /// No read asks for more than the application wants, and the read buffer keeps within its
    /// bounds.
    pub open spec fn wf(self) -> bool {
        &&& self.buf.len() <= self.max
        &&& MIN_BUFFER <= self.buf_capacity <= MAX_BUFFER
    }

    /// Whether no read is under way.
    pub open spec fn is_idle(self) -> bool {
        self.buf.len() == 0
    }

    /// Whether the stream is closed by either side and there is nothing left to read.
    pub open spec fn is_closed(self) -> bool {
        (self.fin && self.queued.len() == 0) || self.reset is Some || self.stop is Some
    }

    /// Reads up to `max` bytes: the stream afterwards, and the outcome.
    pub open spec fn read(self, waker: Waker, max: usize) -> (RecvView, Poll<
        Result<Option<Seq<u8>>, StreamError>,
    >) {
        match (self.reset, self.stop) {
            (Some(code), _) => (self, Poll::Ready(Err(StreamError::Reset(code)))),
            (None, Some(code)) => (self, Poll::Ready(Err(StreamError::Stop(code)))),
            (None, None) => if self.queued.len() > 0 {
                let chunk = self.queued.first();
                let rest = self.queued.drop_first();
                if chunk.len() > max {
                    (
                        RecvView { queued: seq![chunk.skip(max as int)] + rest, ..self },
                        Poll::Ready(Ok(Some(chunk.take(max as int)))),
                    )
                } else {
                    (RecvView { queued: rest, ..self }, Poll::Ready(Ok(Some(chunk))))
                }
            } else if self.fin {
                (self, Poll::Ready(Ok(None)))
            } else if max == 0 {
                (self, Poll::Ready(Ok(Some(Seq::empty()))))
            } else {
                (RecvView { max, blocked: Some(waker), ..self }, Poll::Pending)
            },
        }
    }

    /// Waits for the end of the stream: the stream afterwards, and the outcome.
    pub open spec fn closing(self, waker: Waker) -> (RecvView, Poll<Result<(), StreamError>>) {
        if self.fin && self.queued.len() == 0 {
            (self, Poll::Ready(Ok(())))
        } else {
            match (self.reset, self.stop) {
                (Some(code), _) => (self, Poll::Ready(Err(StreamError::Reset(code)))),
                (None, Some(code)) => (self, Poll::Ready(Err(StreamError::Stop(code)))),
                (None, None) => (RecvView { blocked: Some(waker), ..self }, Poll::Pending),
            }
        }
    }

    /// The flush ends by waking whoever waits.
    pub open spec fn woken(self) -> RecvOutcome {
        RecvOutcome::Act(
            RecvView { blocked: None, ..self },
            RecvAction::Return(Ok(self.blocked)),
        )
    }

    /// The flush ends: whoever waits is woken if something was received.
    pub open spec fn ended(self) -> RecvOutcome {
        if self.changed {
            self.woken()
        } else {
            RecvOutcome::Act(self, RecvAction::Return(Ok(None)))
        }
    }

    /// The read buffer is made ready for a read that found the given room, and has the given room
    /// after the buffer grew if it had none.
    pub open spec fn reading(self, found: usize, room: usize) -> RecvView {
        RecvView {
            buf: Seq::new(
                vstd::math::min(room as int, self.max as int) as nat,
                |i: int| 0u8,
            ),
            buf_capacity: if found > 0 {
                self.buf_capacity
            } else {
                grown(self.buf_capacity)
            },
            found,
            room,
            ..self
        }
    }

    /// Whether a read can find the given room, and have the given room after the buffer grew: one
    /// that had room does not grow, one that had none grows to at least its next size.
    pub open spec fn has_room(self, found: usize, room: usize) -> bool {
        if found > 0 {
            room == found
        } else {
            room >= grown(self.buf_capacity)
        }
    }

    /// The flush goes on as long as the application wants more.
    pub open spec fn advanced(self) -> RecvOutcome {
        if self.max > 0 {
            RecvOutcome::Read(self)
        } else {
            self.ended()
        }
    }

    /// The flush goes on after the first `n` bytes of the buffer were received.
    pub open spec fn received(self, n: nat, last: bool) -> RecvOutcome {
        let state = RecvView {
            queued: self.queued.push(self.buf.take(n as int)),
            max: (self.max - n) as usize,
            buf: Seq::empty(),
            changed: true,
            ..self
        };
        if last {
            RecvView { fin: true, ..state }.woken()
        } else {
            state.advanced()
        }
    }

    /// One step of a flush.
    pub open spec fn flushed(self, event: RecvEvent) -> RecvOutcome {
        let idle = RecvView { buf: Seq::empty(), ..self };
        match event {
            RecvEvent::Start => match (self.reset, self.stop) {
                (Some(_), _) => self.woken(),
                (None, Some(code)) => RecvOutcome::Act(self, RecvAction::Shutdown(code)),
                (None, None) => RecvView { changed: false, ..self }.advanced(),
            },
            RecvEvent::Shutdown(Ok(_)) => self.woken(),
            RecvEvent::Shutdown(Err(err)) => RecvOutcome::Act(self, RecvAction::Return(Err(err))),
            RecvEvent::Received(Ok((n, last))) => self.received(n as nat, last),
            RecvEvent::Received(Err(QuicheError::Done)) => RecvOutcome::Act(
                idle,
                RecvAction::IsFinished,
            ),
            RecvEvent::Received(Err(QuicheError::StreamReset(code))) => RecvView {
                reset: Some(code),
                ..idle
            }.woken(),
            RecvEvent::Received(Err(err)) => RecvOutcome::Act(idle, RecvAction::Return(Err(err))),
            RecvEvent::Finished(true) => RecvView { fin: true, ..self }.woken(),
            RecvEvent::Finished(false) => self.ended(),
        }
    }

    /// Whether an event can come: a read writes no more bytes than the buffer holds, and the
    /// buffer is empty but for the time of a read.
    pub open spec fn expects(self, event: RecvEvent) -> bool {
        match event {
            RecvEvent::Received(Ok((n, _))) => n <= self.buf.len(),
            RecvEvent::Received(Err(_)) => true,
            _ => self.is_idle(),
        }
    }
}

impl RecvOutcome {
    /// Whether a step ends with the given stream, asking the driver for the given action. A read
    /// asks for as much as the application wants, as far as the read buffer has the room. A buffer
    /// without room grows first, to at least its next size.
    pub open spec fn gives(self, next: RecvView, action: RecvAction) -> bool {
        match self {
            RecvOutcome::Act(state, act) => next == state && action == act,
            RecvOutcome::Read(state) => {
                &&& action == RecvAction::Recv
                &&& state.has_room(next.found, next.room)
                &&& next == state.reading(next.found, next.room)
            },
        }
    }
}

impl View for RecvState {
    type V = RecvView;

    closed spec fn view(&self) -> RecvView {
        RecvView {
            id: self.id,
            queued: buffer::chunks_of(self.queued@),
            max: self.max,
            blocked: self.blocked,
            fin: self.fin,
            reset: self.reset,
            stop: self.stop,
            buf: buffer::bytes_mut_of(self.buf),
            buf_capacity: self.buf_capacity,
            found: self.found,
            room: self.room,
            changed: self.changed,
        }
    }
}

/// What a chunk that was read holds.
pub open spec fn chunk_view(res: Poll<Result<Option<Bytes>, StreamError>>) -> Poll<
    Result<Option<Seq<u8>>, StreamError>,
> {
    match res {
        Poll::Ready(Ok(Some(chunk))) => Poll::Ready(Ok(Some(buffer::bytes_of(chunk)))),
        Poll::Ready(Ok(None)) => Poll::Ready(Ok(None)),
        Poll::Ready(Err(err)) => Poll::Ready(Err(err)),
        Poll::Pending => Poll::Pending,
    }
}

/// The size that a read buffer grows to.
fn grow(capacity: usize) -> (r: usize)
    requires
        capacity <= MAX_BUFFER,
    ensures
        r == grown(capacity),
{
    if 2 * capacity < MAX_BUFFER {
        2 * capacity
    } else {
        MAX_BUFFER
    }
}

/// How many bytes a read asks for when the read buffer has the given room.
pub fn read_size(room: usize, max: usize) -> (r: usize)
    ensures
        r == vstd::math::min(room as int, max as int),
{
    if room < max {
        room
    } else {
        max
    }
}

impl RecvState {
    /// The receiving side of a new stream, from which nothing is wanted yet.
    pub fn new(id: StreamId) -> (r: RecvState)
        ensures
            r@ == RecvView::new(id),
            r@.wf(),
    {
        RecvState {
            id,
            queued: VecDeque::new(),
            max: 0,
            blocked: None,
            fin: false,
            reset: None,
            stop: None,
            buf: buffer::bytes_mut_with_capacity(MIN_BUFFER),
            buf_capacity: MIN_BUFFER,
            found: 0,
            room: 0,
            changed: false,
        }
    }

    /// The identifier of the stream.
    pub fn id(&self) -> (r: StreamId)
        ensures
            r == self@.id,
    {
        self.id
    }

    /// The next chunk, of `max` bytes at the most; nothing at the end of the stream. Without data
    /// the waker is kept until there is some.
    pub fn poll_read_chunk(&mut self, waker: Waker, max: usize) -> (r: Poll<
        Result<Option<Bytes>, StreamError>,
    >)
        requires
            old(self)@.wf(),
            old(self)@.is_idle(),
        ensures
            (final(self)@, chunk_view(r)) == old(self)@.read(waker, max),
            final(self)@.wf(),
            final(self)@.is_idle(),
    {
        if let Some(code) = self.reset {
            return Poll::Ready(Err(StreamError::Reset(code)));
        }
        if let Some(code) = self.stop {
            return Poll::Ready(Err(StreamError::Stop(code)));
        }
        if let Some(mut chunk) = self.queued.pop_front() {
            if buffer::bytes_len(&chunk) > max {
                let rest = buffer::bytes_split_off(&mut chunk, max);
                self.queued.push_front(rest);
            }
            assert(self@ =~= old(self)@.read(waker, max).0);
            return Poll::Ready(Ok(Some(chunk)));
        }
        if self.fin {
            return Poll::Ready(Ok(None));
        }
        // We'll return None if FIN, otherwise return an empty chunk.
        if max == 0 {
            return Poll::Ready(Ok(Some(buffer::bytes_new())));
        }
        self.max = max;
        self.blocked = Some(waker);
        Poll::Pending
    }

    /// Whether the stream has ended: without an error once everything was read, with one if either
    /// side broke it off. Until then the waker is kept.
    pub fn poll_closed(&mut self, waker: Waker) -> (r: Poll<Result<(), StreamError>>)
        ensures
            (final(self)@, r) == old(self)@.closing(waker),
    {
        if self.fin && self.queued.len() == 0 {
            return Poll::Ready(Ok(()));
        }
        if let Some(code) = self.reset {
            return Poll::Ready(Err(StreamError::Reset(code)));
        }
        if let Some(code) = self.stop {
            return Poll::Ready(Err(StreamError::Stop(code)));
        }
        self.blocked = Some(waker);
        Poll::Pending
    }

    /// The bytes that [`RecvAction::Recv`] writes to.
    pub fn buffer(&mut self) -> (r: &mut [u8])
        ensures
            r@ == old(self)@.buf,
            final(self)@ == (RecvView { buf: final(r)@, ..old(self)@ }),
    {
        buffer::bytes_mut_slice(&mut self.buf)
    }

    /// One step of a flush. The driver starts with [`RecvEvent::Start`], performs what is returned
    /// and hands back the answer, until [`RecvAction::Return`].
    pub fn flush(&mut self, event: RecvEvent) -> (r: RecvAction)
        requires
            old(self)@.wf(),
            old(self)@.expects(event),
        ensures
            old(self)@.flushed(event).gives(final(self)@, r),
            final(self)@.wf(),
    {
        match event {
            RecvEvent::Start => {
                if self.reset.is_some() {
                    return self.wake();
                }
                if let Some(code) = self.stop {
                    return RecvAction::Shutdown(code);
                }
                self.changed = false;
                self.advance()
            },
            RecvEvent::Shutdown(Ok(_)) => self.wake(),
            RecvEvent::Shutdown(Err(err)) => RecvAction::Return(Err(err)),
            RecvEvent::Received(Ok((n, last))) => {
                // Split the buffer and push the front to the queue.
                let chunk = buffer::bytes_mut_freeze(buffer::bytes_mut_split_to(&mut self.buf, n));
                buffer::bytes_mut_clear(&mut self.buf);
                self.queued.push_back(chunk);
                self.max = self.max - n;
                self.changed = true;
                assert(buffer::chunks_of(self.queued@) =~= old(self)@.queued.push(
                    old(self)@.buf.take(n as int),
                ));
                if last {
                    self.fin = true;
                    return self.wake();
                }
                self.advance()
            },
            RecvEvent::Received(Err(err)) => {
                buffer::bytes_mut_clear(&mut self.buf);
                match err {
                    QuicheError::Done => RecvAction::IsFinished,
                    QuicheError::StreamReset(code) => {
                        self.reset = Some(code);
                        self.wake()
                    },
                    err => RecvAction::Return(Err(err)),
                }
            },
            RecvEvent::Finished(true) => {
                self.fin = true;
                self.wake()
            },
            RecvEvent::Finished(false) => self.end(),
        }
    }

    fn wake(&mut self) -> (r: RecvAction)
        ensures
            old(self)@.woken().gives(final(self)@, r),
    {
        RecvAction::Return(Ok(self.blocked.take()))
    }

    fn end(&mut self) -> (r: RecvAction)
        ensures
            old(self)@.ended().gives(final(self)@, r),
    {
        if self.changed {
            return self.wake();
        }
        // Don't wake up the application if nothing was received.
        RecvAction::Return(Ok(None))
    }

    fn advance(&mut self) -> (r: RecvAction)
        requires
            old(self)@.wf(),
            old(self)@.is_idle(),
        ensures
            old(self)@.advanced().gives(final(self)@, r),
            final(self)@.wf(),
    {
        if self.max == 0 {
            return self.end();
        }
        let found: usize = buffer::bytes_mut_capacity(&self.buf);
        let room: usize = if found == 0 {
            buffer::bytes_mut_reserve(&mut self.buf, grow(self.buf_capacity))
        } else {
            found
        };
        self.begin_read(found, room);
        RecvAction::Recv
    }

    /// Makes the read buffer ready for a read, given the room that it was found to have, and the
    /// room that it has after it grew if it had none. The read asks for as much as the application
    /// wants, as far as there is room.
    pub fn begin_read(&mut self, found: usize, room: usize)
        requires
            old(self)@.wf(),
            old(self)@.is_idle(),
            old(self)@.has_room(found, room),
            room <= isize::MAX,
        ensures
            final(self)@ == old(self)@.reading(found, room),
            final(self)@.wf(),
    {
        if found == 0 {
            self.buf_capacity = grow(self.buf_capacity);
        }
        self.found = found;
        self.room = room;
        buffer::bytes_mut_resize(&mut self.buf, read_size(room, self.max), 0);
        assert(self@ =~= old(self)@.reading(found, room));
    }
}

/// The receiving side of a stream, as its handle uses it. Whatever gives the driver something to
/// do records the stream with the driver, and returns the waker that is to be called for it.
pub struct RecvStream {
    state: RecvState,
}

impl View for RecvStream {
    type V = RecvView;

    closed spec fn view(&self) -> RecvView {
        self.state@
    }
}

impl RecvView {
    /// Gives the stream up: it is stopped unless it has ended or was broken off.
    pub open spec fn dropped(self) -> RecvView {
        if self.fin || self.reset is Some || self.stop is Some {
            self
        } else {
            RecvView { stop: Some(DROP_CODE), ..self }
        }
    }
}

/// How many bytes were read.
pub open spec fn chunk_len(res: Poll<Result<Option<Seq<u8>>, StreamError>>) -> Poll<
    Result<Option<usize>, StreamError>,
> {
    match res {
        Poll::Ready(Ok(Some(chunk))) => Poll::Ready(Ok(Some(chunk.len() as usize))),
        Poll::Ready(Ok(None)) => Poll::Ready(Ok(None)),
        Poll::Ready(Err(err)) => Poll::Ready(Err(err)),
        Poll::Pending => Poll::Pending,
    }
}

impl RecvStream {
    /// A handle for the given state.
    pub fn new(state: RecvState) -> (r: RecvStream)
        ensures
            r@ == state@,
    {
        RecvStream { state }
    }

    /// The identifier of the stream.
    pub fn id(&self) -> (r: StreamId)
        ensures
            r == self@.id,
    {
        self.state.id()
    }

    /// The state that the driver flushes.
    pub fn state(&mut self) -> (r: &mut RecvState)
        ensures
            r@ == old(self)@,
            final(self)@ == final(r)@,
    {
        &mut self.state
    }

    /// The next chunk, of `max` bytes at the most; nothing at the end of the stream. A read that
    /// has to wait tells the driver that more data is wanted.
    pub fn read_chunk(&mut self, driver: &mut DriverState, waker: Waker, max: usize) -> (r: (
        Poll<Result<Option<Bytes>, StreamError>>,
        Option<Waker>,
    ))
        requires
            old(self)@.wf(),
            old(self)@.is_idle(),
        ensures
            (final(self)@, chunk_view(r.0)) == old(self)@.read(waker, max),
            (final(driver)@, r.1) == match r.0 {
                Poll::Ready(_) => (old(driver)@, None),
                Poll::Pending => old(driver)@.recv_woken(old(self)@.id),
            },
            final(self)@.wf(),
            final(self)@.is_idle(),
    {
        match self.state.poll_read_chunk(waker, max) {
            Poll::Ready(res) => (Poll::Ready(res), None),
            Poll::Pending => (Poll::Pending, driver.wake_recv(self.state.id())),
        }
    }

    /// Reads into the slice, as much as fits of the next chunk. Returns the number of bytes read;
    /// nothing at the end of the stream.
    pub fn read(&mut self, driver: &mut DriverState, waker: Waker, buf: &mut [u8]) -> (r: (
        Poll<Result<Option<usize>, StreamError>>,
        Option<Waker>,
    ))
        requires
            old(self)@.wf(),
            old(self)@.is_idle(),
        ensures
            ({
                let (state, res) = old(self)@.read(waker, old(buf)@.len() as usize);
                &&& final(self)@ == state
                &&& r.0 == chunk_len(res)
                &&& final(buf)@ == match res {
                    Poll::Ready(Ok(Some(chunk))) => chunk + old(buf)@.skip(chunk.len() as int),
                    _ => old(buf)@,
                }
            }),
            (final(driver)@, r.1) == match r.0 {
                Poll::Ready(_) => (old(driver)@, None),
                Poll::Pending => old(driver)@.recv_woken(old(self)@.id),
            },
            final(self)@.wf(),
            final(self)@.is_idle(),
    {
        let (res, wake) = self.read_chunk(driver, waker, buf.len());
        let res = match res {
            Poll::Ready(Ok(Some(chunk))) => {
                let data = buffer::bytes_slice(&chunk);
                fill(buf, data);
                Poll::Ready(Ok(Some(data.len())))
            },
            Poll::Ready(Ok(None)) => Poll::Ready(Ok(None)),
            Poll::Ready(Err(err)) => Poll::Ready(Err(err)),
            Poll::Pending => Poll::Pending,
        };
        (res, wake)
    }

    /// Stops the stream by a STOP_SENDING with the given code.
    pub fn close(&mut self, driver: &mut DriverState, code: u64) -> (r: Option<Waker>)
        ensures
            final(self)@ == (RecvView { stop: Some(code), ..old(self)@ }),
            (final(driver)@, r) == old(driver)@.recv_woken(old(self)@.id),
    {
        self.state.stop = Some(code);
        driver.wake_recv(self.state.id())
    }

    /// Whether the stream is closed by either side: it was stopped, the peer reset it, or the peer
    /// finished it and everything was read.
    pub fn is_closed(&self) -> (r: bool)
        ensures
            r == self@.is_closed(),
    {
        (self.state.fin && self.state.queued.len() == 0) || self.state.reset.is_some()
            || self.state.stop.is_some()
    }

    /// Whether the stream has ended; see [`RecvState::poll_closed`].
    pub fn closed(&mut self, waker: Waker) -> (r: Poll<Result<(), StreamError>>)
        ensures
            (final(self)@, r) == old(self)@.closing(waker),
    {
        self.state.poll_closed(waker)
    }

    /// Gives the stream up: it is stopped with [`DROP_CODE`], unless the peer finished it or
    /// either side broke it off.
    pub fn drop_handle(&mut self, driver: &mut DriverState) -> (r: Option<Waker>)
        ensures
            final(self)@ == old(self)@.dropped(),
            (final(driver)@, r) == if old(self)@.dropped() == old(self)@ {
                (old(driver)@, None)
            } else {
                old(driver)@.recv_woken(old(self)@.id)
            },
    {
        if self.state.fin || self.state.reset.is_some() || self.state.stop.is_some() {
            return None;
        }
        self.close(driver, DROP_CODE)
    }
}

/// Overwrites the front of a slice.
fn fill(buf: &mut [u8], data: &[u8])
    requires
        data@.len() <= old(buf)@.len(),
    ensures
        final(buf)@ == data@ + old(buf)@.skip(data@.len() as int),
{
    let mut i: usize = 0;
    while i < data.len()
        invariant
            i <= data@.len() <= buf@.len(),
            buf@ == data@.take(i as int) + old(buf)@.skip(i as int),
            buf@.len() == old(buf)@.len(),
        decreases data@.len() - i,
    {
        buf[i] = data[i];
        i = i + 1;
        assert(buf@ =~= data@.take(i as int) + old(buf)@.skip(i as int));
    }
    assert(data@.take(i as int) =~= data@);
}

/// Reads a stream to its end.
pub struct ReadAll {
    buf: BytesMut,
}

/// What reading a stream to its end comes to, once it does.
pub enum ReadAllStep {
    /// Read the next chunk.
    Continue(ReadAll),
    /// The stream has ended with this.
    Return(Result<Bytes, StreamError>),
}

impl View for ReadAll {
    type V = Seq<u8>;

    closed spec fn view(&self) -> Seq<u8> {
        buffer::bytes_mut_of(self.buf)
    }
}

impl ReadAll {
    /// Nothing was read yet.
    pub fn new() -> (r: ReadAll)
        ensures
            r@ == Seq::<u8>::empty(),
    {
        ReadAll { buf: buffer::bytes_mut_new() }
    }

    /// Goes on with what was read: a chunk is put behind those before it, the end of the stream
    /// gives all of them together.
    pub fn push(self, res: Result<Option<Bytes>, StreamError>) -> (r: ReadAllStep)
        requires
            res matches Ok(Some(chunk)) ==> self@.len() + buffer::bytes_of(chunk).len()
                <= isize::MAX,
        ensures
            match res {
                Ok(Some(chunk)) => r matches ReadAllStep::Continue(all) && all@ == self@
                    + buffer::bytes_of(chunk),
                Ok(None) => r matches ReadAllStep::Return(Ok(all)) && buffer::bytes_of(all)
                    == self@,
                Err(err) => r == ReadAllStep::Return(Err(err)),
            },
    {
        let mut buf = self.buf;
        match res {
            Ok(Some(chunk)) => {
                buffer::bytes_mut_extend(&mut buf, buffer::bytes_slice(&chunk));
                ReadAllStep::Continue(ReadAll { buf })
            },
            Ok(None) => ReadAllStep::Return(Ok(buffer::bytes_mut_freeze(buf))),
            Err(err) => ReadAllStep::Return(Err(err)),
        }
    }
}

} // verus!
