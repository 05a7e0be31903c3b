//! What a stream promises over its whole life: bytes leave and arrive in the order in which they
//! were written, none of them twice, and the end comes after the last of them.

use std::task::Waker;
use vstd::prelude::*;

use super::error::QuicheError;
use super::recv::{RecvAction, RecvEvent, RecvOutcome, RecvState, RecvView};
use super::send::{SendAction, SendEvent, SendState, SendView, DROP_CODE};
use super::stream::{StreamError, StreamId};
use crate::task::Poll;

verus! {

/// Something that happens to the sending side of a stream.
pub ghost enum SendOp {
    /// The application writes as much of the bytes as there is room for.
    Write(Waker, Seq<u8>),
    /// The application waits for the end of the stream.
    Closed(Waker),
    /// The application finishes the stream.
    Finish,
    /// The application resets the stream with a code.
    Close(u64),
    /// The application sets the priority.
    SetPriority(u8),
    /// The application gives the stream up.
    Drop,
    /// The driver takes a step of a flush.
    Flush(SendEvent),
}

/// The sending side of a stream and its past.
pub ghost struct SendRun {
    pub state: SendView,
    /// What the driver was asked to do last, if it has flushed the stream at all.
    pub asked: Option<SendAction>,
    /// The bytes that the application wrote.
    pub written: Seq<u8>,
    /// The bytes that the connection accepted.
    pub accepted: Seq<u8>,
    /// How many bytes the connection had room for when it was asked last.
    pub granted: nat,
    /// How many bytes the application wrote since then.
    pub used: nat,
    /// Whether the stream asked, in the last flush, to be told when it can go on.
    pub registered: bool,
}

/// Whether an event answers what the driver was asked to do last. A flush starts once the one
/// before it is over, and none starts after one has failed.
pub open spec fn answers(asked: Option<SendAction>, event: SendEvent) -> bool {
    match asked {
        None => event is Start,
        Some(SendAction::Shutdown(_)) => event is Shutdown,
        Some(SendAction::Prioritize(_)) => event is Prioritized,
        Some(SendAction::Send) => event is Sent,
        Some(SendAction::Register) => event is Registered,
        Some(SendAction::Finish) => event is Finished,
        Some(SendAction::Capacity) => event is Capacity,
        Some(SendAction::Return(Ok(_))) => event is Start,
        Some(SendAction::Return(Err(_))) => false,
    }
}

/// The bytes that the connection accepts with an event.
pub open spec fn accepted_by(state: SendView, event: SendEvent) -> Seq<u8> {
    match (state.sending, event) {
        (Some(chunk), SendEvent::Sent(Ok(n))) => if n < chunk.len() {
            chunk.take(n as int)
        } else {
            chunk
        },
        _ => Seq::empty(),
    }
}

impl SendRun {
    /// A stream that was just made.
    pub open spec fn new(id: StreamId) -> SendRun {
        SendRun {
            state: SendView::new(id),
            asked: None,
            written: Seq::empty(),
            accepted: Seq::empty(),
            granted: 0,
            used: 0,
            registered: false,
        }
    }

    /// Whether no flush is under way. The stream is locked during a flush, so that the application
    /// acts only then.
    pub open spec fn is_idle(self) -> bool {
        self.asked is None || self.asked->0 is Return
    }

    /// Whether something can happen next.
    pub open spec fn allows(self, op: SendOp) -> bool {
        match op {
            SendOp::Flush(event) => answers(self.asked, event),
            _ => self.is_idle(),
        }
    }

    /// The stream after something happened.
    pub open spec fn step(self, op: SendOp) -> SendRun {
        match op {
            SendOp::Write(waker, data) => {
                let (state, res) = self.state.written(waker, data);
                let bytes = match res {
                    Poll::Ready(Ok(n)) => data.take(n as int),
                    _ => Seq::empty(),
                };
                SendRun {
                    state,
                    written: self.written + bytes,
                    used: self.used + bytes.len(),
                    ..self
                }
            },
            SendOp::Closed(waker) => SendRun { state: self.state.closing(waker).0, ..self },
            SendOp::Finish => SendRun { state: self.state.finished().0, ..self },
            SendOp::Close(code) => SendRun {
                state: SendView { reset: Some(code), ..self.state },
                ..self
            },
            SendOp::SetPriority(p) => SendRun {
                state: SendView { priority: Some(p), ..self.state },
                ..self
            },
            SendOp::Drop => SendRun { state: self.state.dropped(), ..self },
            SendOp::Flush(event) => {
                let (state, action) = self.state.flushed(event);
                let (granted, used) = match event {
                    SendEvent::Capacity(Ok(capacity)) => (capacity as nat, 0),
                    _ => (self.granted, self.used),
                };
                SendRun {
                    state,
                    asked: Some(action),
                    accepted: self.accepted + accepted_by(self.state, event),
                    granted,
                    used,
                    registered: match event {
                        SendEvent::Start => false,
                        SendEvent::Registered(Ok(_)) => true,
                        _ => self.registered,
                    },
                    ..self
                }
            },
        }
    }

    /// Whether everything in `ops` can happen, one after the other.
    pub open spec fn allows_all(self, ops: Seq<SendOp>) -> bool
        decreases ops.len(),
    {
        ops.len() > 0 ==> self.allows_all(ops.drop_last()) && self.steps(ops.drop_last()).allows(
            ops.last(),
        )
    }

    /// The stream after everything in `ops` happened, one after the other.
    pub open spec fn steps(self, ops: Seq<SendOp>) -> SendRun
        decreases ops.len(),
    {
        if ops.len() == 0 {
            self
        } else {
            self.steps(ops.drop_last()).step(ops.last())
        }
    }

    /// What holds of a stream at any time.
    pub open spec fn inv(self) -> bool {
        // A chunk is on its way exactly while the driver sends one.
        &&& self.state.sending is Some <==> self.asked == Some(SendAction::Send)
        // Nothing is sent on a stream that was reset or stopped.
        &&& !self.is_idle() && !(self.asked->0 is Shutdown) ==> self.state.reset is None
            && self.state.stop is None
        // What was accepted is what was written first.
        &&& self.accepted.is_prefix_of(self.written)
        // What was not accepted still waits, unless the stream was stopped or the connection failed.
        &&& self.state.stop is None && !(self.asked matches Some(SendAction::Return(Err(_))))
            ==> self.accepted + self.state.pending() == self.written
        // A FIN is sent when nothing waits any more.
        &&& self.asked == Some(SendAction::Finish) ==> self.state.fin && self.state.queued.len()
            == 0
        // What was written is taken off the room that there was.
        &&& self.used + self.state.capacity == self.granted
        // Nothing is left behind, but for what the stream will be told of.
        &&& self.asked == Some(SendAction::Capacity) ==> {
            &&& self.state.queued.len() == 0 || self.registered
            &&& !self.state.fin || self.state.queued.len() > 0
        }
    }
}

proof fn flatten_front(chunk: Seq<u8>, rest: Seq<Seq<u8>>)
    ensures
        (seq![chunk] + rest).flatten() == chunk + rest.flatten(),
{
    assert((seq![chunk] + rest).drop_first() =~= rest);
}

proof fn write_keeps_inv(run: SendRun, waker: Waker, data: Seq<u8>)
    requires
        run.inv(),
        run.is_idle(),
    ensures
        run.step(SendOp::Write(waker, data)).inv(),
{
    let next = run.step(SendOp::Write(waker, data));
    if let Poll::Ready(Ok(n)) = run.state.written(waker, data).1 {
        let bytes = data.take(n as int);
        run.state.queued.lemma_flatten_push(bytes);
        assert(run.accepted + run.state.pending() + bytes =~= run.accepted + (run.state.pending()
            + bytes));
    } else {
        assert(next.written =~= run.written);
    }
}

proof fn advance_keeps_pending(state: SendView)
    requires
        state.sending is None,
    ensures
        state.advanced().0.pending() == state.pending(),
{
}

proof fn accept_takes_pending(state: SendView, n: nat)
    requires
        state.sending is Some,
    ensures
        ({
            let chunk = state.sending->0;
            let taken = if n < chunk.len() {
                chunk.take(n as int)
            } else {
                chunk
            };
            state.pending() == taken + state.accepted(n).0.pending()
        }),
{
    let chunk = state.sending->0;
    if n < chunk.len() {
        flatten_front(chunk.skip(n as int), state.queued);
        assert(chunk.take(n as int) + (chunk.skip(n as int) + state.queued.flatten()) =~= chunk
            + state.queued.flatten());
    } else {
        advance_keeps_pending(SendView { sending: None, ..state });
    }
}

proof fn sent_keeps_inv(run: SendRun, res: Result<usize, QuicheError>)
    requires
        run.inv(),
        run.asked == Some(SendAction::Send),
    ensures
        run.step(SendOp::Flush(SendEvent::Sent(res))).inv(),
{
    let next = run.step(SendOp::Flush(SendEvent::Sent(res)));
    let chunk = run.state.sending->0;
    let taken = accepted_by(run.state, SendEvent::Sent(res));
    match res {
        Ok(n) => accept_takes_pending(run.state, n as nat),
        Err(QuicheError::Done) => {
            accept_takes_pending(run.state, 0);
            assert(chunk.take(0) =~= Seq::<u8>::empty());
        },
        Err(_) => {},
    }
    assert(taken.is_prefix_of(chunk));
    assert(run.accepted + taken + next.state.pending() =~= run.accepted + (taken
        + next.state.pending()));
    assert(run.written =~= run.accepted + (chunk + run.state.queued.flatten()));
    assert(next.accepted.is_prefix_of(run.written));
}

proof fn flush_keeps_inv(run: SendRun, event: SendEvent)
    requires
        run.inv(),
        answers(run.asked, event),
        !(event is Sent),
    ensures
        run.step(SendOp::Flush(event)).inv(),
{
    let next = run.step(SendOp::Flush(event));
    assert(next.accepted =~= run.accepted);
    advance_keeps_pending(run.state);
}

proof fn step_keeps_inv(run: SendRun, op: SendOp)
    requires
        run.inv(),
        run.allows(op),
    ensures
        run.step(op).inv(),
{
    match op {
        SendOp::Write(waker, data) => write_keeps_inv(run, waker, data),
        SendOp::Flush(SendEvent::Sent(res)) => sent_keeps_inv(run, res),
        SendOp::Flush(event) => flush_keeps_inv(run, event),
        _ => {},
    }
}

proof fn steps_keep_inv(run: SendRun, ops: Seq<SendOp>)
    requires
        run.inv(),
        run.allows_all(ops),
    ensures
        run.steps(ops).inv(),
    decreases ops.len(),
{
    if ops.len() > 0 {
        steps_keep_inv(run, ops.drop_last());
        step_keeps_inv(run.steps(ops.drop_last()), ops.last());
    }
}

/// Whatever happens to a stream, the connection accepts the bytes that were written, in order and
/// none of them twice; and what it has not accepted yet still waits, unless the peer asked to stop
/// or the connection failed.
pub proof fn bytes_are_sent_in_order(id: StreamId, ops: Seq<SendOp>)
    requires
        SendRun::new(id).allows_all(ops),
    ensures
        ({
            let run = SendRun::new(id).steps(ops);
            &&& run.accepted.is_prefix_of(run.written)
            &&& run.state.stop is None && !(run.asked matches Some(SendAction::Return(Err(_))))
                ==> run.accepted + run.state.pending() == run.written
        }),
{
    assert(SendRun::new(id).accepted + SendRun::new(id).state.pending() =~= Seq::<u8>::empty());
    steps_keep_inv(SendRun::new(id), ops);
}

/// A FIN is sent only on a stream that was finished, and once the connection accepted everything
/// that was written.
pub proof fn fin_follows_the_last_byte(id: StreamId, ops: Seq<SendOp>)
    requires
        SendRun::new(id).allows_all(ops),
        SendRun::new(id).steps(ops).asked == Some(SendAction::Finish),
    ensures
        SendRun::new(id).steps(ops).state.fin,
        SendRun::new(id).steps(ops).accepted == SendRun::new(id).steps(ops).written,
{
    assert(SendRun::new(id).accepted + SendRun::new(id).state.pending() =~= Seq::<u8>::empty());
    steps_keep_inv(SendRun::new(id), ops);
    let run = SendRun::new(id).steps(ops);
    assert(run.accepted + run.state.pending() =~= run.accepted);
}

/// A flush that comes to its end, without a failure and without being stopped, has handed on
/// everything that waited, or the stream will be told when it can go on. If the stream was finished
/// and nothing waits, its end was sent.
pub proof fn flush_hands_everything_on(id: StreamId, ops: Seq<SendOp>, event: SendEvent)
    requires
        SendRun::new(id).allows_all(ops.push(SendOp::Flush(event))),
        event matches SendEvent::Capacity(Ok(_)) || event matches SendEvent::Finished(Ok(_)),
    ensures
        ({
            let run = SendRun::new(id).steps(ops.push(SendOp::Flush(event)));
            &&& run.asked matches Some(SendAction::Return(Ok(_)))
            &&& run.state.queued.len() == 0 || run.registered
            &&& run.state.fin && run.state.queued.len() == 0 <==> event is Finished
        }),
{
    let all = ops.push(SendOp::Flush(event));
    assert(all.drop_last() =~= ops);
    assert(SendRun::new(id).accepted + SendRun::new(id).state.pending() =~= Seq::<u8>::empty());
    steps_keep_inv(SendRun::new(id), ops);
}

/// The runs that are spoken of here are those of [`SendState::flush`].
pub proof fn flush_takes_a_step(
    state: &mut SendState,
    event: SendEvent,
    action: SendAction,
    run: SendRun,
)
    requires
        call_ensures(SendState::flush, (state, event), action),
        run.state == old(state)@,
    ensures
        run.step(SendOp::Flush(event)).state == final(state)@,
        run.step(SendOp::Flush(event)).asked == Some(action),
{
}

/// The application writes no more than the connection had room for when it was asked last, and can
/// write all of that.
pub proof fn writes_keep_within_the_room(id: StreamId, ops: Seq<SendOp>)
    requires
        SendRun::new(id).allows_all(ops),
    ensures
        ({
            let run = SendRun::new(id).steps(ops);
            run.used + run.state.capacity == run.granted
        }),
{
    assert(SendRun::new(id).accepted + SendRun::new(id).state.pending() =~= Seq::<u8>::empty());
    steps_keep_inv(SendRun::new(id), ops);
}

/// Nothing is sent, and no priority set, on a stream that was reset or that the peer asked to stop.
pub proof fn closed_stream_sends_nothing(id: StreamId, ops: Seq<SendOp>)
    requires
        SendRun::new(id).allows_all(ops),
        ({
            let state = SendRun::new(id).steps(ops).state;
            state.reset is Some || state.stop is Some
        }),
    ensures
        SendRun::new(id).steps(ops).is_idle() || SendRun::new(id).steps(ops).asked->0 is Shutdown,
{
    assert(SendRun::new(id).accepted + SendRun::new(id).state.pending() =~= Seq::<u8>::empty());
    steps_keep_inv(SendRun::new(id), ops);
}

/// A stream that is closed stays closed, and accepts no further byte from the application.
pub proof fn closed_stream_stays_closed(run: SendRun, op: SendOp)
    requires
        run.state.is_closed(),
    ensures
        run.step(op).state.is_closed(),
        run.step(op).written == run.written,
{
    assert(run.written + Seq::<u8>::empty() =~= run.written);
}

/// A write that has to wait is woken once the connection has room again, once the peer asks to
/// stop, and once the stream was reset.
pub proof fn blocked_write_is_woken(
    state: SendView,
    waker: Waker,
    data: Seq<u8>,
    capacity: usize,
    code: u64,
)
    requires
        state.written(waker, data).1 is Pending,
        capacity > 0,
    ensures
        ({
            let blocked = state.written(waker, data).0;
            let woken = SendAction::Return(Ok::<Option<Waker>, QuicheError>(Some(waker)));
            let stopped = Err::<usize, QuicheError>(QuicheError::StreamStopped(code));
            &&& blocked.flushed(SendEvent::Capacity(Ok(capacity))).1 == woken
            &&& blocked.flushed(SendEvent::Capacity(stopped)).1 == woken
            &&& blocked.flushed(SendEvent::Sent(stopped)).1 == woken
            &&& blocked.flushed(SendEvent::Shutdown(Ok(()))).1 == woken
        }),
{
}

/// A stream that is given up without having been closed is reset at the next flush; one that was
/// finished still sends everything.
pub proof fn dropped_stream_is_reset(state: SendView)
    ensures
        !state.is_closed() ==> state.dropped().flushed(SendEvent::Start).1 == SendAction::Shutdown(
            DROP_CODE,
        ),
        state.is_closed() ==> state.dropped() == state,
{
}

/// Something that happens to the receiving side of a stream.
pub ghost enum RecvOp {
    /// The application reads up to so many bytes.
    Read(Waker, usize),
    /// The application waits for the end of the stream.
    Closed(Waker),
    /// The application stops the stream with a code.
    Close(u64),
    /// The application gives the stream up.
    Drop,
    /// The connection writes to the read buffer.
    Fill(Seq<u8>),
    /// The driver takes a step of a flush, which leaves the stream as given and asks for this.
    Flush(RecvEvent, RecvView, RecvAction),
}

/// The receiving side of a stream and its past.
pub ghost struct RecvRun {
    pub state: RecvView,
    /// What the driver was asked to do last, if it has flushed the stream at all.
    pub asked: Option<RecvAction>,
    /// The bytes that came from the connection.
    pub received: Seq<u8>,
    /// The bytes that the application read.
    pub read: Seq<u8>,
    /// How many bytes the application waited for last.
    pub window: nat,
    /// Whether the connection said that everything was received.
    pub ended: bool,
}

/// Whether an event answers what the driver was asked to do last.
pub open spec fn recv_answers(asked: Option<RecvAction>, event: RecvEvent) -> bool {
    match asked {
        None => event is Start,
        Some(RecvAction::Shutdown(_)) => event is Shutdown,
        Some(RecvAction::Recv) => event is Received,
        Some(RecvAction::IsFinished) => event is Finished,
        Some(RecvAction::Return(_)) => event is Start,
    }
}

/// The bytes that come from the connection with an event.
pub open spec fn received_by(state: RecvView, event: RecvEvent) -> Seq<u8> {
    match event {
        RecvEvent::Received(Ok((n, _))) => state.buf.take(n as int),
        _ => Seq::empty(),
    }
}

impl RecvRun {
    /// A stream that was just made.
    pub open spec fn new(id: StreamId) -> RecvRun {
        RecvRun {
            state: RecvView::new(id),
            asked: None,
            received: Seq::empty(),
            read: Seq::empty(),
            window: 0,
            ended: false,
        }
    }

    /// Whether no flush is under way. The stream is locked during a flush, so that the application
    /// acts only then.
    pub open spec fn is_idle(self) -> bool {
        self.asked is None || self.asked->0 is Return
    }

    /// Whether something can happen next.
    pub open spec fn allows(self, op: RecvOp) -> bool {
        match op {
            RecvOp::Fill(data) => self.asked == Some(RecvAction::Recv) && data.len()
                == self.state.buf.len(),
            RecvOp::Flush(event, next, action) => {
                &&& recv_answers(self.asked, event)
                &&& event matches RecvEvent::Received(Ok((n, _))) ==> n <= self.state.buf.len()
                &&& self.state.flushed(event).gives(next, action)
            },
            _ => self.is_idle(),
        }
    }

    /// The stream after something happened.
    pub open spec fn step(self, op: RecvOp) -> RecvRun {
        match op {
            RecvOp::Read(waker, max) => {
                let (state, res) = self.state.read(waker, max);
                match res {
                    Poll::Ready(Ok(Some(chunk))) => RecvRun {
                        state,
                        read: self.read + chunk,
                        ..self
                    },
                    Poll::Ready(_) => RecvRun { state, ..self },
                    Poll::Pending => RecvRun { state, window: max as nat, ..self },
                }
            },
            RecvOp::Closed(waker) => RecvRun { state: self.state.closing(waker).0, ..self },
            RecvOp::Close(code) => RecvRun {
                state: RecvView { stop: Some(code), ..self.state },
                ..self
            },
            RecvOp::Drop => RecvRun { state: self.state.dropped(), ..self },
            RecvOp::Fill(data) => RecvRun { state: RecvView { buf: data, ..self.state }, ..self },
            RecvOp::Flush(event, next, action) => RecvRun {
                state: next,
                asked: Some(action),
                received: self.received + received_by(self.state, event),
                ended: self.ended || match event {
                    RecvEvent::Received(Ok((_, last))) => last,
                    RecvEvent::Finished(finished) => finished,
                    _ => false,
                },
                ..self
            },
        }
    }

    /// Whether everything in `ops` can happen, one after the other.
    pub open spec fn allows_all(self, ops: Seq<RecvOp>) -> bool
        decreases ops.len(),
    {
        ops.len() > 0 ==> self.allows_all(ops.drop_last()) && self.steps(ops.drop_last()).allows(
            ops.last(),
        )
    }

    /// The stream after everything in `ops` happened, one after the other.
    pub open spec fn steps(self, ops: Seq<RecvOp>) -> RecvRun
        decreases ops.len(),
    {
        if ops.len() == 0 {
            self
        } else {
            self.steps(ops.drop_last()).step(ops.last())
        }
    }

    /// What holds of a stream at any time.
    pub open spec fn inv(self) -> bool {
        &&& self.state.wf()
        // The read buffer is empty but for the time of a read.
        &&& self.asked != Some(RecvAction::Recv) ==> self.state.is_idle()
        // What was received was read or waits to be read.
        &&& self.received == self.read + self.state.queued.flatten()
        // No more waits, or is wanted, than the application asked for.
        &&& self.state.queued.flatten().len() + self.state.max <= self.window
        // The stream is finished exactly if the connection said so.
        &&& self.state.fin == self.ended
    }
}

proof fn read_keeps_inv(run: RecvRun, waker: Waker, max: usize)
    requires
        run.inv(),
        run.is_idle(),
    ensures
        run.step(RecvOp::Read(waker, max)).inv(),
{
    let next = run.step(RecvOp::Read(waker, max));
    let queued = run.state.queued;
    if let Poll::Ready(Ok(Some(chunk))) = run.state.read(waker, max).1 {
        if queued.len() > 0 {
            let first = queued.first();
            let rest = queued.drop_first();
            if first.len() > max {
                flatten_front(first.skip(max as int), rest);
            }
            assert(chunk + next.state.queued.flatten() =~= first + rest.flatten());
            assert(run.read + chunk + next.state.queued.flatten() =~= run.read + (chunk
                + next.state.queued.flatten()));
        } else {
            assert(run.read + chunk =~= run.read);
        }
    }
}

proof fn recv_flush_keeps_inv(run: RecvRun, event: RecvEvent, next: RecvView, action: RecvAction)
    requires
        run.inv(),
        run.allows(RecvOp::Flush(event, next, action)),
    ensures
        run.step(RecvOp::Flush(event, next, action)).inv(),
{
    let data = received_by(run.state, event);
    let queued = run.state.queued;
    if let RecvEvent::Received(Ok((n, _))) = event {
        queued.lemma_flatten_push(data);
        assert(next.queued == queued.push(data));
        assert(run.received + data =~= run.read + (queued.flatten() + data));
    } else {
        assert(run.received + data =~= run.received);
        assert(next.queued == queued);
    }
}

proof fn recv_steps_keep_inv(run: RecvRun, ops: Seq<RecvOp>)
    requires
        run.inv(),
        run.allows_all(ops),
    ensures
        run.steps(ops).inv(),
    decreases ops.len(),
{
    if ops.len() > 0 {
        recv_steps_keep_inv(run, ops.drop_last());
        let before = run.steps(ops.drop_last());
        match ops.last() {
            RecvOp::Read(waker, max) => read_keeps_inv(before, waker, max),
            RecvOp::Flush(event, next, action) => recv_flush_keeps_inv(before, event, next, action),
            _ => {},
        }
    }
}

/// Whatever happens to a stream, the application reads the bytes that came from the connection, in
/// order and none of them twice, and what it has not read yet still waits.
pub proof fn bytes_are_read_in_order(id: StreamId, ops: Seq<RecvOp>)
    requires
        RecvRun::new(id).allows_all(ops),
    ensures
        ({
            let run = RecvRun::new(id).steps(ops);
            run.received == run.read + run.state.queued.flatten()
        }),
{
    assert(RecvRun::new(id).read + RecvRun::new(id).state.queued.flatten() =~= Seq::<u8>::empty());
    recv_steps_keep_inv(RecvRun::new(id), ops);
}

/// A read finds the end of the stream only once the peer finished it and everything that came from
/// the connection was read.
pub proof fn end_follows_the_last_byte(id: StreamId, ops: Seq<RecvOp>, waker: Waker, max: usize)
    requires
        RecvRun::new(id).allows_all(ops),
        RecvRun::new(id).steps(ops).state.read(waker, max).1 == Poll::Ready(
            Ok::<Option<Seq<u8>>, StreamError>(None),
        ),
    ensures
        RecvRun::new(id).steps(ops).state.fin,
        RecvRun::new(id).steps(ops).read == RecvRun::new(id).steps(ops).received,
{
    bytes_are_read_in_order(id, ops);
    let run = RecvRun::new(id).steps(ops);
    assert(run.read + run.state.queued.flatten() =~= run.read);
}

/// A read finds the end of a stream exactly once the connection said that everything was received,
/// with or without data, and everything was read, unless the stream was broken off. So whoever
/// reads on reaches the end.
pub proof fn end_is_found(id: StreamId, ops: Seq<RecvOp>, waker: Waker, max: usize)
    requires
        RecvRun::new(id).allows_all(ops),
    ensures
        ({
            let run = RecvRun::new(id).steps(ops);
            run.state.read(waker, max).1 == Poll::Ready(Ok::<Option<Seq<u8>>, StreamError>(None))
                <==> run.ended && run.state.queued.len() == 0 && run.state.reset is None
                && run.state.stop is None
        }),
{
    assert(RecvRun::new(id).read + RecvRun::new(id).state.queued.flatten() =~= Seq::<u8>::empty());
    recv_steps_keep_inv(RecvRun::new(id), ops);
}

/// The runs that are spoken of here are those of [`RecvState::flush`] and of its reads.
pub proof fn recv_flush_takes_a_step(
    state: &mut RecvState,
    event: RecvEvent,
    action: RecvAction,
    run: RecvRun,
)
    requires
        old(state)@.wf(),
        old(state)@.expects(event),
        call_ensures(RecvState::flush, (state, event), action),
        run.state == old(state)@,
        recv_answers(run.asked, event),
    ensures
        run.allows(RecvOp::Flush(event, final(state)@, action)),
        run.step(RecvOp::Flush(event, final(state)@, action)).state == final(state)@,
{
}

/// A stream holds no more data than the application waited for last: nothing is taken from the
/// connection before it is wanted.
pub proof fn nothing_is_received_unwanted(id: StreamId, ops: Seq<RecvOp>)
    requires
        RecvRun::new(id).allows_all(ops),
    ensures
        ({
            let run = RecvRun::new(id).steps(ops);
            run.state.queued.flatten().len() + run.state.max <= run.window
        }),
{
    assert(RecvRun::new(id).read + RecvRun::new(id).state.queued.flatten() =~= Seq::<u8>::empty());
    recv_steps_keep_inv(RecvRun::new(id), ops);
}

/// The read buffer is empty but for the time of a read, so that the application and the start of a
/// flush always find it empty.
pub proof fn read_buffer_is_empty(id: StreamId, ops: Seq<RecvOp>)
    requires
        RecvRun::new(id).allows_all(ops),
    ensures
        ({
            let run = RecvRun::new(id).steps(ops);
            &&& run.state.wf()
            &&& run.asked != Some(RecvAction::Recv) ==> run.state.is_idle()
        }),
{
    assert(RecvRun::new(id).read + RecvRun::new(id).state.queued.flatten() =~= Seq::<u8>::empty());
    recv_steps_keep_inv(RecvRun::new(id), ops);
}

/// A read that has to wait is woken once data was received, once the peer finished or reset the
/// stream, and once the stream was stopped.
pub proof fn blocked_read_is_woken(state: RecvView, waker: Waker, max: usize, code: u64)
    requires
        state.read(waker, max).1 is Pending,
    ensures
        ({
            let blocked = state.read(waker, max).0;
            let changed = RecvView { changed: true, ..blocked };
            let woken = RecvAction::Return(Ok::<Option<Waker>, QuicheError>(Some(waker)));
            let reset = Err::<(usize, bool), QuicheError>(QuicheError::StreamReset(code));
            &&& changed.flushed(RecvEvent::Finished(false))->Act_1 == woken
            &&& blocked.flushed(RecvEvent::Finished(true))->Act_1 == woken
            &&& blocked.flushed(RecvEvent::Received(reset))->Act_1 == woken
            &&& blocked.flushed(RecvEvent::Shutdown(Ok(())))->Act_1 == woken
        }),
{
}

/// Nobody is woken by the first flush of a new stream: its receiving side asks for nothing, and
/// its sending side only for its capacity.
pub proof fn new_stream_wakes_nobody(id: StreamId, capacity: usize)
    ensures
        RecvView::new(id).flushed(RecvEvent::Start) == RecvOutcome::Act(
            RecvView::new(id),
            RecvAction::Return(Ok(None)),
        ),
        SendView::new(id).flushed(SendEvent::Start) == (SendView::new(id), SendAction::Capacity),
        SendView::new(id).flushed(SendEvent::Capacity(Ok(capacity))) == (
            SendView { capacity, ..SendView::new(id) },
            SendAction::Return(Ok(None)),
        ),
{
}

/// What is read at one end of a stream is what was written at the other end, in order, as far as
/// the connection delivers what it accepts in order.
pub proof fn reader_reads_what_was_written(
    sender: StreamId,
    send_ops: Seq<SendOp>,
    reader: StreamId,
    recv_ops: Seq<RecvOp>,
)
    requires
        SendRun::new(sender).allows_all(send_ops),
        RecvRun::new(reader).allows_all(recv_ops),
        RecvRun::new(reader).steps(recv_ops).received.is_prefix_of(
            SendRun::new(sender).steps(send_ops).accepted,
        ),
    ensures
        RecvRun::new(reader).steps(recv_ops).read.is_prefix_of(
            SendRun::new(sender).steps(send_ops).written,
        ),
{
    bytes_are_sent_in_order(sender, send_ops);
    bytes_are_read_in_order(reader, recv_ops);
    let send = SendRun::new(sender).steps(send_ops);
    let recv = RecvRun::new(reader).steps(recv_ops);
    assert(recv.read =~= recv.received.take(recv.read.len() as int));
    assert(recv.received =~= send.accepted.take(recv.received.len() as int));
    assert(send.accepted =~= send.written.take(send.accepted.len() as int));
    assert(recv.read =~= send.written.take(recv.read.len() as int));
}

/// A reader that finds the end of a stream has read everything that was written before the FIN, if
/// the connection delivered everything that it accepted.
pub proof fn reader_reads_everything(
    sender: StreamId,
    send_ops: Seq<SendOp>,
    reader: StreamId,
    recv_ops: Seq<RecvOp>,
    waker: Waker,
    max: usize,
)
    requires
        SendRun::new(sender).allows_all(send_ops),
        SendRun::new(sender).steps(send_ops).asked == Some(SendAction::Finish),
        RecvRun::new(reader).allows_all(recv_ops),
        RecvRun::new(reader).steps(recv_ops).received == SendRun::new(sender).steps(
            send_ops,
        ).accepted,
        RecvRun::new(reader).steps(recv_ops).state.read(waker, max).1 == Poll::Ready(
            Ok::<Option<Seq<u8>>, StreamError>(None),
        ),
    ensures
        RecvRun::new(reader).steps(recv_ops).read == SendRun::new(sender).steps(send_ops).written,
{
    fin_follows_the_last_byte(sender, send_ops);
    end_follows_the_last_byte(reader, recv_ops, waker, max);
}

} // verus!
