//! What becomes of a stream that is written to: each write takes what there is room for, each flush
//! hands on what waits, and the end of the stream is what the application made it.

use std::task::Waker;

use bytes::Bytes;
use vstd::prelude::*;

use super::connection::DriverState;
use super::error::QuicheError;
use super::send::{SendAction, SendEvent, SendState, SendStream, SendView, WriteAll};
use super::stream::{StreamError, StreamId};
use crate::buffer;
use crate::task::Poll;

verus! {

/// A write to a stream: it takes as many bytes as there is room for and as it has, and these come
/// after all that waits already; without room it waits; a stream that was broken off or finished
/// refuses it, and says why. Nothing else changes.
pub open spec fn is_write(
    old: SendView,
    waker: Waker,
    data: Seq<u8>,
    new: SendView,
    res: Poll<Result<usize, StreamError>>,
) -> bool {
    &&& old.reset matches Some(code) ==> res == Poll::Ready(
        Err::<usize, StreamError>(StreamError::Reset(code)),
    )
    &&& old.reset is None && old.stop is Some ==> res == Poll::Ready(
        Err::<usize, StreamError>(StreamError::Stop(old.stop->0)),
    )
    &&& old.reset is None && old.stop is None && old.fin ==> res == Poll::Ready(
        Err::<usize, StreamError>(StreamError::Closed),
    )
    &&& old.reset is None && old.stop is None && !old.fin ==> {
        &&& res is Pending <==> old.capacity == 0
        &&& old.capacity > 0 ==> {
            &&& res is Ready
            &&& res->Ready_0 is Ok
            &&& res->Ready_0->Ok_0 <= old.capacity
            &&& res->Ready_0->Ok_0 <= data.len()
            &&& res->Ready_0->Ok_0 == old.capacity || res->Ready_0->Ok_0 == data.len()
            &&& new.queued.flatten() == old.queued.flatten() + data.take(
                res->Ready_0->Ok_0 as int,
            )
            &&& new.capacity + res->Ready_0->Ok_0 == old.capacity
            &&& new.blocked == old.blocked
        }
    }
    &&& res is Pending ==> new == (SendView { blocked: Some(waker), ..old })
    &&& res matches Poll::Ready(Err(_)) ==> new == old
    &&& new.id == old.id
    &&& new.sending == old.sending
    &&& new.fin == old.fin
    &&& new.reset == old.reset
    &&& new.stop == old.stop
    &&& new.priority == old.priority
}

proof fn written_is_write(old: SendView, waker: Waker, data: Seq<u8>)
    requires
        data.len() <= usize::MAX,
    ensures
        is_write(old, waker, data, old.written(waker, data).0, old.written(waker, data).1),
{
    let (new, res) = old.written(waker, data);
    if let Poll::Ready(Ok(n)) = res {
        old.queued.lemma_flatten_push(data.take(n as int));
    }
}

/// A write takes what there is room for, whether it is made on the state or on its handle; a handle
/// tells the driver of it, unless it has to wait.
pub proof fn write_takes_what_fits(
    state: &mut SendState,
    stream: &mut SendStream,
    driver: &mut DriverState,
    waker: Waker,
    data: &[u8],
    by_state: Poll<Result<usize, StreamError>>,
    by_stream: (Poll<Result<usize, StreamError>>, Option<Waker>),
)
    requires
        call_ensures(SendState::poll_write, (state, waker, data), by_state),
        call_ensures(SendStream::write, (stream, driver, waker, data), by_stream),
    ensures
        is_write(old(state)@, waker, data@, final(state)@, by_state),
        is_write(old(stream)@, waker, data@, final(stream)@, by_stream.0),
        by_stream.0 is Ready ==> final(driver)@.send.streams.contains(old(stream)@.id.0),
        by_stream.0 is Ready && !old(driver)@.send.streams.contains(old(stream)@.id.0)
            ==> by_stream.1 == old(driver)@.send.waker,
        by_stream.0 is Pending ==> final(driver)@ == old(driver)@ && by_stream.1 is None,
{
    vstd::slice::axiom_spec_len(data);
    written_is_write(old(state)@, waker, data@);
    written_is_write(old(stream)@, waker, data@);
}

/// A write of a buffer takes the bytes that it writes off the front of the buffer, and no others.
pub proof fn write_takes_off_the_buffer(
    state: &mut SendState,
    buf: &mut Bytes,
    stream: &mut SendStream,
    driver: &mut DriverState,
    other: &mut Bytes,
    waker: Waker,
    by_state: Poll<Result<usize, StreamError>>,
    by_stream: (Poll<Result<usize, StreamError>>, Option<Waker>),
)
    requires
        buffer::bytes_of(*old(buf)).len() <= usize::MAX,
        buffer::bytes_of(*old(other)).len() <= usize::MAX,
        call_ensures(SendState::poll_write_buf, (state, waker, buf), by_state),
        call_ensures(SendStream::write_buf, (stream, driver, waker, other), by_stream),
    ensures
        is_write(old(state)@, waker, buffer::bytes_of(*old(buf)), final(state)@, by_state),
        by_state matches Poll::Ready(Ok(n)) ==> buffer::bytes_of(*old(buf)).take(n as int)
            + buffer::bytes_of(*final(buf)) == buffer::bytes_of(*old(buf)),
        !(by_state matches Poll::Ready(Ok(_))) ==> buffer::bytes_of(*final(buf))
            == buffer::bytes_of(*old(buf)),
        is_write(old(stream)@, waker, buffer::bytes_of(*old(other)), final(stream)@, by_stream.0),
        by_stream.0 matches Poll::Ready(Ok(n)) ==> buffer::bytes_of(*old(other)).take(n as int)
            + buffer::bytes_of(*final(other)) == buffer::bytes_of(*old(other)),
        !(by_stream.0 matches Poll::Ready(Ok(_))) ==> buffer::bytes_of(*final(other))
            == buffer::bytes_of(*old(other)),
        by_stream.0 is Ready ==> final(driver)@.send.streams.contains(old(stream)@.id.0),
        by_stream.0 is Pending ==> final(driver)@ == old(driver)@ && by_stream.1 is None,
{
    written_is_write(old(state)@, waker, buffer::bytes_of(*old(buf)));
    written_is_write(old(stream)@, waker, buffer::bytes_of(*old(other)));
    if let Poll::Ready(Ok(n)) = by_state {
        let all = buffer::bytes_of(*old(buf));
        assert(all.take(n as int) + all.skip(n as int) =~= all);
    }
    if let Poll::Ready(Ok(n)) = by_stream.0 {
        let all = buffer::bytes_of(*old(other));
        assert(all.take(n as int) + all.skip(n as int) =~= all);
    }
}

/// Room that was taken for some bytes, and then the bytes, make a write of them.
pub proof fn reserved_bytes_are_written(
    reserving: &mut SendState,
    waker: Waker,
    data: Seq<u8>,
    remaining: usize,
    room: Poll<Result<usize, StreamError>>,
    enqueueing: &mut SendState,
    chunk: Bytes,
)
    requires
        data.len() == remaining,
        call_ensures(SendState::poll_reserve, (reserving, waker, remaining), room),
        final(reserving)@ == old(enqueueing)@,
        call_ensures(SendState::enqueue, (enqueueing, chunk), ()),
    ensures
        room matches Poll::Ready(Ok(n)) ==> (buffer::bytes_of(chunk) == data.take(n as int)
            ==> is_write(old(reserving)@, waker, data, final(enqueueing)@, room)),
        !(room matches Poll::Ready(Ok(_))) ==> is_write(
            old(reserving)@,
            waker,
            data,
            final(reserving)@,
            room,
        ),
{
    written_is_write(old(reserving)@, waker, data);
}

/// What a flush does next once no chunk is on its way: it hands the first chunk that waits to the
/// connection; without one it sends the end of a stream that was finished; and it asks for the room
/// of one that was not.
pub open spec fn hands_on(old: SendView, new: SendView, action: SendAction) -> bool {
    &&& old.queued.len() > 0 ==> {
        &&& action == SendAction::Send
        &&& new.sending == Some(old.queued[0])
        &&& old.queued == seq![old.queued[0]] + new.queued
    }
    &&& old.queued.len() == 0 ==> {
        &&& action == if old.fin {
            SendAction::Finish
        } else {
            SendAction::Capacity
        }
        &&& new.sending is None
        &&& new.queued.len() == 0
    }
    &&& new.capacity == old.capacity
    &&& new.blocked == old.blocked
    &&& new.fin == old.fin
    &&& new.reset == old.reset
    &&& new.stop == old.stop
}

/// A flush begins with what is most urgent: a stream that was reset is shut down with the code of
/// the reset, one that the peer asked to stop only wakes who waits, a priority is set, and else
/// what waits is handed on.
pub proof fn flush_begins_with_the_urgent(state: &mut SendState, action: SendAction)
    requires
        old(state)@.sending is None,
        call_ensures(SendState::flush, (state, SendEvent::Start), action),
    ensures
        old(state)@.reset matches Some(code) ==> action == SendAction::Shutdown(code) && final(
            state)@ == old(state)@,
        old(state)@.reset is None && old(state)@.stop is Some ==> {
            &&& action == SendAction::Return(Ok(old(state)@.blocked))
            &&& final(state)@ == (SendView { blocked: None, ..old(state)@ })
        },
        old(state)@.reset is None && old(state)@.stop is None && old(state)@.priority is Some ==> {
            &&& action == SendAction::Prioritize(old(state)@.priority->0)
            &&& final(state)@ == (SendView { priority: None, ..old(state)@ })
        },
        old(state)@.reset is None && old(state)@.stop is None && old(state)@.priority is None
            ==> hands_on(old(state)@, final(state)@, action),
{
    front_of(old(state)@.queued);
}

proof fn front_of(queued: Seq<Seq<u8>>)
    ensures
        queued.len() > 0 ==> queued == seq![queued[0]] + queued.drop_first(),
{
    if queued.len() > 0 {
        assert(queued =~= seq![queued[0]] + queued.drop_first());
    }
}

/// What the connection accepted of a chunk is gone, and what it did not accept waits as the first:
/// nothing is lost and nothing sent twice. A chunk that was accepted whole is followed by the next;
/// after one that was not, the stream asks to be told when it can go on.
pub proof fn accepted_bytes_are_gone(
    state: &mut SendState,
    chunk: Seq<u8>,
    res: Result<usize, QuicheError>,
    action: SendAction,
    n: nat,
)
    requires
        old(state)@.sending == Some(chunk),
        res matches Ok(m) && m == n || res == Err::<usize, _>(QuicheError::Done) && n == 0,
        call_ensures(SendState::flush, (state, SendEvent::Sent(res)), action),
    ensures
        n < chunk.len() ==> {
            &&& action == SendAction::Register
            &&& final(state)@.sending is None
            &&& chunk + old(state)@.queued.flatten() == chunk.take(n as int) + final(
                state)@.queued.flatten()
            &&& final(state)@.queued.len() > 0
            &&& final(state)@ == (SendView {
                queued: final(state)@.queued,
                sending: None,
                ..old(state)@
            })
        },
        n >= chunk.len() ==> hands_on(
            (SendView { sending: None, ..old(state)@ }),
            final(state)@,
            action,
        ),
{
    front_of(old(state)@.queued);
    if n < chunk.len() {
        let rest = seq![chunk.skip(n as int)];
        let all = rest + old(state)@.queued;
        assert(all.drop_first() =~= old(state)@.queued);
        assert(chunk + old(state)@.queued.flatten() =~= chunk.take(n as int) + (chunk.skip(
            n as int,
        ) + old(state)@.queued.flatten()));
    }
}

/// Once a priority was set the flush goes on with what waits. Once the stream will be told when it
/// can go on, the end is sent if nothing waits and the stream was finished; otherwise the stream
/// asks for its room.
pub proof fn flush_goes_on(
    state: &mut SendState,
    prioritized: SendAction,
    other: &mut SendState,
    writable: bool,
    registered: SendAction,
)
    requires
        old(state)@.sending is None,
        call_ensures(SendState::flush, (state, SendEvent::Prioritized(Ok(()))), prioritized),
        call_ensures(SendState::flush, (other, SendEvent::Registered(Ok(writable))), registered),
    ensures
        hands_on(old(state)@, final(state)@, prioritized),
        registered == SendAction::Finish <==> old(other)@.fin && old(other)@.queued.len() == 0,
        registered == SendAction::Capacity <==> !(old(other)@.fin && old(other)@.queued.len()
            == 0),
        final(other)@ == old(other)@,
{
    front_of(old(state)@.queued);
}

/// The room that the connection has is the room that the application gets, and whoever waits for it
/// is woken exactly if there is some. A stream that was shut down or whose end was sent wakes
/// whoever waits.
pub proof fn room_is_passed_on(
    state: &mut SendState,
    capacity: usize,
    action: SendAction,
    ended: &mut SendState,
    event: SendEvent,
    end: SendAction,
)
    requires
        call_ensures(SendState::flush, (state, SendEvent::Capacity(Ok(capacity))), action),
        event matches SendEvent::Shutdown(Ok(_)) || event matches SendEvent::Finished(Ok(_)),
        call_ensures(SendState::flush, (ended, event), end),
    ensures
        final(state)@.capacity == capacity,
        capacity > 0 ==> {
            &&& action == SendAction::Return(Ok(old(state)@.blocked))
            &&& final(state)@ == (SendView { capacity, blocked: None, ..old(state)@ })
        },
        capacity == 0 ==> {
            &&& action == SendAction::Return(Ok(None))
            &&& final(state)@ == (SendView { capacity, ..old(state)@ })
        },
        end == SendAction::Return(Ok(old(ended)@.blocked)),
        final(ended)@ == (SendView { blocked: None, ..old(ended)@ }),
{
}

/// Whether an event says that the connection failed, with the given error.
pub open spec fn fails_with(event: SendEvent, err: QuicheError) -> bool {
    ||| event == SendEvent::Shutdown(Err(err))
    ||| event == SendEvent::Prioritized(Err(err))
    ||| event == SendEvent::Sent(Err(err)) && !(err is Done) && !(err is StreamStopped)
    ||| event == SendEvent::Registered(Err(err))
    ||| event == SendEvent::Finished(Err(err))
    ||| event == SendEvent::Capacity(Err(err)) && !(err is StreamStopped)
}

/// A stop by the peer is kept with its code, whatever the code, and wakes whoever waits; every
/// other error ends the flush, and is the error that it ends with. A flush ends with no other
/// error.
pub proof fn stop_and_failure_are_passed_on(
    state: &mut SendState,
    event: SendEvent,
    action: SendAction,
    code: u64,
    err: QuicheError,
)
    requires
        call_ensures(SendState::flush, (state, event), action),
    ensures
        event == SendEvent::Sent(Err(QuicheError::StreamStopped(code))) || event
            == SendEvent::Capacity(Err(QuicheError::StreamStopped(code))) ==> {
            &&& final(state)@.stop == Some(code)
            &&& action == SendAction::Return(Ok(old(state)@.blocked))
            &&& final(state)@ == (SendView {
                stop: Some(code),
                sending: None,
                blocked: None,
                ..old(state)@
            })
        },
        fails_with(event, err) <==> action == SendAction::Return(Err(err)),
        fails_with(event, err) ==> final(state)@.blocked == old(state)@.blocked,
{
}

/// What the application makes of a stream is what the next flush tells the connection, and the
/// driver is told of it: a reset is sent with its code, a finished stream sends its end once
/// nothing waits, a priority is set.
pub proof fn application_decides_the_end(
    closing: &mut SendStream,
    code: u64,
    driver: &mut DriverState,
    woken: Option<Waker>,
    flushed: &mut SendState,
    shutdown: SendAction,
    finishing: &mut SendStream,
    finish_driver: &mut DriverState,
    finished: Result<Option<Waker>, StreamError>,
    ended: &mut SendState,
    end: SendAction,
)
    requires
        call_ensures(SendStream::close, (closing, driver, code), woken),
        final(closing)@ == old(flushed)@,
        call_ensures(SendState::flush, (flushed, SendEvent::Start), shutdown),
        call_ensures(SendStream::finish, (finishing, finish_driver), finished),
        final(finishing)@ == old(ended)@,
        call_ensures(SendState::flush, (ended, SendEvent::Start), end),
    ensures
        shutdown == SendAction::Shutdown(code),
        final(driver)@.send.streams.contains(old(closing)@.id.0),
        final(closing)@.queued == old(closing)@.queued,
        old(finishing)@.reset is None && old(finishing)@.stop is None && !old(finishing)@.fin ==> {
            &&& finished is Ok
            &&& final(finish_driver)@.send.streams.contains(old(finishing)@.id.0)
            &&& final(finishing)@ == (SendView { fin: true, ..old(finishing)@ })
            &&& old(finishing)@.queued.len() == 0 && old(finishing)@.priority is None ==> end
                == SendAction::Finish
            &&& old(finishing)@.queued.len() > 0 && old(finishing)@.priority is None ==> end
                == SendAction::Send
        },
        old(finishing)@.reset is Some ==> finished == Err::<Option<Waker>, _>(
            StreamError::Reset(old(finishing)@.reset->0),
        ),
        old(finishing)@.reset is None && old(finishing)@.stop is Some ==> finished == Err::<
            Option<Waker>,
            _,
        >(StreamError::Stop(old(finishing)@.stop->0)),
        old(finishing)@.reset is None && old(finishing)@.stop is None && old(finishing)@.fin
            ==> finished == Err::<Option<Waker>, _>(StreamError::Closed),
        finished is Err ==> final(finishing)@ == old(finishing)@ && final(finish_driver)@ == old(
            finish_driver)@,
{
}

/// A priority that the application sets is the one that the next flush sets, whatever it is, unless
/// the stream was broken off; it is set once.
pub proof fn priority_is_set_once(
    setting: &mut SendStream,
    driver: &mut DriverState,
    priority: u8,
    woken: Option<Waker>,
    flushed: &mut SendState,
    action: SendAction,
)
    requires
        call_ensures(SendStream::set_priority, (setting, driver, priority), woken),
        final(setting)@ == old(flushed)@,
        call_ensures(SendState::flush, (flushed, SendEvent::Start), action),
    ensures
        final(setting)@ == (SendView { priority: Some(priority), ..old(setting)@ }),
        final(driver)@.send.streams.contains(old(setting)@.id.0),
        old(setting)@.reset is None && old(setting)@.stop is None ==> {
            &&& action == SendAction::Prioritize(priority)
            &&& final(flushed)@.priority is None
        },
{
}

/// A stream that is given up without having been finished or broken off is reset, with a code that
/// says so, at the next flush, and the driver is told of it; any other stays as it is.
pub proof fn dropped_stream_is_reset(
    dropped: &mut SendStream,
    driver: &mut DriverState,
    woken: Option<Waker>,
    flushed: &mut SendState,
    action: SendAction,
)
    requires
        call_ensures(SendStream::drop_handle, (dropped, driver), woken),
        final(dropped)@ == old(flushed)@,
        call_ensures(SendState::flush, (flushed, SendEvent::Start), action),
    ensures
        old(dropped)@.reset is None && old(dropped)@.stop is None && !old(dropped)@.fin ==> {
            &&& action == SendAction::Shutdown(0x656E646464726F70)
            &&& final(driver)@.send.streams.contains(old(dropped)@.id.0)
        },
        old(dropped)@.reset is Some || old(dropped)@.stop is Some || old(dropped)@.fin ==> {
            &&& final(dropped)@ == old(dropped)@
            &&& final(driver)@ == old(driver)@
            &&& woken is None
        },
{
}

/// A stream has ended without an error exactly once it was finished and everything was handed to
/// the connection, unless either side broke it off, which is an error with its code. Until then
/// whoever asks waits. It counts as closed as soon as it was finished or broken off.
pub proof fn end_of_sending(
    stream: &mut SendStream,
    waker: Waker,
    res: Poll<Result<(), StreamError>>,
    is_closed: bool,
    state: &mut SendState,
    same: Poll<Result<(), StreamError>>,
)
    requires
        call_ensures(SendStream::is_closed, (&*stream,), is_closed),
        call_ensures(SendStream::closed, (stream, waker), res),
        old(state)@ == old(stream)@,
        call_ensures(SendState::poll_closed, (state, waker), same),
    ensures
        is_closed <==> old(stream)@.fin || old(stream)@.reset is Some || old(stream)@.stop is Some,
        old(stream)@.reset matches Some(code) ==> res == Poll::Ready(
            Err::<(), StreamError>(StreamError::Reset(code)),
        ),
        old(stream)@.reset is None && old(stream)@.stop is Some ==> res == Poll::Ready(
            Err::<(), StreamError>(StreamError::Stop(old(stream)@.stop->0)),
        ),
        res == Poll::Ready(Ok::<(), StreamError>(())) <==> old(stream)@.reset is None && old(
            stream)@.stop is None && old(stream)@.fin && old(stream)@.queued.len() == 0,
        res is Pending <==> old(stream)@.reset is None && old(stream)@.stop is None && !(old(
            stream)@.fin && old(stream)@.queued.len() == 0),
        res is Pending ==> final(stream)@ == (SendView { blocked: Some(waker), ..old(stream)@ }),
        same == res,
        final(state)@ == final(stream)@,
{
}

/// A handle is the handle of its state, which has the identifier that it was made with and nothing
/// to send.
pub proof fn new_stream_is_open(
    id: StreamId,
    state: SendState,
    stream: SendStream,
    ids: (StreamId, StreamId),
    in_flight: Option<&Bytes>,
    shared: &mut SendStream,
    inner: &mut SendState,
)
    requires
        call_ensures(SendState::new, (id,), state),
        call_ensures(SendStream::new, (state,), stream),
        call_ensures(SendState::id, (&state,), ids.0),
        call_ensures(SendStream::id, (&stream,), ids.1),
        call_ensures(SendState::in_flight, (&state,), in_flight),
        call_ensures(SendStream::state, (shared,), inner),
    ensures
        ids == (id, id),
        in_flight is None,
        stream@ == state@,
        state@.queued.len() == 0,
        state@.capacity == 0,
        !state@.fin && state@.reset is None && state@.stop is None && state@.priority is None,
        state@.blocked is None,
        old(inner)@ == old(shared)@,
        final(shared)@ == final(inner)@,
{
}

/// The chunk that is on its way is the one that is handed to the connection.
pub proof fn chunk_on_its_way_is_sent(state: SendState, in_flight: Option<&Bytes>)
    requires
        call_ensures(SendState::in_flight, (&state,), in_flight),
    ensures
        in_flight is Some <==> state@.sending is Some,
        in_flight matches Some(chunk) ==> state@.sending == Some(buffer::bytes_of(*chunk)),
{
}

/// A whole buffer is written from its beginning, each time from where the last write stopped, until
/// its end; an error ends it.
pub proof fn whole_buffer_is_written<E>(
    len: usize,
    all: WriteAll,
    first: Option<usize>,
    writing: &mut WriteAll,
    before: Option<usize>,
    res: Result<usize, E>,
    outcome: Result<(), E>,
    written: WriteAll,
    after: Option<usize>,
)
    requires
        call_ensures(WriteAll::new, (len,), all),
        call_ensures(WriteAll::next, (&all,), first),
        old(writing).wf(),
        old(writing).total() == len,
        call_ensures(WriteAll::next, (&*writing,), before),
        before is Some,
        res matches Ok(n) ==> before->0 + n <= len,
        call_ensures(WriteAll::wrote::<E>, (writing, res), outcome),
        *final(writing) == written,
        call_ensures(WriteAll::next, (&written,), after),
    ensures
        all.wf(),
        all.total() == len,
        first == if len > 0 {
            Some(0usize)
        } else {
            None
        },
        outcome is Err <==> res is Err,
        outcome matches Err(e) ==> res == Err::<usize, E>(e),
        res matches Ok(n) ==> (after == if before->0 + n < len {
            Some((before->0 + n) as usize)
        } else {
            None
        }),
        written.wf(),
        written.total() == len,
{
}

} // verus!
