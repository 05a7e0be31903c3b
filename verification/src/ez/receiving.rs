//! What becomes of a stream that is read from: each flush takes what is wanted, each read gives what
//! came first, and the end of the stream is found once everything was read.

use std::task::Waker;

use bytes::Bytes;
use vstd::prelude::*;

use super::connection::DriverState;
use super::error::QuicheError;
use super::recv;
use super::recv::{ReadAll, ReadAllStep, RecvAction, RecvEvent, RecvState, RecvStream, RecvView};
use super::stream::{StreamError, StreamId};
use crate::buffer;
use crate::task::Poll;

verus! {

/// A read of up to `max` bytes: it gives the front of the first chunk that waits, as much of it as
/// is asked for, and the rest of what waits stays in order. Without a chunk it finds the end of a
/// stream that the peer finished, and otherwise waits for `max` bytes. A stream that was broken off
/// gives nothing, and says why. Nothing else changes.
pub open spec fn is_read(
    old: RecvView,
    waker: Waker,
    max: nat,
    new: RecvView,
    res: Poll<Result<Option<Seq<u8>>, StreamError>>,
) -> bool {
    &&& old.reset matches Some(code) ==> res == Poll::Ready(
        Err::<Option<Seq<u8>>, StreamError>(StreamError::Reset(code)),
    )
    &&& old.reset is None && old.stop is Some ==> res == Poll::Ready(
        Err::<Option<Seq<u8>>, StreamError>(StreamError::Stop(old.stop->0)),
    )
    &&& old.reset is None && old.stop is None && old.queued.len() > 0 ==> {
        &&& res is Ready
        &&& res->Ready_0 is Ok
        &&& res->Ready_0->Ok_0 is Some
        &&& res->Ready_0->Ok_0->0 + new.queued.flatten() == old.queued.flatten()
        &&& res->Ready_0->Ok_0->0.len() <= max
        &&& res->Ready_0->Ok_0->0.len() == max || res->Ready_0->Ok_0->0 == old.queued[0]
        &&& res->Ready_0->Ok_0->0.len() <= old.queued[0].len()
        &&& res->Ready_0->Ok_0->0 == old.queued[0] ==> new.queued == old.queued.drop_first()
        &&& new == (RecvView { queued: new.queued, ..old })
    }
    &&& old.reset is None && old.stop is None && old.queued.len() == 0 ==> {
        &&& res == Poll::Ready(Ok::<Option<Seq<u8>>, StreamError>(None)) <==> old.fin
        &&& !old.fin && max == 0 ==> res == Poll::Ready(
            Ok::<Option<Seq<u8>>, StreamError>(Some(Seq::empty())),
        )
        &&& res is Pending <==> !old.fin && max > 0
    }
    &&& res is Pending ==> new == (RecvView { max: max as usize, blocked: Some(waker), ..old })
    &&& res matches Poll::Ready(Err(_)) ==> new == old
    &&& res matches Poll::Ready(Ok(None)) ==> new == old
}

proof fn read_is_read(old: RecvView, waker: Waker, max: usize)
    ensures
        is_read(old, waker, max as nat, old.read(waker, max).0, old.read(waker, max).1),
{
    let (new, res) = old.read(waker, max);
    if old.queued.len() > 0 && old.reset is None && old.stop is None {
        let first = old.queued[0];
        let rest = old.queued.drop_first();
        if first.len() > max {
            let all = seq![first.skip(max as int)] + rest;
            assert(all.drop_first() =~= rest);
            assert(first.take(max as int) + (first.skip(max as int) + rest.flatten()) =~= first
                + rest.flatten());
        }
    }
}

/// A read gives what came first, whether it is made on the state or on its handle; a handle tells
/// the driver of it exactly if it has to wait.
pub proof fn read_gives_what_came_first(
    state: &mut RecvState,
    stream: &mut RecvStream,
    driver: &mut DriverState,
    waker: Waker,
    max: usize,
    by_state: Poll<Result<Option<Bytes>, StreamError>>,
    by_stream: (Poll<Result<Option<Bytes>, StreamError>>, Option<Waker>),
)
    requires
        old(state)@.wf() && old(state)@.is_idle(),
        old(stream)@.wf() && old(stream)@.is_idle(),
        call_ensures(RecvState::poll_read_chunk, (state, waker, max), by_state),
        call_ensures(RecvStream::read_chunk, (stream, driver, waker, max), by_stream),
    ensures
        is_read(old(state)@, waker, max as nat, final(state)@, recv::chunk_view(by_state)),
        is_read(old(stream)@, waker, max as nat, final(stream)@, recv::chunk_view(by_stream.0)),
        by_state matches Poll::Ready(Ok(Some(chunk))) ==> recv::chunk_view(by_state) == Poll::Ready(
            Ok::<Option<Seq<u8>>, StreamError>(Some(buffer::bytes_of(chunk))),
        ),
        by_state is Pending <==> recv::chunk_view(by_state) is Pending,
        by_state == Poll::Ready(Ok::<Option<Bytes>, StreamError>(None)) <==> recv::chunk_view(
            by_state,
        ) == Poll::Ready(Ok::<Option<Seq<u8>>, StreamError>(None)),
        by_state matches Poll::Ready(Err(err)) ==> recv::chunk_view(by_state) == Poll::Ready(
            Err::<Option<Seq<u8>>, StreamError>(err),
        ),
        by_stream.0 is Pending ==> final(driver)@.recv.streams.contains(old(stream)@.id.0),
        by_stream.0 is Pending && !old(driver)@.recv.streams.contains(old(stream)@.id.0)
            ==> by_stream.1 == old(driver)@.recv.waker,
        by_stream.0 is Ready ==> final(driver)@ == old(driver)@ && by_stream.1 is None,
{
    read_is_read(old(state)@, waker, max);
    read_is_read(old(stream)@, waker, max);
}

/// A read into a slice puts the bytes that it gives at the front of the slice, says how many there
/// are, and leaves the rest of the slice alone.
pub proof fn read_fills_the_slice(
    stream: &mut RecvStream,
    driver: &mut DriverState,
    waker: Waker,
    buf: &mut [u8],
    res: (Poll<Result<Option<usize>, StreamError>>, Option<Waker>),
)
    requires
        old(stream)@.wf() && old(stream)@.is_idle(),
        old(buf)@.len() <= usize::MAX,
        call_ensures(RecvStream::read, (stream, driver, waker, buf), res),
    ensures
        final(buf)@.len() == old(buf)@.len(),
        res.0 matches Poll::Ready(Ok(Some(n))) ==> {
            let given = final(buf)@.take(n as int);
            &&& n <= old(buf)@.len()
            &&& final(buf)@.skip(n as int) == old(buf)@.skip(n as int)
            &&& is_read(
                old(stream)@,
                waker,
                old(buf)@.len(),
                final(stream)@,
                Poll::Ready(Ok(Some(given))),
            )
        },
        res.0 matches Poll::Ready(Ok(None)) ==> is_read(
            old(stream)@,
            waker,
            old(buf)@.len(),
            final(stream)@,
            Poll::Ready(Ok(None)),
        ),
        res.0 matches Poll::Ready(Err(err)) ==> is_read(
            old(stream)@,
            waker,
            old(buf)@.len(),
            final(stream)@,
            Poll::Ready(Err(err)),
        ),
        res.0 is Pending ==> is_read(
            old(stream)@,
            waker,
            old(buf)@.len(),
            final(stream)@,
            Poll::Pending,
        ),
        !(res.0 matches Poll::Ready(Ok(Some(_)))) ==> final(buf)@ == old(buf)@,
        res.0 is Pending ==> final(driver)@.recv.streams.contains(old(stream)@.id.0),
        res.0 is Ready ==> final(driver)@ == old(driver)@ && res.1 is None,
{
    let max = old(buf)@.len() as usize;
    read_is_read(old(stream)@, waker, max);
    if let Poll::Ready(Ok(Some(given))) = old(stream)@.read(waker, max).1 {
        assert(given.len() <= max);
        assert(final(buf)@.take(given.len() as int) =~= given);
        assert(final(buf)@.skip(given.len() as int) =~= old(buf)@.skip(given.len() as int));
    }
}

/// A flush of a stream begins with how it was broken off: one that the peer reset wakes whoever
/// waits, one that was stopped is shut down with the code of the stop. Otherwise it asks for data
/// exactly if some is wanted, and the read asks for at least one byte and for no more than is
/// wanted.
pub proof fn flush_asks_for_what_is_wanted(state: &mut RecvState, action: RecvAction)
    requires
        old(state)@.wf() && old(state)@.is_idle(),
        call_ensures(RecvState::flush, (state, RecvEvent::Start), action),
    ensures
        old(state)@.reset is Some ==> {
            &&& action == RecvAction::Return(Ok(old(state)@.blocked))
            &&& final(state)@ == (RecvView { blocked: None, ..old(state)@ })
        },
        old(state)@.reset is None && old(state)@.stop is Some ==> {
            &&& action == RecvAction::Shutdown(old(state)@.stop->0)
            &&& final(state)@ == old(state)@
        },
        old(state)@.reset is None && old(state)@.stop is None ==> {
            &&& action == RecvAction::Recv <==> old(state)@.max > 0
            &&& old(state)@.max == 0 ==> action == RecvAction::Return(Ok(None))
            &&& final(state)@.blocked == old(state)@.blocked
            &&& final(state)@.queued == old(state)@.queued
            &&& final(state)@.max == old(state)@.max
            &&& final(state)@.fin == old(state)@.fin
        },
        action == RecvAction::Recv ==> 0 < final(state)@.buf.len() <= old(state)@.max,
{
}

/// Data that the connection gives is put after all that waits, in full. If the connection says that
/// it is the last, the stream is finished, however many bytes there are, and whoever waits is woken.
/// If not, the flush asks for more as long as more is wanted, and wakes whoever waits once it is
/// not.
pub proof fn received_data_waits_to_be_read(
    state: &mut RecvState,
    n: usize,
    last: bool,
    action: RecvAction,
)
    requires
        old(state)@.wf(),
        n <= old(state)@.buf.len(),
        call_ensures(RecvState::flush, (state, RecvEvent::Received(Ok((n, last)))), action),
    ensures
        final(state)@.queued.flatten() == old(state)@.queued.flatten() + old(state)@.buf.take(
            n as int,
        ),
        final(state)@.queued.len() == old(state)@.queued.len() + 1,
        final(state)@.max + n == old(state)@.max,
        last ==> {
            &&& final(state)@.fin
            &&& action == RecvAction::Return(Ok(old(state)@.blocked))
            &&& final(state)@.blocked is None
            &&& final(state)@.buf.len() == 0
        },
        !last ==> final(state)@.fin == old(state)@.fin,
        !last && old(state)@.max > n ==> {
            &&& action == RecvAction::Recv
            &&& 0 < final(state)@.buf.len() <= final(state)@.max
            &&& final(state)@.blocked == old(state)@.blocked
            &&& final(state)@.changed
        },
        !last && old(state)@.max == n ==> {
            &&& action == RecvAction::Return(Ok(old(state)@.blocked))
            &&& final(state)@.blocked is None
        },
        final(state)@.reset == old(state)@.reset,
        final(state)@.stop == old(state)@.stop,
{
    old(state)@.queued.lemma_flatten_push(old(state)@.buf.take(n as int));
}

/// Without data the flush asks whether the peer finished the stream: if so the stream is finished
/// and whoever waits is woken; if not they are woken exactly if something was received before in
/// the flush.
pub proof fn end_is_asked_for(
    empty: &mut RecvState,
    asked: RecvAction,
    state: &mut RecvState,
    finished: bool,
    action: RecvAction,
)
    requires
        old(empty)@.wf(),
        call_ensures(
            RecvState::flush,
            (empty, RecvEvent::Received(Err(QuicheError::Done))),
            asked,
        ),
        old(state)@.wf() && old(state)@.is_idle(),
        call_ensures(RecvState::flush, (state, RecvEvent::Finished(finished)), action),
    ensures
        asked == RecvAction::IsFinished,
        final(empty)@.queued == old(empty)@.queued,
        final(empty)@.fin == old(empty)@.fin,
        final(empty)@.blocked == old(empty)@.blocked,
        final(empty)@.changed == old(empty)@.changed,
        final(empty)@.max == old(empty)@.max,
        finished ==> {
            &&& final(state)@.fin
            &&& action == RecvAction::Return(Ok(old(state)@.blocked))
            &&& final(state)@.blocked is None
        },
        !finished ==> final(state)@.fin == old(state)@.fin,
        !finished && old(state)@.changed ==> {
            &&& action == RecvAction::Return(Ok(old(state)@.blocked))
            &&& final(state)@.blocked is None
        },
        !finished && !old(state)@.changed ==> {
            &&& action == RecvAction::Return(Ok(None))
            &&& final(state)@ == old(state)@
        },
        final(state)@.queued == old(state)@.queued,
        final(state)@.max == old(state)@.max,
{
}

/// Whether an event says that the connection failed, with the given error.
pub open spec fn fails_with(event: RecvEvent, err: QuicheError) -> bool {
    ||| event == RecvEvent::Shutdown(Err(err))
    ||| event == RecvEvent::Received(Err(err)) && !(err is Done) && !(err is StreamReset)
}

/// A reset by the peer is kept with its code, whatever the code, and wakes whoever waits, and so
/// does a stop once the stream was shut down; every other error ends the flush, and is the error
/// that it ends with. A flush ends with no other error, and what waits to be read is kept.
pub proof fn reset_and_failure_are_passed_on(
    state: &mut RecvState,
    event: RecvEvent,
    action: RecvAction,
    code: u64,
    err: QuicheError,
)
    requires
        old(state)@.wf(),
        old(state)@.expects(event),
        call_ensures(RecvState::flush, (state, event), action),
    ensures
        event == RecvEvent::Received(Err(QuicheError::StreamReset(code))) ==> {
            &&& final(state)@.reset == Some(code)
            &&& action == RecvAction::Return(Ok(old(state)@.blocked))
            &&& final(state)@.blocked is None
        },
        event == RecvEvent::Shutdown(Ok(())) ==> {
            &&& action == RecvAction::Return(Ok(old(state)@.blocked))
            &&& final(state)@ == (RecvView { blocked: None, ..old(state)@ })
        },
        fails_with(event, err) <==> action == RecvAction::Return(Err(err)),
        !(event matches RecvEvent::Received(Ok(_))) ==> final(state)@.queued == old(state)@.queued,
{
}

/// What the application makes of a stream is what the next flush tells the connection, and the
/// driver is told of it: a stop is sent with its code, unless the peer reset the stream. A stream
/// that is given up before its end is stopped too, with a code that says so; any other stays as it
/// is.
pub proof fn stopped_stream_is_shut_down(
    closing: &mut RecvStream,
    code: u64,
    driver: &mut DriverState,
    woken: Option<Waker>,
    flushed: &mut RecvState,
    shutdown: RecvAction,
    dropped: &mut RecvStream,
    drop_driver: &mut DriverState,
    drop_woken: Option<Waker>,
    given_up: &mut RecvState,
    end: RecvAction,
)
    requires
        old(closing)@.wf() && old(closing)@.is_idle(),
        call_ensures(RecvStream::close, (closing, driver, code), woken),
        final(closing)@ == old(flushed)@,
        call_ensures(RecvState::flush, (flushed, RecvEvent::Start), shutdown),
        old(dropped)@.wf() && old(dropped)@.is_idle(),
        call_ensures(RecvStream::drop_handle, (dropped, drop_driver), drop_woken),
        final(dropped)@ == old(given_up)@,
        call_ensures(RecvState::flush, (given_up, RecvEvent::Start), end),
    ensures
        old(closing)@.reset is None ==> shutdown == RecvAction::Shutdown(code),
        final(driver)@.recv.streams.contains(old(closing)@.id.0),
        final(closing)@ == (RecvView { stop: Some(code), ..old(closing)@ }),
        !old(dropped)@.fin && old(dropped)@.reset is None && old(dropped)@.stop is None ==> {
            &&& end == RecvAction::Shutdown(0x6563766464726F70)
            &&& final(drop_driver)@.recv.streams.contains(old(dropped)@.id.0)
        },
        old(dropped)@.fin || old(dropped)@.reset is Some || old(dropped)@.stop is Some ==> {
            &&& final(dropped)@ == old(dropped)@
            &&& final(drop_driver)@ == old(drop_driver)@
            &&& drop_woken is None
        },
{
}

/// A stream has ended without an error exactly once the peer finished it and everything was read;
/// before that a stream that was broken off is an error with its code, and whoever asks for the end
/// of any other waits. A stream counts as closed once it has ended either way.
pub proof fn end_of_receiving(
    stream: &mut RecvStream,
    waker: Waker,
    res: Poll<Result<(), StreamError>>,
    is_closed: bool,
    state: &mut RecvState,
    same: Poll<Result<(), StreamError>>,
)
    requires
        call_ensures(RecvStream::is_closed, (&*stream,), is_closed),
        call_ensures(RecvStream::closed, (stream, waker), res),
        old(state)@ == old(stream)@,
        call_ensures(RecvState::poll_closed, (state, waker), same),
    ensures
        res == Poll::Ready(Ok::<(), StreamError>(())) <==> old(stream)@.fin && old(
            stream)@.queued.len() == 0,
        !(old(stream)@.fin && old(stream)@.queued.len() == 0) ==> {
            &&& old(stream)@.reset is Some ==> res == Poll::Ready(
                Err::<(), StreamError>(StreamError::Reset(old(stream)@.reset->0)),
            )
            &&& old(stream)@.reset is None && old(stream)@.stop is Some ==> res == Poll::Ready(
                Err::<(), StreamError>(StreamError::Stop(old(stream)@.stop->0)),
            )
            &&& res is Pending <==> old(stream)@.reset is None && old(stream)@.stop is None
        },
        res is Pending ==> final(stream)@ == (RecvView { blocked: Some(waker), ..old(stream)@ }),
        is_closed <==> !(res is Pending),
        same == res,
        final(state)@ == final(stream)@,
{
}

/// A handle is the handle of its state, which has the identifier that it was made with and nothing
/// to read; nothing is wanted of it yet.
pub proof fn new_stream_is_open(
    id: StreamId,
    state: RecvState,
    stream: RecvStream,
    ids: (StreamId, StreamId),
    shared: &mut RecvStream,
    inner: &mut RecvState,
    reading: &mut RecvState,
    slice: &mut [u8],
)
    requires
        call_ensures(RecvState::new, (id,), state),
        call_ensures(RecvStream::new, (state,), stream),
        call_ensures(RecvState::id, (&state,), ids.0),
        call_ensures(RecvStream::id, (&stream,), ids.1),
        call_ensures(RecvStream::state, (shared,), inner),
        call_ensures(RecvState::buffer, (reading,), slice),
    ensures
        ids == (id, id),
        stream@ == state@,
        state@.queued.len() == 0,
        state@.max == 0,
        state@.buf_capacity == 64,
        !state@.fin && state@.reset is None && state@.stop is None && state@.blocked is None,
        state@.wf() && state@.is_idle(),
        old(inner)@ == old(shared)@,
        final(shared)@ == final(inner)@,
        old(slice)@ == old(reading)@.buf,
        final(reading)@.buf == final(slice)@,
        final(reading)@.queued == old(reading)@.queued,
{
}

/// A read asks for all that is wanted if there is room for it, and otherwise for all that there is
/// room for. A buffer without room grows to twice its size, but not beyond its bound.
pub proof fn read_uses_the_room(
    state: &mut RecvState,
    found: usize,
    room: usize,
    size: usize,
)
    requires
        old(state)@.wf() && old(state)@.is_idle(),
        found > 0 ==> room == found,
        found == 0 ==> room >= 2 * old(state)@.buf_capacity || room >= 32768,
        room <= isize::MAX,
        call_ensures(RecvState::begin_read, (state, found, room), ()),
        call_ensures(recv::read_size, (room, old(state)@.max), size),
    ensures
        final(state)@.buf.len() <= room && final(state)@.buf.len() <= old(state)@.max,
        final(state)@.buf.len() == room || final(state)@.buf.len() == old(state)@.max,
        size == final(state)@.buf.len(),
        found > 0 ==> final(state)@.buf_capacity == old(state)@.buf_capacity,
        found == 0 ==> {
            &&& final(state)@.buf_capacity == 2 * old(state)@.buf_capacity || final(
                state)@.buf_capacity == 32768
            &&& final(state)@.buf_capacity <= 2 * old(state)@.buf_capacity
            &&& final(state)@.buf_capacity <= 32768
        },
        final(state)@.queued == old(state)@.queued,
        final(state)@.max == old(state)@.max,
        final(state)@.blocked == old(state)@.blocked,
{
}

/// Reading a stream to its end gives all of its chunks, one after the other; an error ends it.
pub proof fn whole_stream_is_read(
    start: ReadAll,
    all: ReadAll,
    res: Result<Option<Bytes>, StreamError>,
    step: ReadAllStep,
)
    requires
        call_ensures(ReadAll::new, (), start),
        res matches Ok(Some(chunk)) ==> all@.len() + buffer::bytes_of(chunk).len() <= isize::MAX,
        call_ensures(ReadAll::push, (all, res), step),
    ensures
        start@.len() == 0,
        res matches Ok(Some(chunk)) ==> {
            &&& step is Continue
            &&& step->Continue_0@.take(all@.len() as int) == all@
            &&& step->Continue_0@.skip(all@.len() as int) == buffer::bytes_of(chunk)
        },
        res matches Ok(None) ==> step is Return && step->Return_0 is Ok && buffer::bytes_of(
            step->Return_0->Ok_0,
        ) == all@,
        res matches Err(err) ==> step is Return && step->Return_0 == Err::<Bytes, _>(err),
{
    if let Ok(Some(chunk)) = res {
        let next = step->Continue_0@;
        assert(next.take(all@.len() as int) =~= all@);
        assert(next.skip(all@.len() as int) =~= buffer::bytes_of(chunk));
    }
}

} // verus!
