//! What the application and the driver tell each other about streams: which streams the peer
//! allows, which have something to do, and who is woken for it.

use std::task::Waker;

use vstd::prelude::*;

use super::connection::{Connection, DriverState, STREAM_ID_LIMIT};
use super::error::{ConnectionError, QuicheError};
use super::recv::RecvStream;
use super::send::SendStream;
use super::stream::StreamId;
use super::wakeup::DriverWakeup;
use crate::task::Poll;

verus! {

/// The second of the two low bits of an identifier says whether a stream is unidirectional, the
/// first says nothing about it.
pub proof fn kind_is_the_second_bit(id: StreamId, is_bi: bool)
    requires
        call_ensures(StreamId::is_bi, (&id,), is_bi),
    ensures
        is_bi <==> (id.0 / 2) % 2 == 0,
{
}

/// Once the driver learns how many bidirectional streams the peer allows, everyone who waits for one
/// is woken if there is one for them, and the next task that opens a stream gets it: exactly if the
/// peer allows more than wait to be opened. It gets the next identifier, and the driver is woken
/// for it. Otherwise the task waits.
pub proof fn bi_stream_is_given_when_allowed(
    state: &mut DriverState,
    left: u64,
    woken: Vec<Waker>,
    opening: &mut DriverState,
    waker: Waker,
    res: Poll<Result<(Option<Waker>, StreamId), ConnectionError>>,
)
    requires
        old(state)@.local.err is None,
        old(state)@.remote.err is None,
        old(state)@.bi.next < STREAM_ID_LIMIT,
        call_ensures(DriverState::allow_bi, (state, left), woken),
        final(state)@ == old(opening)@,
        call_ensures(DriverState::open_bi, (opening, waker), res),
    ensures
        left > old(state)@.bi.queued ==> {
            &&& woken@ == old(state)@.bi.wakers
            &&& res matches Poll::Ready(Ok((_, id))) && id == StreamId(old(state)@.bi.next)
            &&& final(opening)@.bi.queued == old(state)@.bi.queued + 1
            &&& final(opening)@.bi.next == old(state)@.bi.next + 4
            &&& final(opening)@.bi.wakers.len() == 0
            &&& final(opening)@.send.streams.contains(old(state)@.bi.next)
        },
        left <= old(state)@.bi.queued ==> {
            &&& woken@.len() == 0
            &&& res is Pending
            &&& final(opening)@.bi.wakers == old(state)@.bi.wakers.push(waker)
            &&& final(opening)@.bi.next == old(state)@.bi.next
            &&& final(opening)@.bi.queued == old(state)@.bi.queued
        },
        final(opening)@.bi.left == left,
{
}

/// A bidirectional stream that the driver opens does not wait any more, and is one less that the peer
/// allows; so the streams that the application can still be given stay as many.
pub proof fn opened_bi_stream_waits_no_more(state: &mut DriverState)
    requires
        call_ensures(DriverState::take_bi, (state,), ()),
    ensures
        old(state)@.bi.queued > 0 && old(state)@.bi.left > 0 ==> {
            &&& final(state)@.bi.queued + 1 == old(state)@.bi.queued
            &&& final(state)@.bi.left + 1 == old(state)@.bi.left
        },
        final(state)@.bi.next == old(state)@.bi.next,
        final(state)@.bi.wakers == old(state)@.bi.wakers,
{
}

/// A connection that is closed opens no bidirectional stream, and says why: for the close of the
/// application, and else for how the connection ended. One whose identifiers are used up opens none
/// either. Nobody is left waiting then.
pub proof fn bi_stream_is_refused(
    state: &mut DriverState,
    waker: Waker,
    res: Poll<Result<(Option<Waker>, StreamId), ConnectionError>>,
)
    requires
        call_ensures(DriverState::open_bi, (state, waker), res),
    ensures
        old(state)@.local.err matches Some(err) ==> res == Poll::Ready(
            Err::<(Option<Waker>, StreamId), _>(err),
        ),
        old(state)@.local.err is None && old(state)@.remote.err is Some ==> res == Poll::Ready(
            Err::<(Option<Waker>, StreamId), _>(old(state)@.remote.err->0),
        ),
        old(state)@.local.err is None && old(state)@.remote.err is None && old(state)@.bi.next
            >= STREAM_ID_LIMIT ==> res == Poll::Ready(
            Err::<(Option<Waker>, StreamId), _>(ConnectionError::Quiche(QuicheError::StreamLimit)),
        ),
        res matches Poll::Ready(Err(_)) ==> final(state)@ == old(state)@,
{
}

/// Once the driver learns how many unidirectional streams the peer allows, everyone who waits for one
/// is woken if there is one for them, and the next task that opens a stream gets it: exactly if the
/// peer allows more than wait to be opened. It gets the next identifier, and the driver is woken
/// for it. Otherwise the task waits.
pub proof fn uni_stream_is_given_when_allowed(
    state: &mut DriverState,
    left: u64,
    woken: Vec<Waker>,
    opening: &mut DriverState,
    waker: Waker,
    res: Poll<Result<(Option<Waker>, StreamId), ConnectionError>>,
)
    requires
        old(state)@.local.err is None,
        old(state)@.remote.err is None,
        old(state)@.uni.next < STREAM_ID_LIMIT,
        call_ensures(DriverState::allow_uni, (state, left), woken),
        final(state)@ == old(opening)@,
        call_ensures(DriverState::open_uni, (opening, waker), res),
    ensures
        left > old(state)@.uni.queued ==> {
            &&& woken@ == old(state)@.uni.wakers
            &&& res matches Poll::Ready(Ok((_, id))) && id == StreamId(old(state)@.uni.next)
            &&& final(opening)@.uni.queued == old(state)@.uni.queued + 1
            &&& final(opening)@.uni.next == old(state)@.uni.next + 4
            &&& final(opening)@.uni.wakers.len() == 0
            &&& final(opening)@.send.streams.contains(old(state)@.uni.next)
        },
        left <= old(state)@.uni.queued ==> {
            &&& woken@.len() == 0
            &&& res is Pending
            &&& final(opening)@.uni.wakers == old(state)@.uni.wakers.push(waker)
            &&& final(opening)@.uni.next == old(state)@.uni.next
            &&& final(opening)@.uni.queued == old(state)@.uni.queued
        },
        final(opening)@.uni.left == left,
{
}

/// A unidirectional stream that the driver opens does not wait any more, and is one less that the peer
/// allows; so the streams that the application can still be given stay as many.
pub proof fn opened_uni_stream_waits_no_more(state: &mut DriverState)
    requires
        call_ensures(DriverState::take_uni, (state,), ()),
    ensures
        old(state)@.uni.queued > 0 && old(state)@.uni.left > 0 ==> {
            &&& final(state)@.uni.queued + 1 == old(state)@.uni.queued
            &&& final(state)@.uni.left + 1 == old(state)@.uni.left
        },
        final(state)@.uni.next == old(state)@.uni.next,
        final(state)@.uni.wakers == old(state)@.uni.wakers,
{
}

/// A connection that is closed opens no unidirectional stream, and says why: for the close of the
/// application, and else for how the connection ended. One whose identifiers are used up opens none
/// either. Nobody is left waiting then.
pub proof fn uni_stream_is_refused(
    state: &mut DriverState,
    waker: Waker,
    res: Poll<Result<(Option<Waker>, StreamId), ConnectionError>>,
)
    requires
        call_ensures(DriverState::open_uni, (state, waker), res),
    ensures
        old(state)@.local.err matches Some(err) ==> res == Poll::Ready(
            Err::<(Option<Waker>, StreamId), _>(err),
        ),
        old(state)@.local.err is None && old(state)@.remote.err is Some ==> res == Poll::Ready(
            Err::<(Option<Waker>, StreamId), _>(old(state)@.remote.err->0),
        ),
        old(state)@.local.err is None && old(state)@.remote.err is None && old(state)@.uni.next
            >= STREAM_ID_LIMIT ==> res == Poll::Ready(
            Err::<(Option<Waker>, StreamId), _>(ConnectionError::Quiche(QuicheError::StreamLimit)),
        ),
        res matches Poll::Ready(Err(_)) ==> final(state)@ == old(state)@,
{
}

/// The first streams of a new connection have the first identifiers of their kind and side.
pub proof fn new_connection_starts_at_the_first(server: bool, state: DriverState)
    requires
        call_ensures(DriverState::new, (server,), state),
    ensures
        server ==> state@.bi.next == 1 && state@.uni.next == 3,
        !server ==> state@.bi.next == 0 && state@.uni.next == 2,
        state@.bi.left == 0 && state@.uni.left == 0,
        state@.bi.queued == 0 && state@.uni.queued == 0,
        state@.local.err is None && state@.remote.err is None,
        state@.send.streams.is_empty() && state@.recv.streams.is_empty(),
{
}

/// The sides of a stream that a connection opens are new and have the identifier that the state
/// gives out; whether and when they are given is decided by the state.
pub proof fn connection_opens_what_the_state_gives(
    connection: &mut Connection,
    waker: Waker,
    res: Poll<Result<(Option<Waker>, SendStream, RecvStream), ConnectionError>>,
    state: &mut DriverState,
    given: Poll<Result<(Option<Waker>, StreamId), ConnectionError>>,
    other: &mut Connection,
    uni: Poll<Result<(Option<Waker>, SendStream), ConnectionError>>,
    same: &mut DriverState,
    uni_given: Poll<Result<(Option<Waker>, StreamId), ConnectionError>>,
)
    requires
        old(connection)@ == old(state)@,
        call_ensures(Connection::open_bi, (connection, waker), res),
        call_ensures(DriverState::open_bi, (state, waker), given),
        old(other)@ == old(same)@,
        call_ensures(Connection::open_uni, (other, waker), uni),
        call_ensures(DriverState::open_uni, (same, waker), uni_given),
    ensures
        final(connection)@ == final(state)@,
        res is Pending <==> given is Pending,
        res matches Poll::Ready(Ok((wake, send, recv))) ==> (given matches Poll::Ready(
            Ok((driver, id)),
        ) && wake == driver && send@.id == id && recv@.id == id && !send@.is_closed()
            && !recv@.is_closed() && send@.queued.len() == 0 && recv@.queued.len() == 0
            && send@.sending is None),
        res matches Poll::Ready(Err(err)) ==> given == Poll::Ready(
            Err::<(Option<Waker>, StreamId), _>(err),
        ),
        final(other)@ == final(same)@,
        uni is Pending <==> uni_given is Pending,
        uni matches Poll::Ready(Ok((wake, send))) ==> (uni_given matches Poll::Ready(
            Ok((driver, id)),
        ) && wake == driver && send@.id == id && !send@.is_closed() && send@.queued.len() == 0
            && send@.sending is None),
        uni matches Poll::Ready(Err(err)) ==> uni_given == Poll::Ready(
            Err::<(Option<Waker>, StreamId), _>(err),
        ),
{
}

/// A driver that has registered is woken by the first stream that has data to send, and finds that
/// stream when it takes them, once; the same holds of the streams that wait for data.
pub proof fn recorded_stream_reaches_the_driver(
    registered: &mut DriverState,
    driver: Waker,
    before: Vec<u64>,
    recorded: &mut DriverState,
    id: StreamId,
    woken: Option<Waker>,
    other: &mut DriverState,
    second: StreamId,
    again: Option<Waker>,
    taken: &mut DriverState,
    waker: Waker,
    ids: Vec<u64>,
)
    requires
        call_ensures(DriverState::take_send, (registered, driver), before),
        final(registered)@ == old(recorded)@,
        call_ensures(DriverState::wake_send, (recorded, id), woken),
        final(recorded)@ == old(other)@,
        call_ensures(DriverState::wake_send, (other, second), again),
        final(other)@ == old(taken)@,
        call_ensures(DriverState::take_send, (taken, waker), ids),
    ensures
        woken == Some(driver),
        again is None,
        forall|i: u64| ids@.contains(i) <==> i == id.0 || i == second.0,
        ids@.no_duplicates(),
        final(taken)@.send.streams.is_empty(),
        final(taken)@.recv == old(registered)@.recv,
        forall|i: u64| before@.contains(i) <==> old(registered)@.send.streams.contains(i),
{
    assert forall|i: u64| ids@.contains(i) <==> i == id.0 || i == second.0 by {
        assert(ids@.to_set().contains(i) == ids@.contains(i));
    }
    assert forall|i: u64| before@.contains(i) <==> old(registered)@.send.streams.contains(i) by {
        assert(before@.to_set().contains(i) == before@.contains(i));
    }
}

/// See [`recorded_stream_reaches_the_driver`], for the streams that wait for data.
pub proof fn waiting_stream_reaches_the_driver(
    registered: &mut DriverState,
    driver: Waker,
    before: Vec<u64>,
    recorded: &mut DriverState,
    id: StreamId,
    woken: Option<Waker>,
    other: &mut DriverState,
    second: StreamId,
    again: Option<Waker>,
    taken: &mut DriverState,
    waker: Waker,
    ids: Vec<u64>,
)
    requires
        call_ensures(DriverState::take_recv, (registered, driver), before),
        final(registered)@ == old(recorded)@,
        call_ensures(DriverState::wake_recv, (recorded, id), woken),
        final(recorded)@ == old(other)@,
        call_ensures(DriverState::wake_recv, (other, second), again),
        final(other)@ == old(taken)@,
        call_ensures(DriverState::take_recv, (taken, waker), ids),
    ensures
        woken == Some(driver),
        again is None,
        forall|i: u64| ids@.contains(i) <==> i == id.0 || i == second.0,
        ids@.no_duplicates(),
        final(taken)@.recv.streams.is_empty(),
        final(taken)@.send == old(registered)@.send,
        forall|i: u64| before@.contains(i) <==> old(registered)@.recv.streams.contains(i),
{
    assert forall|i: u64| ids@.contains(i) <==> i == id.0 || i == second.0 by {
        assert(ids@.to_set().contains(i) == ids@.contains(i));
    }
    assert forall|i: u64| before@.contains(i) <==> old(registered)@.recv.streams.contains(i) by {
        assert(before@.to_set().contains(i) == before@.contains(i));
    }
}

/// A stream that is recorded is added to those that wait, whatever they are, and wakes the driver
/// exactly if it is new and the driver is registered; taking them leaves none.
pub proof fn wakeup_records_every_stream(
    wakeup: &mut DriverWakeup,
    id: u64,
    woken: Option<Waker>,
    taken: &mut DriverWakeup,
    waker: Waker,
    ids: Vec<u64>,
)
    requires
        call_ensures(DriverWakeup::waker, (wakeup, id), woken),
        final(wakeup)@ == old(taken)@,
        call_ensures(DriverWakeup::register, (taken, waker), ids),
    ensures
        old(wakeup)@.streams.contains(id) ==> woken is None && final(wakeup)@ == old(wakeup)@,
        !old(wakeup)@.streams.contains(id) ==> woken == old(wakeup)@.waker,
        !old(wakeup)@.streams.contains(id) ==> final(wakeup)@.waker is None,
        forall|i: u64| ids@.contains(i) <==> i == id || old(wakeup)@.streams.contains(i),
        ids@.no_duplicates(),
        final(taken)@.streams.is_empty(),
        final(taken)@.waker == Some(waker),
{
    assert forall|i: u64| ids@.contains(i) <==> i == id || old(wakeup)@.streams.contains(i) by {
        assert(ids@.to_set().contains(i) == ids@.contains(i));
    }
}

/// An identifier is the number that it is made of, and gives it back.
pub proof fn identifier_is_its_number(n: u64, id: StreamId, back: u64)
    requires
        call_ensures(<StreamId as From<u64>>::from, (n,), id),
        call_ensures(<u64 as From<StreamId>>::from, (id,), back),
    ensures
        id.0 == n,
        back == n,
{
}

} // verus!
