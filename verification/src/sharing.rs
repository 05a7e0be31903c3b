//! What a session, its streams and its driver make of what they share: whoever has to wait is woken,
//! what one side sends is what the other side gets, and what belongs to another session is refused.

use std::task::Waker;

use url::Url;
use vstd::prelude::*;

use crate::driver::WebTransportDriver;
use crate::error::{SessionError, WebTransportError};
use crate::ez::connection::STREAM_ID_LIMIT;
use crate::ez::error::QuicheError;
use crate::proto;
use crate::session::{DatagramEvent, OpenedStream, Session};
use crate::state;
use crate::state::{ConnectionState, ConnectionStateView};
use crate::task::Poll;

verus! {

/// The header of a stream is its type, which tells a bidirectional stream from a unidirectional
/// one, and the session; that of a datagram is the session.
pub proof fn header_names_kind_and_session(session_id: u64, state: ConnectionState, header: &[u8])
    requires
        session_id < proto::VARINT_LIMIT,
        call_ensures(ConnectionState::new, (session_id,), state),
        call_ensures(ConnectionState::header_datagram, (&state,), header),
    ensures
        state@.session_id == session_id,
        state@.header(false) == seq![0x40u8, 0x54u8] + proto::varint(session_id),
        state@.header(true) == seq![0x40u8, 0x41u8] + proto::varint(session_id),
        header@ == proto::varint(session_id),
        state@.send_wakers.dom().is_empty(),
        state@.recv_wakers.dom().is_empty(),
        state@.datagram_wakers.len() == 0,
        state@.header_sent.dom().is_empty(),
{
    reveal_with_fuel(proto::big_endian, 3);
    assert(proto::varint(0x54) =~= seq![0x40u8, 0x54u8]);
    assert(proto::varint(0x41) =~= seq![0x40u8, 0x41u8]);
}

/// The first write to a stream offers the whole header and then the data; once the connection has
/// accepted the header, a write offers the data alone.
pub proof fn write_offers_header_and_data(
    state: &ConnectionState,
    id: u64,
    bi: bool,
    data: &[u8],
    offered: Vec<u8>,
)
    requires
        state.wf(),
        call_ensures(ConnectionState::frame_write, (state, id, bi, data), offered),
    ensures
        !state@.header_sent.contains_key(id) ==> offered@ == state@.header(bi) + data@,
        state@.header_sent.contains_key(id) && state@.header_sent[id] >= state@.header(bi).len()
            ==> offered@ == data@,
        state@.header_sent.contains_key(id) && state@.header_sent[id] < state@.header(bi).len()
            ==> state@.header(bi).take(state@.header_sent[id] as int) + offered@ == state@.header(
            bi,
        ) + data@,
{
    let header = state@.header(bi);
    if !state@.header_sent.contains_key(id) {
        proto::varint_len(proto::STREAM_UNI);
        proto::varint_len(proto::FRAME_BI);
        assert(header.skip(0) =~= header);
    } else if state@.header_sent[id] < header.len() {
        let n = state@.header_sent[id] as int;
        assert(header.take(n) + (header.skip(n) + data@) =~= header + data@);
    } else {
        assert(Seq::<u8>::empty() + data@ =~= data@);
    }
}

/// A write comes to what the connection made of it: without room the task waits, and is kept for
/// its stream; an error is passed on as it is; and of the bytes that were accepted those beyond the
/// header count. A task waits for room also when the header alone was accepted and there is data.
/// The other streams are not affected.
pub proof fn write_comes_to_what_was_accepted(
    state: &mut ConnectionState,
    id: u64,
    bi: bool,
    waker: Waker,
    data: &[u8],
    answer: Result<usize, QuicheError>,
    res: Poll<Result<usize, QuicheError>>,
    offered: Vec<u8>,
    other: u64,
)
    requires
        old(state).wf(),
        call_ensures(ConnectionState::frame_write, (&*state, id, bi, data), offered),
        answer matches Ok(n) ==> n <= offered@.len(),
        call_ensures(ConnectionState::poll_write, (state, id, bi, waker, data, answer), res),
        other != id,
    ensures
        final(state).wf(),
        answer == Err::<usize, _>(QuicheError::Done) ==> res is Pending,
        answer matches Err(err) ==> (!(err is Done) ==> res == Poll::Ready(Err::<usize, _>(err))),
        answer matches Ok(n) ==> ({
            let header = offered@.len() - data@.len();
            &&& n > header ==> res == Poll::Ready(Ok::<usize, QuicheError>((n - header) as usize))
            &&& n < header ==> res is Pending
            &&& n == header && header > 0 && data@.len() > 0 ==> res is Pending
            &&& n == header && data@.len() == 0 ==> res == Poll::Ready(Ok::<usize, QuicheError>(0))
        }),
        res is Pending ==> final(state)@.send_wakers == old(state)@.send_wakers.insert(id, waker),
        res is Ready ==> final(state)@.send_wakers == old(state)@.send_wakers,
        final(state)@.recv_wakers == old(state)@.recv_wakers,
        final(state)@.datagram_wakers == old(state)@.datagram_wakers,
        final(state)@.session_id == old(state)@.session_id,
        final(state)@.header_sent.contains_key(other) == old(state)@.header_sent.contains_key(
            other,
        ),
        final(state)@.header_sent.contains_key(other) ==> final(state)@.header_sent[other] == old(
            state)@.header_sent[other],
{
}

/// What the connection accepted of the header is not offered again, and what it did not accept is:
/// two writes after each other offer what follows.
pub proof fn accepted_header_is_not_offered_again(
    state: &mut ConnectionState,
    id: u64,
    bi: bool,
    waker: Waker,
    data: &[u8],
    n: usize,
    res: Poll<Result<usize, QuicheError>>,
    offered: Vec<u8>,
    later: &ConnectionState,
    more: &[u8],
    next: Vec<u8>,
)
    requires
        old(state).wf(),
        call_ensures(ConnectionState::frame_write, (&*state, id, bi, data), offered),
        n <= offered@.len(),
        call_ensures(ConnectionState::poll_write, (state, id, bi, waker, data, Ok(n)), res),
        *final(state) == *later,
        call_ensures(ConnectionState::frame_write, (later, id, bi, more), next),
    ensures
        ({
            let header = offered@.len() - data@.len();
            if n < header {
                next@ == offered@.subrange(n as int, header) + more@
            } else {
                next@ == more@
            }
        }),
{
    let before = old(state)@;
    let header = before.header(bi);
    let left = offered@.len() - data@.len();
    assert(left == before.unsent(id, bi).len());
    proto::varint_short(proto::STREAM_UNI);
    proto::varint_short(proto::FRAME_BI);
    proto::varint_short(before.session_id);
    assert(later@.header(bi) == header);
    if n < left {
        let sent = before.sent(id) as int;
        assert(later@.sent(id) == sent + n);
        assert(header.skip(sent + n) =~= offered@.subrange(n as int, left));
        if n == 0 {
            assert(later@.unsent(id, bi) == before.unsent(id, bi));
        }
    } else {
        assert(later@.sent(id) >= header.len());
        assert(Seq::<u8>::empty() + more@ =~= more@);
    }
}

/// A read comes to what the connection made of it: without data the task waits, and is kept for its
/// stream; anything else is passed on as it is. Nothing else changes.
pub proof fn read_comes_to_what_was_received(
    state: &mut ConnectionState,
    id: u64,
    waker: Waker,
    received: Result<(usize, bool), QuicheError>,
    res: Poll<Result<(usize, bool), QuicheError>>,
)
    requires
        call_ensures(ConnectionState::poll_read, (state, id, waker, received), res),
    ensures
        received == Err::<(usize, bool), _>(QuicheError::Done) <==> res is Pending,
        res is Ready ==> res == Poll::Ready(received) && final(state)@ == old(state)@,
        res is Pending ==> final(state)@.recv_wakers == old(state)@.recv_wakers.insert(id, waker),
        final(state)@.send_wakers == old(state)@.send_wakers,
        final(state)@.header_sent == old(state)@.header_sent,
        final(state)@.datagram_wakers == old(state)@.datagram_wakers,
{
}

/// The task that waits to write to a stream is the one that is woken for the stream, once, and
/// nobody else is; the same holds of the task that waits to read from it.
pub proof fn waiting_task_is_woken_for_its_stream(
    send: &mut ConnectionState,
    recv: &mut ConnectionState,
    id: u64,
    writer: Option<Waker>,
    reader: Option<Waker>,
    other: u64,
)
    requires
        call_ensures(ConnectionState::wake_send, (send, id), writer),
        call_ensures(ConnectionState::wake_recv, (recv, id), reader),
        other != id,
    ensures
        writer is Some <==> old(send)@.send_wakers.contains_key(id),
        writer matches Some(waker) ==> waker == old(send)@.send_wakers[id],
        !final(send)@.send_wakers.contains_key(id),
        final(send)@.send_wakers.get(other) == old(send)@.send_wakers.get(other),
        final(send)@.recv_wakers == old(send)@.recv_wakers,
        final(send)@.header_sent == old(send)@.header_sent,
        reader is Some <==> old(recv)@.recv_wakers.contains_key(id),
        reader matches Some(waker) ==> waker == old(recv)@.recv_wakers[id],
        !final(recv)@.recv_wakers.contains_key(id),
        final(recv)@.recv_wakers.get(other) == old(recv)@.recv_wakers.get(other),
        final(recv)@.send_wakers == old(recv)@.send_wakers,
        final(recv)@.header_sent == old(recv)@.header_sent,
{
}

/// Whether a task waits for one of some streams.
pub open spec fn waits_for_one(wakers: Map<u64, Waker>, ids: Seq<u64>, waker: Waker) -> bool {
    exists|id: u64|
        #![trigger wakers[id]]
        ids.contains(id) && wakers.contains_key(id) && wakers[id] == waker
}

proof fn woken_is_everyone(wakers: Map<u64, Waker>, ids: Seq<u64>)
    ensures
        forall|id: u64|
            ids.contains(id) && wakers.contains_key(id) ==> state::woken(
                wakers,
                ids,
            ).1.contains(#[trigger] wakers[id]),
        forall|id: u64|
            #![trigger state::woken(wakers, ids).0.contains_key(id)]
            state::woken(wakers, ids).0.contains_key(id) <==> wakers.contains_key(id)
                && !ids.contains(id),
        forall|id: u64|
            #![trigger state::woken(wakers, ids).0[id]]
            wakers.contains_key(id) && !ids.contains(id) ==> state::woken(wakers, ids).0[id]
                == wakers[id],
        forall|i: int|
            0 <= i < state::woken(wakers, ids).1.len() ==> waits_for_one(
                wakers,
                ids,
                #[trigger] state::woken(wakers, ids).1[i],
            ),
    decreases ids.len(),
{
    state::stream_is_woken_once(wakers, ids);
    let (rest, out) = state::woken(wakers, ids);
    assert forall|id: u64|
        #![trigger rest.contains_key(id)]
        rest.contains_key(id) <==> wakers.contains_key(id) && !ids.contains(id) by {
        assert(rest.dom().contains(id) <==> wakers.dom().difference(ids.to_set()).contains(id));
    }
    if ids.len() > 0 {
        woken_is_everyone(wakers, ids.drop_last());
        let (before, woken) = state::woken(wakers, ids.drop_last());
        let last = ids.last();
        assert(ids[ids.len() - 1] == last);
        assert forall|id: u64| ids.contains(id) && wakers.contains_key(id) implies out.contains(
            #[trigger] wakers[id],
        ) by {
            if ids.drop_last().contains(id) {
                let i = choose|i: int| 0 <= i < woken.len() && woken[i] == wakers[id];
                assert(out[i] == wakers[id]);
            } else {
                let k = choose|k: int| 0 <= k < ids.len() && ids[k] == id;
                if k < ids.len() - 1 {
                    assert(ids.drop_last()[k] == id);
                }
                assert(id == last);
                assert(before.contains_key(id));
                assert(before[id] == wakers[id]);
                assert(out[woken.len() as int] == wakers[id]);
            }
        }
        assert forall|i: int| 0 <= i < out.len() implies waits_for_one(
            wakers,
            ids,
            #[trigger] out[i],
        ) by {
            if i < woken.len() {
                assert(out[i] == woken[i]);
                assert(waits_for_one(wakers, ids.drop_last(), woken[i]));
                let id = choose|id: u64|
                    #![trigger wakers[id]]
                    ids.drop_last().contains(id) && wakers.contains_key(id) && wakers[id]
                        == woken[i];
                let k = choose|k: int|
                    0 <= k < ids.drop_last().len() && ids.drop_last()[k] == id;
                assert(ids[k] == id);
                assert(wakers[id] == out[i]);
            } else {
                assert(before.contains_key(last));
                assert(before[last] == wakers[last]);
                assert(ids.contains(last));
                assert(wakers[last] == out[i]);
            }
        }
    }
}

/// Every task that waits to read from one of the streams that can be read is woken, and nobody
/// else; they do not wait any more, and everyone else does as before. The same holds of the tasks
/// that wait to write.
pub proof fn driver_wakes_every_stream(
    driver: &WebTransportDriver,
    state: &mut ConnectionState,
    ids: Vec<u64>,
    readers: Vec<Waker>,
    other: &mut ConnectionState,
    writable: Vec<u64>,
    writers: Vec<Waker>,
    id: u64,
)
    requires
        call_ensures(
            WebTransportDriver::process_readable_streams,
            (driver, state, &ids),
            readers,
        ),
        call_ensures(
            WebTransportDriver::process_writable_streams,
            (driver, other, &writable),
            writers,
        ),
    ensures
        ids@.contains(id) && old(state)@.recv_wakers.contains_key(id) ==> readers@.contains(
            old(state)@.recv_wakers[id],
        ),
        final(state)@.recv_wakers.contains_key(id) <==> old(state)@.recv_wakers.contains_key(id)
            && !ids@.contains(id),
        final(state)@.recv_wakers.contains_key(id) ==> final(state)@.recv_wakers[id] == old(
            state)@.recv_wakers[id],
        final(state)@.send_wakers == old(state)@.send_wakers,
        final(state)@.header_sent == old(state)@.header_sent,
        final(state)@.datagram_wakers == old(state)@.datagram_wakers,
        readers@.len() <= ids@.len(),
        forall|i: int|
            0 <= i < readers@.len() ==> waits_for_one(
                old(state)@.recv_wakers,
                ids@,
                #[trigger] readers@[i],
            ),
        writable@.contains(id) && old(other)@.send_wakers.contains_key(id) ==> writers@.contains(
            old(other)@.send_wakers[id],
        ),
        final(other)@.send_wakers.contains_key(id) <==> old(other)@.send_wakers.contains_key(id)
            && !writable@.contains(id),
        final(other)@.send_wakers.contains_key(id) ==> final(other)@.send_wakers[id] == old(
            other)@.send_wakers[id],
        final(other)@.recv_wakers == old(other)@.recv_wakers,
        final(other)@.header_sent == old(other)@.header_sent,
        final(other)@.datagram_wakers == old(other)@.datagram_wakers,
        writers@.len() <= writable@.len(),
        forall|i: int|
            0 <= i < writers@.len() ==> waits_for_one(
                old(other)@.send_wakers,
                writable@,
                #[trigger] writers@[i],
            ),
{
    woken_is_everyone(old(state)@.recv_wakers, ids@);
    woken_is_everyone(old(other)@.send_wakers, writable@);
    state::stream_is_woken_once(old(state)@.recv_wakers, ids@);
    state::stream_is_woken_once(old(other)@.send_wakers, writable@);
}

proof fn all_woken_is_everyone(wakers: Map<u64, Waker>, out: Seq<Waker>, id: u64)
    requires
        state::all_woken(wakers, out),
    ensures
        wakers.contains_key(id) ==> out.contains(wakers[id]),
        out.len() == wakers.dom().len(),
{
    let ids = choose|ids: Seq<u64>|
        #![trigger ids.no_duplicates()]
        {
            &&& ids.no_duplicates()
            &&& ids.to_set() == wakers.dom()
            &&& out == ids.map_values(|id: u64| wakers[id])
        };
    ids.unique_seq_to_set();
    if wakers.contains_key(id) {
        assert(ids.to_set().contains(id));
        let i = choose|i: int| 0 <= i < ids.len() && ids[i] == id;
        assert(out[i] == wakers[id]);
    }
}

/// Once the connection closes everyone who waits is woken, whatever they wait for, and nobody waits
/// any more.
pub proof fn close_wakes_everyone(
    driver: &WebTransportDriver,
    state: &mut ConnectionState,
    woken: (Vec<Waker>, Vec<Waker>, Vec<Waker>),
    id: u64,
    i: int,
)
    requires
        call_ensures(WebTransportDriver::on_conn_close, (driver, state), woken),
    ensures
        old(state)@.send_wakers.contains_key(id) ==> woken.0@.contains(old(state)@.send_wakers[id]),
        old(state)@.recv_wakers.contains_key(id) ==> woken.1@.contains(old(state)@.recv_wakers[id]),
        0 <= i < old(state)@.datagram_wakers.len() ==> woken.2@.contains(
            old(state)@.datagram_wakers[i],
        ),
        !final(state)@.send_wakers.contains_key(id),
        !final(state)@.recv_wakers.contains_key(id),
        woken.0@.len() == old(state)@.send_wakers.dom().len(),
        woken.1@.len() == old(state)@.recv_wakers.dom().len(),
        woken.2@.len() == old(state)@.datagram_wakers.len(),
        final(state)@.datagram_wakers.len() == 0,
        final(state)@.session_id == old(state)@.session_id,
        final(state)@.header_sent == old(state)@.header_sent,
{
    all_woken_is_everyone(old(state)@.send_wakers, woken.0@, id);
    all_woken_is_everyone(old(state)@.recv_wakers, woken.1@, id);
}

/// The same is true of the tasks that wait to write, or to read, when they are woken alone.
pub proof fn all_tasks_are_woken(
    send: &mut ConnectionState,
    writers: Vec<Waker>,
    recv: &mut ConnectionState,
    readers: Vec<Waker>,
    id: u64,
)
    requires
        call_ensures(ConnectionState::wake_all_send, (send,), writers),
        call_ensures(ConnectionState::wake_all_recv, (recv,), readers),
    ensures
        old(send)@.send_wakers.contains_key(id) ==> writers@.contains(old(send)@.send_wakers[id]),
        old(recv)@.recv_wakers.contains_key(id) ==> readers@.contains(old(recv)@.recv_wakers[id]),
        !final(send)@.send_wakers.contains_key(id),
        !final(recv)@.recv_wakers.contains_key(id),
        writers@.len() == old(send)@.send_wakers.dom().len(),
        readers@.len() == old(recv)@.recv_wakers.dom().len(),
        final(send)@.recv_wakers == old(send)@.recv_wakers,
        final(recv)@.send_wakers == old(recv)@.send_wakers,
{
    all_woken_is_everyone(old(send)@.send_wakers, writers@, id);
    all_woken_is_everyone(old(recv)@.recv_wakers, readers@, id);
}

/// A driver acts once the connection is established, and not before; it is that of the side that it
/// was made for.
pub proof fn driver_acts_once_established(
    client: WebTransportDriver,
    server: WebTransportDriver,
    before: (bool, bool),
    driver: &mut WebTransportDriver,
    later: WebTransportDriver,
    after: bool,
)
    requires
        call_ensures(WebTransportDriver::new_client, (), client),
        call_ensures(WebTransportDriver::new_server, (), server),
        call_ensures(WebTransportDriver::should_act, (&client,), before.0),
        call_ensures(WebTransportDriver::should_act, (&server,), before.1),
        call_ensures(WebTransportDriver::on_conn_established, (driver,), ()),
        *final(driver) == later,
        call_ensures(WebTransportDriver::should_act, (&later,), after),
    ensures
        before == (false, false),
        after,
        client@.is_client,
        !server@.is_client,
        later@.is_client == old(driver)@.is_client,
{
}

/// A task that waits for a datagram is woken by the next one, and by nothing less; whoever waits
/// then waits no more.
pub proof fn datagram_wakes_who_waits<A, B>(
    reading: &mut Session<A, B>,
    waker: Waker,
    pending: Poll<Result<Vec<u8>, SessionError>>,
    driver: &WebTransportDriver,
    state: &mut ConnectionState,
    available: bool,
    woken: Vec<Waker>,
)
    requires
        old(reading).wf(),
        call_ensures(
            Session::<A, B>::read_datagram,
            (reading, DatagramEvent::Empty, waker),
            pending,
        ),
        old(state)@ == final(reading).shared(),
        call_ensures(WebTransportDriver::process_datagrams, (driver, state, available), woken),
    ensures
        pending is Pending,
        available ==> {
            &&& woken@.contains(waker)
            &&& forall|i: int|
                0 <= i < old(reading).shared().datagram_wakers.len() ==> woken@.contains(
                    #[trigger] old(reading).shared().datagram_wakers[i],
                )
            &&& final(state)@.datagram_wakers.len() == 0
        },
        !available ==> woken@.len() == 0 && final(state)@ == old(state)@,
        final(state)@.send_wakers == old(state)@.send_wakers,
        final(state)@.recv_wakers == old(state)@.recv_wakers,
        final(state)@.header_sent == old(state)@.header_sent,
{
    let wakers = old(reading).shared().datagram_wakers;
    if available {
        assert(woken@ == wakers.push(waker));
        assert(woken@[wakers.len() as int] == waker);
        assert forall|i: int| 0 <= i < wakers.len() implies woken@.contains(
            #[trigger] wakers[i],
        ) by {
            assert(woken@[i] == wakers[i]);
        }
    }
}

/// Those who wait for a datagram are kept in the order in which they came, and woken together.
pub proof fn datagram_tasks_are_kept_in_order(
    blocked: &mut ConnectionState,
    waker: Waker,
    waking: &mut ConnectionState,
    woken: Vec<Waker>,
)
    requires
        call_ensures(ConnectionState::block_datagram, (blocked, waker), ()),
        final(blocked)@ == old(waking)@,
        call_ensures(ConnectionState::wake_datagram, (waking,), woken),
    ensures
        woken@ == old(blocked)@.datagram_wakers.push(waker),
        final(waking)@ == (ConnectionStateView {
            datagram_wakers: Seq::empty(),
            ..old(blocked)@
        }),
{
}

/// A datagram that one side of a session sends is what the other side reads, whatever it holds. A
/// datagram that does not begin with the session is refused, and one read of a closed connection
/// fails; neither leaves the task waiting.
pub proof fn datagram_reaches_the_session<A, B, C, D>(
    sender: &Session<A, B>,
    data: &[u8],
    sent: Vec<u8>,
    reader: &mut Session<C, D>,
    received: Vec<u8>,
    waker: Waker,
    read: Poll<Result<Vec<u8>, SessionError>>,
    other: &mut Session<C, D>,
    closed: Poll<Result<Vec<u8>, SessionError>>,
)
    requires
        sender.wf(),
        old(reader).wf(),
        sender.id() < proto::VARINT_LIMIT,
        old(reader).id() < proto::VARINT_LIMIT,
        call_ensures(Session::<A, B>::send_datagram, (sender, data), sent),
        received@ == sent@,
        call_ensures(
            Session::<C, D>::read_datagram,
            (reader, DatagramEvent::Received(received), waker),
            read,
        ),
        old(other).wf(),
        call_ensures(
            Session::<C, D>::read_datagram,
            (other, DatagramEvent::Closed, waker),
            closed,
        ),
    ensures
        sender.id() == old(reader).id() ==> {
            &&& read is Ready
            &&& read->Ready_0 is Ok
            &&& read->Ready_0->Ok_0@ == data@
        },
        sender.id() != old(reader).id() ==> read == Poll::Ready(
            Err::<Vec<u8>, _>(SessionError::WebTransport(WebTransportError::UnknownSession)),
        ),
        closed == Poll::Ready(Err::<Vec<u8>, _>(SessionError::Closed)),
        final(reader).shared() == old(reader).shared(),
        final(reader).same_streams(*old(reader)),
        final(other).shared() == old(other).shared(),
        final(other).same_streams(*old(other)),
{
    crate::session::datagram_survives(sender.id(), data@);
    if sender.id() != old(reader).id() {
        crate::session::foreign_datagram_is_refused(old(reader).id(), sender.id(), data@);
    }
}

/// A datagram fits the connection exactly if its data is no larger than the session says. What
/// became of it is passed on: sent, or failed with the error of the connection.
pub proof fn datagram_fits<A, B>(
    session: &Session<A, B>,
    data: &[u8],
    sent: Vec<u8>,
    writable: Option<usize>,
    size: usize,
    outcome: Result<(), QuicheError>,
    res: Result<(), SessionError>,
)
    requires
        session.wf(),
        call_ensures(Session::<A, B>::send_datagram, (session, data), sent),
        call_ensures(Session::<A, B>::max_datagram_size, (session, writable), size),
        call_ensures(Session::<A, B>::datagram_sent, (session, outcome), res),
    ensures
        writable is None ==> size == 0,
        writable matches Some(room) ==> {
            &&& data@.len() > 0 ==> (data@.len() <= size <==> sent@.len() <= room)
            &&& sent@.len() <= room ==> data@.len() <= size
        },
        outcome is Ok <==> res is Ok,
        outcome matches Err(err) ==> res == Err::<(), _>(SessionError::Quiche(err)),
{
}

/// A session is closed with a code that the peer is told as the one that was given, and it has the
/// address that it was made for.
pub proof fn session_is_closed_with_its_code<A, B>(
    session: &Session<A, B>,
    code: u32,
    sent: u64,
    made: Session<A, B>,
    state: ConnectionState,
    server: bool,
    queues: (A, B),
    url: Url,
    address: &Url,
)
    requires
        call_ensures(Session::<A, B>::close, (session, code), sent),
        state.wf(),
        state@.session_id < proto::VARINT_LIMIT,
        call_ensures(Session::<A, B>::new, (state, server, queues.0, queues.1, url), made),
        call_ensures(Session::<A, B>::url, (&made,), address),
    ensures
        proto::from_http3(sent) == Some(code),
        *address == url,
        made.shared() == state@,
        made.wf(),
        server ==> made.next_bi() == 1 && made.next_uni() == 3,
        !server ==> {
            &&& made.next_uni() == 2
            &&& made.next_bi() % 4 == 0
            &&& state@.session_id < made.next_bi() <= state@.session_id + 4
        },
{
    proto::error_code_survives(code);
}

/// One task at a time waits for the streams of a kind that the peer opens: it gets the queue, any
/// other task fails until the queue was put back, and what came out of the queue is what the task
/// gets; without a stream the session is closed. The other queue is not affected.
pub proof fn one_task_accepts<A, B, T>(
    taking: &mut Session<A, B>,
    taken: Result<B, SessionError>,
    again: &mut Session<A, B>,
    refused: Result<B, SessionError>,
    putting: &mut Session<A, B>,
    queue: B,
    next: Option<T>,
    stream: Result<T, SessionError>,
    after: &mut Session<A, B>,
    retaken: Result<B, SessionError>,
)
    requires
        call_ensures(Session::<A, B>::accept_uni, (taking,), taken),
        *final(taking) == *old(again),
        call_ensures(Session::<A, B>::accept_uni, (again,), refused),
        call_ensures(Session::<A, B>::accepted_uni::<T>, (putting, queue, next), stream),
        *final(putting) == *old(after),
        call_ensures(Session::<A, B>::accept_uni, (after,), retaken),
    ensures
        old(taking).uni_queue() matches Some(q) ==> taken == Ok::<B, SessionError>(q),
        old(taking).uni_queue() is None ==> taken == Err::<B, _>(SessionError::Closed),
        refused == Err::<B, _>(SessionError::Closed),
        next matches Some(s) ==> stream == Ok::<T, SessionError>(s),
        next is None ==> stream == Err::<T, _>(SessionError::Closed),
        retaken == Ok::<B, SessionError>(queue),
        final(taking).bi_queue() == old(taking).bi_queue(),
        final(putting).bi_queue() == old(putting).bi_queue(),
        final(taking).shared() == old(taking).shared(),
        final(putting).shared() == old(putting).shared(),
        final(taking).ids() == old(taking).ids(),
        final(putting).ids() == old(putting).ids(),
{
}

/// See [`one_task_accepts`], for the bidirectional streams.
pub proof fn one_task_accepts_bi<A, B, T>(
    taking: &mut Session<A, B>,
    taken: Result<A, SessionError>,
    again: &mut Session<A, B>,
    refused: Result<A, SessionError>,
    putting: &mut Session<A, B>,
    queue: A,
    next: Option<T>,
    stream: Result<T, SessionError>,
    after: &mut Session<A, B>,
    retaken: Result<A, SessionError>,
)
    requires
        call_ensures(Session::<A, B>::accept_bi, (taking,), taken),
        *final(taking) == *old(again),
        call_ensures(Session::<A, B>::accept_bi, (again,), refused),
        call_ensures(Session::<A, B>::accepted_bi::<T>, (putting, queue, next), stream),
        *final(putting) == *old(after),
        call_ensures(Session::<A, B>::accept_bi, (after,), retaken),
    ensures
        old(taking).bi_queue() matches Some(q) ==> taken == Ok::<A, SessionError>(q),
        old(taking).bi_queue() is None ==> taken == Err::<A, _>(SessionError::Closed),
        refused == Err::<A, _>(SessionError::Closed),
        next matches Some(s) ==> stream == Ok::<T, SessionError>(s),
        next is None ==> stream == Err::<T, _>(SessionError::Closed),
        retaken == Ok::<A, SessionError>(queue),
        final(taking).uni_queue() == old(taking).uni_queue(),
        final(putting).uni_queue() == old(putting).uni_queue(),
        final(taking).shared() == old(taking).shared(),
        final(putting).shared() == old(putting).shared(),
        final(taking).ids() == old(taking).ids(),
        final(putting).ids() == old(putting).ids(),
{
}

/// Two streams of a kind that a session opens one after the other have identifiers that follow each
/// other, of the kind that they are; an open of the other kind does not change that. Only a session
/// whose identifiers are used up opens none.
pub proof fn session_opens_the_next_stream<A, B>(
    first: &mut Session<A, B>,
    uni: Result<OpenedStream, SessionError>,
    second: &mut Session<A, B>,
    bi: Result<OpenedStream, SessionError>,
    third: &mut Session<A, B>,
    next: Result<OpenedStream, SessionError>,
)
    requires
        old(first).wf(),
        call_ensures(Session::<A, B>::open_uni, (first,), uni),
        *final(first) == *old(second),
        call_ensures(Session::<A, B>::open_bi, (second,), bi),
        *final(second) == *old(third),
        call_ensures(Session::<A, B>::open_uni, (third,), next),
    ensures
        uni is Ok <==> old(first).next_uni() < STREAM_ID_LIMIT,
        bi is Ok <==> old(first).next_bi() < STREAM_ID_LIMIT,
        uni matches Ok(stream) ==> stream.stream_id == old(first).next_uni() && !stream.bi
            && (stream.stream_id / 2) % 2 == 1,
        bi matches Ok(stream) ==> stream.stream_id == old(first).next_bi() && stream.bi
            && (stream.stream_id / 2) % 2 == 0,
        next matches Ok(stream) ==> stream.stream_id == old(first).next_uni() + 4,
        uni is Err ==> uni == Err::<OpenedStream, _>(
            SessionError::Quiche(QuicheError::StreamLimit),
        ),
        bi is Err ==> bi == Err::<OpenedStream, _>(SessionError::Quiche(QuicheError::StreamLimit)),
        final(third).shared() == old(first).shared(),
        final(third).bi_queue() == old(first).bi_queue(),
        final(third).uni_queue() == old(first).uni_queue(),
{
}

/// A session shares its state: what is done to one is done to the other, and nothing else of the
/// session changes. The state has the identifier that it was made with.
pub proof fn session_shares_its_state<A, B>(
    session: &mut Session<A, B>,
    shared: &mut ConnectionState,
    state: &ConnectionState,
    id: u64,
)
    requires
        old(session).wf(),
        call_ensures(Session::<A, B>::state, (session,), shared),
        call_ensures(ConnectionState::session_id, (state,), id),
    ensures
        old(shared).wf(),
        old(shared)@ == old(session).shared(),
        final(session).shared() == final(shared)@,
        final(shared).wf() ==> final(session).wf(),
        final(session).address() == old(session).address(),
        final(session).ids() == old(session).ids(),
        final(session).bi_queue() == old(session).bi_queue(),
        final(session).uni_queue() == old(session).uni_queue(),
        id == state@.session_id,
{
}

/// The tasks of some streams are woken one stream after the other, also when they are woken without
/// a driver; see [`driver_wakes_every_stream`].
pub proof fn streams_are_woken_alike(
    driver: &WebTransportDriver,
    state: &mut ConnectionState,
    same: &mut ConnectionState,
    ids: Vec<u64>,
    readers: (Vec<Waker>, Vec<Waker>),
    other: &mut ConnectionState,
    likewise: &mut ConnectionState,
    writers: (Vec<Waker>, Vec<Waker>),
)
    requires
        old(state)@ == old(same)@,
        call_ensures(
            WebTransportDriver::process_readable_streams,
            (driver, state, &ids),
            readers.0,
        ),
        call_ensures(ConnectionState::wake_recv_streams, (same, &ids), readers.1),
        old(other)@ == old(likewise)@,
        call_ensures(
            WebTransportDriver::process_writable_streams,
            (driver, other, &ids),
            writers.0,
        ),
        call_ensures(ConnectionState::wake_send_streams, (likewise, &ids), writers.1),
    ensures
        readers.0@ == readers.1@,
        final(state)@ == final(same)@,
        writers.0@ == writers.1@,
        final(other)@ == final(likewise)@,
{
}

} // verus!
