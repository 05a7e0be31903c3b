//! How a connection ends: what one side closes it with is what is sent, what the other side learns
//! and what everyone who waits is told.

use std::task::Waker;

use vstd::prelude::*;

use super::connection::{Connection, ConnectionClose, ConnectionClosed, DriverState};
use super::driver;
use super::driver::CloseFrame;
use super::error::{ConnectionError, QuicheError};
use crate::proto;
use crate::task::Poll;

verus! {

/// The code and the reason with which the application closes a connection are those of the
/// CONNECTION_CLOSE, whatever they are; so the peer can tell the error code of WebTransport.
pub proof fn close_is_sent_as_it_is(
    err: ConnectionError,
    code: u64,
    reason: String,
    frame: (u64, Vec<u8>),
    session_code: u32,
)
    requires
        call_ensures(driver::close_frame, (&err,), frame),
        err == ConnectionError::Local(code, reason) || err == ConnectionError::Remote(code, reason),
    ensures
        frame.0 == code,
        vstd::utf8::valid_utf8(frame.1@),
        vstd::utf8::decode_utf8(frame.1@) == reason@,
        code == proto::to_http3(session_code) ==> proto::from_http3(frame.0) == Some(session_code),
{
    vstd::utf8::encode_utf8_valid_utf8(reason@);
    vstd::utf8::encode_utf8_decode_utf8(reason@);
    proto::error_code_survives(session_code);
}

/// A connection that ends for another reason is closed with a code that says so, and with the text
/// of the reason.
pub proof fn other_ends_have_codes(
    err: ConnectionError,
    frame: (u64, Vec<u8>),
    cause: QuicheError,
    text: String,
    reason: String,
)
    requires
        call_ensures(driver::close_frame, (&err,), frame),
        call_ensures(QuicheError::text, (&cause,), text),
    ensures
        err == ConnectionError::Dropped ==> frame.0 == 0 && vstd::utf8::decode_utf8(frame.1@)
            == "dropped"@,
        err == ConnectionError::Quiche(cause) ==> frame.0 == 500 && vstd::utf8::decode_utf8(
            frame.1@,
        ) == text@,
        err == ConnectionError::Unknown(reason) ==> frame.0 == 501 && vstd::utf8::decode_utf8(
            frame.1@,
        ) == reason@,
{
    vstd::utf8::encode_utf8_decode_utf8("dropped"@);
    vstd::utf8::encode_utf8_decode_utf8(text@);
    vstd::utf8::encode_utf8_decode_utf8(reason@);
}

/// The peer learns the code and the reason with which the connection was closed, unless it closed
/// the connection itself; and so does this side, once the connection is done.
pub proof fn peer_learns_the_close(
    code: u64,
    reason: String,
    frame: (u64, Vec<u8>),
    sent: CloseFrame,
    other: Option<CloseFrame>,
    result: Result<(), String>,
    at_peer: ConnectionError,
    here: ConnectionError,
)
    requires
        call_ensures(driver::close_frame, (&ConnectionError::Local(code, reason),), frame),
        sent.error_code == frame.0,
        sent.reason@ == frame.1@,
        call_ensures(
            driver::end_of_connection,
            (Poll::<ConnectionError>::Pending, None::<CloseFrame>, Some(sent), result),
            at_peer,
        ),
        call_ensures(
            driver::end_of_connection,
            (Poll::<ConnectionError>::Pending, Some(sent), other, result),
            here,
        ),
    ensures
        at_peer matches ConnectionError::Remote(c, text) && c == code && text@ == reason@,
        here matches ConnectionError::Local(c, text) && c == code && text@ == reason@,
{
    vstd::utf8::encode_utf8_valid_utf8(reason@);
    vstd::utf8::encode_utf8_decode_utf8(reason@);
}

/// What the application closed a connection for is how it ended, whatever else happened. Without
/// that the code of what was sent or received counts, also when its reason is not a text, and only
/// without either the error that the connection ended with.
pub proof fn end_of_a_connection_has_one_cause(
    closed: Poll<ConnectionError>,
    local: Option<CloseFrame>,
    peer: Option<CloseFrame>,
    result: Result<(), String>,
    end: ConnectionError,
)
    requires
        call_ensures(driver::end_of_connection, (closed, local, peer, result), end),
    ensures
        closed matches Poll::Ready(err) ==> end == err,
        closed is Pending && local is Some ==> (end matches ConnectionError::Local(c, _) && c
            == local->0.error_code),
        closed is Pending && local is None && peer is Some ==> (end matches ConnectionError::Remote(
            c,
            _,
        ) && c == peer->0.error_code),
        closed is Pending && local is None && peer is None ==> {
            &&& result matches Err(text) ==> end == ConnectionError::Unknown(text)
            &&& result is Ok ==> (end matches ConnectionError::Unknown(text) && text@
                == "no error message"@)
        },
{
}

/// The first poll after the handshake fails a connection exactly if it failed itself, with the same
/// error.
pub proof fn first_poll_fails_with_its_error(
    polled: Poll<Result<(), ConnectionError>>,
    res: Result<(), ConnectionError>,
    err: ConnectionError,
)
    requires
        call_ensures(driver::connected, (polled,), res),
    ensures
        res == Err::<(), ConnectionError>(err) <==> polled == Poll::Ready(
            Err::<(), ConnectionError>(err),
        ),
{
}

/// The first error that a connection ends with is the one that everyone is told: those who waited
/// are woken by it, all of them and once, and whoever asks later gets it at once. A later error
/// changes nothing.
pub proof fn first_end_is_told(
    waiting: &mut ConnectionClosed,
    waker: Waker,
    pending: Poll<ConnectionError>,
    first: &mut ConnectionClosed,
    err: ConnectionError,
    woken: Vec<Waker>,
    second: &mut ConnectionClosed,
    late: ConnectionError,
    nobody: Vec<Waker>,
    after: &mut ConnectionClosed,
    other: Waker,
    told: Poll<ConnectionError>,
    known: Option<ConnectionError>,
    is_closed: bool,
)
    requires
        call_ensures(ConnectionClosed::poll, (waiting, waker), pending),
        pending is Pending,
        final(waiting)@ == old(first)@,
        call_ensures(ConnectionClosed::abort, (first, err), woken),
        final(first)@ == old(second)@,
        call_ensures(ConnectionClosed::abort, (second, late), nobody),
        final(second)@ == old(after)@,
        call_ensures(ConnectionClosed::poll, (after, other), told),
        call_ensures(ConnectionClosed::error, (&*after,), known),
        call_ensures(ConnectionClosed::is_closed, (&*after,), is_closed),
    ensures
        woken@ == old(waiting)@.wakers.push(waker),
        nobody@.len() == 0,
        told == Poll::Ready(err),
        known == Some(err),
        is_closed,
        final(after)@ == old(after)@,
{
}

/// A connection that nobody closed is not closed, and whoever asks for its end waits.
pub proof fn open_connection_is_not_closed(
    closed: ConnectionClosed,
    polled: &mut ConnectionClosed,
    waker: Waker,
    res: Poll<ConnectionError>,
    is_closed: bool,
)
    requires
        call_ensures(<ConnectionClosed as Default>::default, (), closed),
        closed@ == old(polled)@,
        call_ensures(ConnectionClosed::poll, (polled, waker), res),
        call_ensures(ConnectionClosed::is_closed, (&closed,), is_closed),
    ensures
        res is Pending,
        !is_closed,
        final(polled)@.wakers == seq![waker],
{
}

/// What the application closes a connection with is what the driver is told, the driver is woken
/// for it, and the connection counts as closed at once; but it ends, for whoever waits for that,
/// only once it is done, and then with the error that it ended with.
pub proof fn close_reaches_the_driver(
    waiting: &mut DriverState,
    driver: Waker,
    pending: Poll<ConnectionError>,
    closing: &mut DriverState,
    err: ConnectionError,
    woken: Vec<Waker>,
    asked: &mut DriverState,
    again: Waker,
    told: Poll<ConnectionError>,
    is_closed: bool,
    ended: &mut DriverState,
    app: Waker,
    end: Poll<ConnectionError>,
)
    requires
        call_ensures(DriverState::poll_local, (waiting, driver), pending),
        pending is Pending,
        final(waiting)@ == old(closing)@,
        call_ensures(DriverState::close, (closing, err), woken),
        final(closing)@ == old(asked)@,
        call_ensures(DriverState::poll_local, (asked, again), told),
        call_ensures(DriverState::is_closed, (&*asked,), is_closed),
        final(closing)@ == old(ended)@,
        call_ensures(DriverState::closed, (ended, app), end),
    ensures
        woken@.contains(driver),
        told == Poll::Ready(err),
        is_closed,
        end is Pending <==> old(waiting)@.remote.err is None,
        final(closing)@.remote == old(waiting)@.remote,
        final(closing)@.send == old(waiting)@.send,
        final(closing)@.recv == old(waiting)@.recv,
{
    let n = old(waiting)@.local.wakers.len() as int;
    assert(woken@[n] == driver);
}

/// How a connection ended, once it is done, is what everyone who waits for its end is told.
pub proof fn end_reaches_the_application(
    waiting: &mut DriverState,
    waker: Waker,
    pending: Poll<ConnectionError>,
    finishing: &mut DriverState,
    err: ConnectionError,
    woken: Vec<Waker>,
    asked: &mut DriverState,
    other: Waker,
    told: Poll<ConnectionError>,
    is_closed: bool,
)
    requires
        call_ensures(DriverState::closed, (waiting, waker), pending),
        pending is Pending,
        final(waiting)@ == old(finishing)@,
        call_ensures(DriverState::finish, (finishing, err), woken),
        final(finishing)@ == old(asked)@,
        call_ensures(DriverState::closed, (asked, other), told),
        call_ensures(DriverState::is_closed, (&*asked,), is_closed),
    ensures
        woken@.contains(waker),
        told == Poll::Ready(err),
        is_closed,
        final(finishing)@.local == old(waiting)@.local,
{
    let n = old(waiting)@.remote.wakers.len() as int;
    assert(woken@[n] == waker);
}

/// A step of the driver that fails closes the connection with its error; one that does not fail
/// changes nothing and wakes nobody.
pub proof fn failed_step_closes(
    state: &mut DriverState,
    res: Result<(), ConnectionError>,
    woken: Vec<Waker>,
    same: &mut DriverState,
    err: ConnectionError,
    wakers: Vec<Waker>,
)
    requires
        call_ensures(DriverState::abort_on_error, (state, res), woken),
        old(state)@ == old(same)@,
        call_ensures(DriverState::close, (same, err), wakers),
    ensures
        res is Ok ==> final(state)@ == old(state)@ && woken@.len() == 0,
        res == Err::<(), ConnectionError>(err) ==> final(state)@ == final(same)@ && woken@
            == wakers@,
{
}

/// A close of a connection reports the error of the connection exactly if it was closed before by
/// either side; only a connection that the application had not closed yet gets the code and the
/// reason, as they are given.
pub proof fn second_close_is_reported(
    connection: &mut Connection,
    code: u64,
    reason: &str,
    closed: (Vec<Waker>, Result<(), ConnectionError>),
    before: bool,
    asked: &mut DriverState,
    waker: Waker,
    told: Poll<ConnectionError>,
)
    requires
        call_ensures(Connection::is_closed, (&*connection,), before),
        call_ensures(Connection::close, (connection, code, reason), closed),
        final(connection)@ == old(asked)@,
        call_ensures(DriverState::poll_local, (asked, waker), told),
    ensures
        closed.1 is Err <==> before,
        old(connection)@.local.err is None ==> (told matches Poll::Ready(
            ConnectionError::Local(c, text),
        ) && c == code && text@ == reason@),
        old(connection)@.local.err matches Some(err) ==> told == Poll::Ready(err) && closed.1
            == Err::<(), ConnectionError>(err),
        final(connection)@.remote == old(connection)@.remote,
        closed.0@ == (if old(connection)@.local.err is None {
            old(connection)@.local.wakers
        } else {
            Seq::empty()
        }) + (old(connection)@.bi.wakers + old(connection)@.uni.wakers),
{
}

/// A connection whose last reference goes away is closed as dropped, unless it was closed before.
pub proof fn last_reference_closes(
    close: &mut ConnectionClose,
    woken: Vec<Waker>,
    asked: &mut DriverState,
    waker: Waker,
    told: Poll<ConnectionError>,
    is_closed: bool,
)
    requires
        call_ensures(ConnectionClose::drop_last, (close,), woken),
        final(close)@ == old(asked)@,
        call_ensures(DriverState::poll_local, (asked, waker), told),
        call_ensures(DriverState::is_closed, (&*asked,), is_closed),
    ensures
        old(close)@.local.err is None ==> told == Poll::Ready(ConnectionError::Dropped),
        old(close)@.local.err matches Some(err) ==> told == Poll::Ready(err),
        old(close)@.local.err is None ==> forall|i: int|
            0 <= i < old(close)@.local.wakers.len() ==> woken@.contains(
                #[trigger] old(close)@.local.wakers[i],
            ),
        is_closed,
        final(close)@.remote == old(close)@.remote,
{
    assert forall|i: int| 0 <= i < old(close)@.local.wakers.len() && old(close)@.local.err is None
        implies woken@.contains(#[trigger] old(close)@.local.wakers[i]) by {
        assert(woken@[i] == old(close)@.local.wakers[i]);
    }
}

/// The handles of a connection speak of the same state: each says what the state says.
pub proof fn handles_share_the_state(
    connection: &mut Connection,
    close: &mut ConnectionClose,
    state: &mut DriverState,
    waker: Waker,
    ends: (Poll<ConnectionError>, Poll<ConnectionError>, Poll<ConnectionError>),
    closed: (bool, bool, bool),
)
    requires
        old(connection)@ == old(state)@,
        old(close)@ == old(state)@,
        call_ensures(Connection::is_closed, (&*connection,), closed.0),
        call_ensures(ConnectionClose::is_closed, (&*close,), closed.1),
        call_ensures(DriverState::is_closed, (&*state,), closed.2),
        call_ensures(Connection::closed, (connection, waker), ends.0),
        call_ensures(ConnectionClose::wait, (close, waker), ends.1),
        call_ensures(DriverState::closed, (state, waker), ends.2),
    ensures
        closed.0 == closed.2,
        closed.1 == closed.2,
        closed.2 <==> old(state)@.local.err is Some || old(state)@.remote.err is Some,
        ends.0 == ends.2,
        ends.1 == ends.2,
        final(connection)@ == final(state)@,
        final(close)@ == final(state)@,
        ends.2 is Pending ==> final(state)@.remote.wakers == old(state)@.remote.wakers.push(waker),
{
}

/// A connection shares its state with its driver: what is done to one is done to the other. Closing
/// it through any handle is the same.
pub proof fn handles_change_the_state(
    driver: DriverState,
    made: (Connection, ConnectionClose),
    connection: &mut Connection,
    shared: &mut DriverState,
    close: &mut ConnectionClose,
    by_close: &mut DriverState,
    closing: &mut ConnectionClose,
    state: &mut DriverState,
    err: ConnectionError,
    woken: (Vec<Waker>, Vec<Waker>),
)
    requires
        call_ensures(Connection::new, (driver,), made.0),
        call_ensures(ConnectionClose::new, (driver,), made.1),
        call_ensures(Connection::driver, (connection,), shared),
        call_ensures(ConnectionClose::driver, (close,), by_close),
        old(closing)@ == old(state)@,
        call_ensures(ConnectionClose::close, (closing, err), woken.0),
        call_ensures(DriverState::close, (state, err), woken.1),
    ensures
        made.0@ == driver@,
        made.1@ == driver@,
        old(shared)@ == old(connection)@,
        final(connection)@ == final(shared)@,
        old(by_close)@ == old(close)@,
        final(close)@ == final(by_close)@,
        final(closing)@ == final(state)@,
        woken.0@ == woken.1@,
{
}

} // verus!
