//! Error codes on their way: the code that one side of a session gives is the code that the other
//! side is told, and a code that is not one of WebTransport is kept as it is.

use std::task::Waker;

use bytes::Bytes;
use vstd::prelude::*;

use crate::buffer;
use crate::client;
use crate::connect::ConnectError;
use crate::error::{
    ClientError, IoError, ServerError, SessionError, StreamError, WebTransportError,
};
use crate::ez;
use crate::ez::connection::DriverState;
use crate::ez::error::{ConnectionError, QuicheError};
use crate::ez::recv::{RecvAction, RecvEvent, RecvState};
use crate::ez::send::{SendAction, SendEvent, SendState, SendView};
use crate::proto;
use crate::quinn;
use crate::recv::RecvStream;
use crate::send::{SendError, SendStream};
use crate::server;
use crate::tauri;
use crate::task::Poll;
use crate::text::HexError;

verus! {

/// A stream that was broken off says by which side and with which code: with the error code of
/// WebTransport if it is one, and otherwise with the code as it is.
pub proof fn broken_stream_has_its_code(err: ez::stream::StreamError, res: StreamError, code: u64)
    requires
        call_ensures(<StreamError as From<ez::stream::StreamError>>::from, (err,), res),
    ensures
        err == ez::stream::StreamError::Closed <==> res == StreamError::Closed,
        err == ez::stream::StreamError::Reset(code) ==> match proto::from_http3(code) {
            Some(c) => res == StreamError::Reset(c),
            None => res == StreamError::InvalidReset(code),
        },
        err == ez::stream::StreamError::Stop(code) ==> match proto::from_http3(code) {
            Some(c) => res == StreamError::Stop(c),
            None => res == StreamError::InvalidStop(code),
        },
{
}

/// The code with which one side breaks a stream off is the code that the other side is told,
/// whatever it is: it survives the way through HTTP/3.
pub proof fn stream_code_survives(
    code: u32,
    reset: StreamError,
    stop: StreamError,
    write: SendError,
)
    requires
        call_ensures(
            <StreamError as From<ez::stream::StreamError>>::from,
            (ez::stream::StreamError::Reset(proto::to_http3(code)),),
            reset,
        ),
        call_ensures(
            <StreamError as From<ez::stream::StreamError>>::from,
            (ez::stream::StreamError::Stop(proto::to_http3(code)),),
            stop,
        ),
        call_ensures(
            <SendError as From<ez::error::SendError>>::from,
            (ez::error::SendError::Stop(proto::to_http3(code)),),
            write,
        ),
    ensures
        reset == StreamError::Reset(code),
        stop == StreamError::Stop(code),
        write == SendError::Stop(code),
{
    proto::error_code_survives(code);
}

/// A session that is closed with an error code of WebTransport, by either side, is closed with that
/// code and reason; one whose connection is closed with another code is closed, and one whose
/// connection failed has failed with the same error.
pub proof fn session_ends_as_its_connection(
    err: ConnectionError,
    res: SessionError,
    code: u64,
    reason: String,
    session_code: u32,
    cause: QuicheError,
)
    requires
        call_ensures(<SessionError as From<ConnectionError>>::from, (err,), res),
    ensures
        err == ConnectionError::Remote(code, reason) || err == ConnectionError::Local(code, reason)
            ==> {
            &&& code == proto::to_http3(session_code) ==> res == SessionError::WebTransport(
                WebTransportError::Closed(session_code, reason),
            )
            &&& proto::from_http3(code) is None ==> res == SessionError::Closed
        },
        err == ConnectionError::Quiche(cause) ==> res == SessionError::Quiche(cause),
        err == ConnectionError::Dropped ==> res == SessionError::Closed,
        err is Unknown ==> res == SessionError::Unknown,
{
    proto::error_code_survives(session_code);
}

/// A write that fails with the connection fails with the error of the session; a stop with a code
/// that is not one of WebTransport keeps its code.
pub proof fn failed_write_has_its_cause(
    err: ez::error::SendError,
    res: SendError,
    code: u64,
    cause: ConnectionError,
    session: SessionError,
)
    requires
        call_ensures(<SendError as From<ez::error::SendError>>::from, (err,), res),
        call_ensures(<SessionError as From<ConnectionError>>::from, (cause,), session),
    ensures
        err == ez::error::SendError::Stop(code) && proto::from_http3(code) is None ==> res
            == SendError::InvalidStop(code),
        err == ez::error::SendError::Connection(cause) ==> res == SendError::Session(session),
{
}

/// A write on a stream of a session is a write on its QUIC stream, with the same outcome but that
/// its error is one of the session: a stop has its code, and a stream that this side closed belongs
/// to a session that is closed.
pub proof fn write_is_one_of_the_stream(
    stream: &mut SendStream,
    driver: &mut DriverState,
    waker: Waker,
    data: &[u8],
    res: (Poll<Result<usize, SendError>>, Option<Waker>),
    inner: &mut ez::send::SendStream,
    same: &mut DriverState,
    quic: (Poll<Result<usize, ez::stream::StreamError>>, Option<Waker>),
)
    requires
        old(stream).is_open(),
        old(stream)@ == old(inner)@,
        old(driver)@ == old(same)@,
        call_ensures(SendStream::write, (stream, driver, waker, data), res),
        call_ensures(ez::send::SendStream::write, (inner, same, waker, data), quic),
    ensures
        final(stream)@ == final(inner)@,
        final(stream).is_open(),
        final(driver)@ == final(same)@,
        res.1 == quic.1,
        res.0 is Pending <==> quic.0 is Pending,
        quic.0 matches Poll::Ready(Ok(n)) ==> res.0 == Poll::Ready(Ok::<usize, SendError>(n)),
        quic.0 matches Poll::Ready(Err(ez::stream::StreamError::Stop(code))) ==> match
            proto::from_http3(code) {
            Some(c) => res.0 == Poll::Ready(Err::<usize, _>(SendError::Stop(c))),
            None => res.0 == Poll::Ready(Err::<usize, _>(SendError::InvalidStop(code))),
        },
        quic.0 matches Poll::Ready(Err(err)) ==> (!(err is Stop) ==> res.0 == Poll::Ready(
            Err::<usize, _>(SendError::Session(SessionError::Closed)),
        )),
{
}

/// See [`write_is_one_of_the_stream`], for a write of a buffer.
pub proof fn buffer_write_is_one_of_the_stream(
    stream: &mut SendStream,
    driver: &mut DriverState,
    waker: Waker,
    buf: &mut Bytes,
    res: (Poll<Result<usize, SendError>>, Option<Waker>),
    inner: &mut ez::send::SendStream,
    same: &mut DriverState,
    other: &mut Bytes,
    quic: (Poll<Result<usize, ez::stream::StreamError>>, Option<Waker>),
)
    requires
        old(stream).is_open(),
        old(stream)@ == old(inner)@,
        old(driver)@ == old(same)@,
        buffer::bytes_of(*old(buf)) == buffer::bytes_of(*old(other)),
        call_ensures(SendStream::write_buf, (stream, driver, waker, buf), res),
        call_ensures(ez::send::SendStream::write_buf, (inner, same, waker, other), quic),
    ensures
        final(stream)@ == final(inner)@,
        final(stream).is_open(),
        final(driver)@ == final(same)@,
        buffer::bytes_of(*final(buf)) == buffer::bytes_of(*final(other)),
        res.1 == quic.1,
        res.0 is Pending <==> quic.0 is Pending,
        quic.0 matches Poll::Ready(Ok(n)) ==> res.0 == Poll::Ready(Ok::<usize, SendError>(n)),
        quic.0 matches Poll::Ready(Err(ez::stream::StreamError::Stop(code))) ==> match
            proto::from_http3(code) {
            Some(c) => res.0 == Poll::Ready(Err::<usize, _>(SendError::Stop(c))),
            None => res.0 == Poll::Ready(Err::<usize, _>(SendError::InvalidStop(code))),
        },
        quic.0 matches Poll::Ready(Err(err)) ==> (!(err is Stop) ==> res.0 == Poll::Ready(
            Err::<usize, _>(SendError::Session(SessionError::Closed)),
        )),
{
}

/// A stream of a session that is reset is reset, at the next flush, with a code that the peer is
/// told as the one that was given, whatever it is; and the driver is told of it.
pub proof fn reset_reaches_the_peer(
    stream: &mut SendStream,
    driver: &mut DriverState,
    code: u32,
    woken: Option<Waker>,
    flushed: &mut SendState,
    action: SendAction,
)
    requires
        old(stream).is_open(),
        call_ensures(SendStream::reset, (stream, driver, code), woken),
        final(stream)@ == old(flushed)@,
        call_ensures(SendState::flush, (flushed, SendEvent::Start), action),
    ensures
        action is Shutdown,
        proto::from_http3(action->Shutdown_0) == Some(code),
        final(driver)@.send.streams.contains(old(stream)@.id.0),
        !final(stream).is_open(),
{
    proto::error_code_survives(code);
}

/// A stream of a session that is finished, or given up while it is open, is finished: what was
/// written is still sent, and then its end; unless it was broken off. The driver is told of it. A
/// stream that was finished or reset before stays as it is when it is given up.
pub proof fn finished_stream_sends_everything(
    stream: &mut SendStream,
    driver: &mut DriverState,
    woken: Option<Waker>,
    dropped: &mut SendStream,
    same: &mut DriverState,
    drop_woken: Option<Waker>,
)
    requires
        old(stream).is_open(),
        old(stream)@ == old(dropped)@,
        old(driver)@ == old(same)@,
        call_ensures(SendStream::finish, (stream, driver), woken),
        call_ensures(SendStream::drop_handle, (dropped, same), drop_woken),
    ensures
        !final(stream).is_open(),
        !final(dropped).is_open(),
        old(stream)@.reset is None && old(stream)@.stop is None && !old(stream)@.fin ==> {
            &&& final(stream)@ == (SendView { fin: true, ..old(stream)@ })
            &&& final(driver)@.send.streams.contains(old(stream)@.id.0)
        },
        old(stream)@.reset is Some || old(stream)@.stop is Some || old(stream)@.fin ==> {
            &&& final(stream)@ == old(stream)@
            &&& final(driver)@ == old(driver)@
            &&& woken is None
        },
        old(dropped).is_open() ==> {
            &&& final(dropped)@ == final(stream)@
            &&& final(same)@ == final(driver)@
            &&& drop_woken == woken
        },
        !old(dropped).is_open() ==> {
            &&& final(dropped)@ == old(dropped)@
            &&& final(same)@ == old(same)@
            &&& drop_woken is None
        },
{
}

/// A read on a stream of a session is a read on its QUIC stream, with the same outcome but that its
/// error has the code of the session.
pub proof fn read_is_one_of_the_stream(
    stream: &mut RecvStream,
    driver: &mut DriverState,
    waker: Waker,
    max: usize,
    res: (Poll<Result<Option<Bytes>, StreamError>>, Option<Waker>),
    inner: &mut ez::recv::RecvStream,
    same: &mut DriverState,
    quic: (Poll<Result<Option<Bytes>, ez::stream::StreamError>>, Option<Waker>),
    err: ez::stream::StreamError,
    session: StreamError,
)
    requires
        old(stream)@.wf() && old(stream)@.is_idle(),
        old(stream)@ == old(inner)@,
        old(driver)@ == old(same)@,
        call_ensures(RecvStream::read_chunk, (stream, driver, waker, max), res),
        call_ensures(ez::recv::RecvStream::read_chunk, (inner, same, waker, max), quic),
        call_ensures(<StreamError as From<ez::stream::StreamError>>::from, (err,), session),
    ensures
        final(stream)@ == final(inner)@,
        final(driver)@ == final(same)@,
        res.1 == quic.1,
        res.0 is Pending <==> quic.0 is Pending,
        quic.0 matches Poll::Ready(Ok(Some(chunk))) ==> {
            &&& res.0 matches Poll::Ready(Ok(Some(data)))
            &&& buffer::bytes_of(data) == buffer::bytes_of(chunk)
        },
        quic.0 matches Poll::Ready(Ok(None)) ==> (res.0 matches Poll::Ready(Ok(None))),
        quic.0 == Poll::Ready(Err::<Option<Bytes>, _>(err)) ==> res.0 == Poll::Ready(
            Err::<Option<Bytes>, _>(session),
        ),
{
}

/// See [`read_is_one_of_the_stream`], for a read into a slice.
pub proof fn slice_read_is_one_of_the_stream(
    stream: &mut RecvStream,
    driver: &mut DriverState,
    waker: Waker,
    buf: &mut [u8],
    res: (Poll<Result<Option<usize>, StreamError>>, Option<Waker>),
    inner: &mut ez::recv::RecvStream,
    same: &mut DriverState,
    other: &mut [u8],
    quic: (Poll<Result<Option<usize>, ez::stream::StreamError>>, Option<Waker>),
    err: ez::stream::StreamError,
    session: StreamError,
)
    requires
        old(stream)@.wf() && old(stream)@.is_idle(),
        old(stream)@ == old(inner)@,
        old(driver)@ == old(same)@,
        old(buf)@ == old(other)@,
        call_ensures(RecvStream::read, (stream, driver, waker, buf), res),
        call_ensures(ez::recv::RecvStream::read, (inner, same, waker, other), quic),
        call_ensures(<StreamError as From<ez::stream::StreamError>>::from, (err,), session),
    ensures
        final(stream)@ == final(inner)@,
        final(driver)@ == final(same)@,
        final(buf)@ == final(other)@,
        res.1 == quic.1,
        res.0 is Pending <==> quic.0 is Pending,
        quic.0 matches Poll::Ready(Ok(n)) ==> res.0 == Poll::Ready(
            Ok::<Option<usize>, StreamError>(n),
        ),
        quic.0 == Poll::Ready(Err::<Option<usize>, _>(err)) ==> res.0 == Poll::Ready(
            Err::<Option<usize>, _>(session),
        ),
{
}

/// A stream of a session that is stopped is stopped, at the next flush, with a code that the peer
/// is told as the one that was given, whatever it is, unless the peer reset it; and the driver is
/// told of it.
pub proof fn stop_reaches_the_peer(
    stream: &mut RecvStream,
    driver: &mut DriverState,
    code: u32,
    woken: Option<Waker>,
    flushed: &mut RecvState,
    action: RecvAction,
)
    requires
        old(stream)@.wf() && old(stream)@.is_idle(),
        old(stream)@.reset is None,
        call_ensures(RecvStream::close, (stream, driver, code), woken),
        final(stream)@ == old(flushed)@,
        call_ensures(RecvState::flush, (flushed, RecvEvent::Start), action),
    ensures
        action is Shutdown,
        proto::from_http3(action->Shutdown_0) == Some(code),
        final(driver)@.recv.streams.contains(old(stream)@.id.0),
{
    proto::error_code_survives(code);
}

/// A stream of a session that is given up before its end is stopped, with a code that says so; one
/// that has ended or was broken off stays as it is.
pub proof fn dropped_stream_is_stopped(
    stream: &mut RecvStream,
    driver: &mut DriverState,
    woken: Option<Waker>,
    flushed: &mut RecvState,
    action: RecvAction,
)
    requires
        old(stream)@.wf() && old(stream)@.is_idle(),
        call_ensures(RecvStream::drop_handle, (stream, driver), woken),
        final(stream)@ == old(flushed)@,
        call_ensures(RecvState::flush, (flushed, RecvEvent::Start), action),
    ensures
        old(stream)@.reset is None && old(stream)@.stop is None && !(old(stream)@.fin && old(
            stream)@.queued.len() == 0) ==> {
            &&& action is Shutdown
            &&& proto::from_http3(action->Shutdown_0) == Some(0x44454356u32)
            &&& final(driver)@.recv.streams.contains(old(stream)@.id.0)
        },
        old(stream)@.reset is Some || old(stream)@.stop is Some || (old(stream)@.fin && old(
            stream)@.queued.len() == 0) ==> {
            &&& final(stream)@ == old(stream)@
            &&& final(driver)@ == old(driver)@
            &&& woken is None
        },
{
    proto::error_code_survives(0x44454356);
}

/// The end of a stream of a session is the end of its QUIC stream, with the code of the session if
/// it was broken off. The handles of a stream speak of the same stream.
pub proof fn end_is_one_of_the_stream(
    stream: &mut RecvStream,
    waker: Waker,
    res: Poll<Result<(), StreamError>>,
    inner: &mut ez::recv::RecvStream,
    quic: Poll<Result<(), ez::stream::StreamError>>,
    err: ez::stream::StreamError,
    session: StreamError,
    new_recv: (ez::recv::RecvStream, RecvStream),
    new_send: (ez::send::SendStream, SendStream),
)
    requires
        old(stream)@ == old(inner)@,
        call_ensures(RecvStream::closed, (stream, waker), res),
        call_ensures(ez::recv::RecvStream::closed, (inner, waker), quic),
        call_ensures(<StreamError as From<ez::stream::StreamError>>::from, (err,), session),
        call_ensures(RecvStream::new, (new_recv.0,), new_recv.1),
        call_ensures(SendStream::new, (new_send.0,), new_send.1),
    ensures
        final(stream)@ == final(inner)@,
        res is Pending <==> quic is Pending,
        quic matches Poll::Ready(Ok(_)) <==> (res matches Poll::Ready(Ok(_))),
        quic == Poll::Ready(Err::<(), _>(err)) ==> res == Poll::Ready(Err::<(), _>(session)),
        new_recv.1@ == new_recv.0@,
        new_send.1@ == new_send.0@,
        new_send.1.is_open(),
{
}

/// Over Quinn, an error of the session is one however it came about; every other error is kept as
/// what it is.
pub proof fn session_failure_is_one_of_the_session(
    session: SessionError,
    by_session: quinn::Error,
    write: crate::error::WriteError,
    by_write: quinn::Error,
    read: crate::error::ReadError,
    by_read: quinn::Error,
    client: crate::error::ClientError,
    by_client: quinn::Error,
)
    requires
        call_ensures(<quinn::Error as From<SessionError>>::from, (session,), by_session),
        call_ensures(<quinn::Error as From<crate::error::WriteError>>::from, (write,), by_write),
        call_ensures(<quinn::Error as From<crate::error::ReadError>>::from, (read,), by_read),
        call_ensures(
            <quinn::Error as From<crate::error::ClientError>>::from,
            (client,),
            by_client,
        ),
    ensures
        by_session == quinn::Error::Session(session),
        write == crate::error::WriteError::SessionError(session) <==> by_write
            == quinn::Error::Session(session),
        !(write is SessionError) ==> by_write == quinn::Error::Write(write),
        read == crate::error::ReadError::SessionError(session) <==> by_read
            == quinn::Error::Session(session),
        !(read is SessionError) ==> by_read == quinn::Error::Read(read),
        by_client == quinn::Error::Client(client),
{
}

/// An error that is wrapped is kept as it is, under the name of what failed.
pub proof fn wrapped_error_is_kept(
    io: IoError,
    quic: QuicheError,
    protocol: WebTransportError,
    request: ConnectError,
    hex: HexError,
    by_io: (ClientError, ServerError, client::ClientError, server::ServerError),
    by_quic: (ClientError, ServerError, SessionError, ConnectionError),
    by_protocol: SessionError,
    by_request: (client::ClientError, server::ServerError),
    by_hex: tauri::error::Error,
)
    requires
        call_ensures(<ClientError as From<IoError>>::from, (io,), by_io.0),
        call_ensures(<ServerError as From<IoError>>::from, (io,), by_io.1),
        call_ensures(<client::ClientError as From<IoError>>::from, (io,), by_io.2),
        call_ensures(<server::ServerError as From<IoError>>::from, (io,), by_io.3),
        call_ensures(<ClientError as From<QuicheError>>::from, (quic,), by_quic.0),
        call_ensures(<ServerError as From<QuicheError>>::from, (quic,), by_quic.1),
        call_ensures(<SessionError as From<QuicheError>>::from, (quic,), by_quic.2),
        call_ensures(<ConnectionError as From<QuicheError>>::from, (quic,), by_quic.3),
        call_ensures(<SessionError as From<WebTransportError>>::from, (protocol,), by_protocol),
        call_ensures(<client::ClientError as From<ConnectError>>::from, (request,), by_request.0),
        call_ensures(<server::ServerError as From<ConnectError>>::from, (request,), by_request.1),
        call_ensures(<tauri::error::Error as From<HexError>>::from, (hex,), by_hex),
    ensures
        by_io.0 == ClientError::IoError(io),
        by_io.1 == ServerError::IoError(io),
        by_io.2 == client::ClientError::Io(io),
        by_io.3 == server::ServerError::Io(io),
        by_quic.0 == ClientError::Quiche(quic),
        by_quic.1 == ServerError::Quiche(quic),
        by_quic.2 == SessionError::Quiche(quic),
        by_quic.3 == ConnectionError::Quiche(quic),
        by_protocol == SessionError::WebTransport(protocol),
        by_request.0 == client::ClientError::Connect(request),
        by_request.1 == server::ServerError::Connect(request),
        by_hex == tauri::error::Error::Hex(hex),
{
}

/// A stream of a session shares its QUIC stream: what is done to one is done to the other.
pub proof fn session_stream_shares_its_stream(
    send: &mut SendStream,
    send_inner: &mut ez::send::SendStream,
    recv: &mut RecvStream,
    recv_inner: &mut ez::recv::RecvStream,
)
    requires
        call_ensures(SendStream::inner, (send,), send_inner),
        call_ensures(RecvStream::inner, (recv,), recv_inner),
    ensures
        old(send_inner)@ == old(send)@,
        final(send)@ == final(send_inner)@,
        final(send).is_open() == old(send).is_open(),
        old(recv_inner)@ == old(recv)@,
        final(recv)@ == final(recv_inner)@,
{
}

} // verus!
