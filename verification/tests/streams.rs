use std::task::Waker;

use bytes::Bytes;
use web_transport::error::{
    ClientError, ReadError, SessionError, StreamError, WebTransportError, WriteError,
};
use web_transport::ez;
use web_transport::ez::connection::DriverState;
use web_transport::ez::error::{ConnectionError, QuicheError};
use web_transport::ez::recv::{RecvAction, RecvEvent, RecvState};
use web_transport::ez::send::{SendAction, SendEvent, SendState};
use web_transport::ez::stream::StreamId;
use web_transport::quinn;
use web_transport::recv::{RecvStream, DROP_CODE};
use web_transport::send::{SendError, SendStream};
use web_transport::task::Poll;

/// The HTTP/3 error code of a small error code.
fn http3_code(code: u64) -> u64 {
    assert!(code < 30);
    0x52e4a40fa8db + code
}

fn noop() -> Waker {
    Waker::noop().clone()
}

fn send_stream(capacity: usize) -> SendStream {
    let mut state = SendState::new(StreamId(0));
    state.flush(SendEvent::Start);
    state.flush(SendEvent::Capacity(Ok(capacity)));
    SendStream::new(ez::send::SendStream::new(state))
}

fn recv_stream() -> RecvStream {
    RecvStream::new(ez::recv::RecvStream::new(RecvState::new(StreamId(1))))
}

#[test]
fn recv_stream_is_stopped_with_a_session_code() {
    let mut driver = DriverState::new(false);
    let mut stream = recv_stream();
    stream.close(&mut driver, 30);
    assert!(matches!(
        stream.inner().state().flush(RecvEvent::Start),
        RecvAction::Shutdown(0x52e4a40fa8fa)
    ));
    assert!(matches!(
        stream.closed(noop()),
        Poll::Ready(Err(StreamError::Stop(30)))
    ));
    let mut buf = [0; 1];
    assert!(matches!(
        stream.read(&mut driver, noop(), &mut buf).0,
        Poll::Ready(Err(StreamError::Stop(30)))
    ));
    assert!(matches!(
        stream.read_chunk(&mut driver, noop(), 1).0,
        Poll::Ready(Err(StreamError::Stop(30)))
    ));
}

#[test]
fn dropped_recv_stream_is_stopped() {
    let mut driver = DriverState::new(false);
    let mut stream = recv_stream();
    stream.drop_handle(&mut driver);
    assert_eq!(DROP_CODE, 0x44454356);
    match stream.inner().state().flush(RecvEvent::Start) {
        RecvAction::Shutdown(code) => assert_eq!(code, 0x52E4EA9B7F80),
        _ => panic!("the stream is not stopped"),
    }
    let mut closed = recv_stream();
    closed.close(&mut driver, 1);
    assert!(closed.drop_handle(&mut driver).is_none());
    assert!(matches!(
        closed.closed(noop()),
        Poll::Ready(Err(StreamError::Stop(1)))
    ));
}

#[test]
fn recv_stream_reads() {
    let mut driver = DriverState::new(false);
    let mut stream = recv_stream();
    assert!(matches!(
        stream.read_chunk(&mut driver, noop(), 4).0,
        Poll::Pending
    ));
    let state = stream.inner().state();
    assert!(matches!(state.flush(RecvEvent::Start), RecvAction::Recv));
    state.buffer()[..3].copy_from_slice(b"abc");
    state.flush(RecvEvent::Received(Ok((3, true))));
    match stream.read_chunk(&mut driver, noop(), 1).0 {
        Poll::Ready(Ok(Some(chunk))) => assert_eq!(&chunk[..], b"a"),
        _ => panic!("there was no data"),
    }
    let mut buf = [0; 8];
    assert!(matches!(
        stream.read(&mut driver, noop(), &mut buf).0,
        Poll::Ready(Ok(Some(2)))
    ));
    assert_eq!(&buf[..2], b"bc");
    assert!(matches!(
        stream.read_chunk(&mut driver, noop(), 1).0,
        Poll::Ready(Ok(None))
    ));
    assert!(matches!(stream.closed(noop()), Poll::Ready(Ok(()))));
}

#[test]
fn send_stream_writes_and_finishes() {
    let mut driver = DriverState::new(false);
    let mut stream = send_stream(4);
    assert!(matches!(
        stream.write(&mut driver, noop(), b"abc").0,
        Poll::Ready(Ok(3))
    ));
    let mut buf = Bytes::from_static(b"de");
    assert!(matches!(
        stream.write_buf(&mut driver, noop(), &mut buf).0,
        Poll::Ready(Ok(1))
    ));
    assert_eq!(&buf[..], b"e");
    assert!(matches!(
        stream.write(&mut driver, noop(), b"e").0,
        Poll::Pending
    ));
    stream.finish(&mut driver);
    let state = stream.inner().state();
    assert!(matches!(state.flush(SendEvent::Start), SendAction::Send));
    assert!(matches!(state.flush(SendEvent::Sent(Ok(3))), SendAction::Send));
    assert!(matches!(state.flush(SendEvent::Sent(Ok(1))), SendAction::Finish));
    assert!(stream.drop_handle(&mut driver).is_none());
}

#[test]
fn dropped_send_stream_is_finished() {
    let mut driver = DriverState::new(false);
    let mut stream = send_stream(4);
    stream.drop_handle(&mut driver);
    assert!(matches!(
        stream.inner().state().flush(SendEvent::Start),
        SendAction::Finish
    ));
}

#[test]
fn send_stream_is_reset_with_a_session_code() {
    let mut driver = DriverState::new(false);
    let mut stream = send_stream(4);
    stream.reset(&mut driver, 2);
    match stream.inner().state().flush(SendEvent::Start) {
        SendAction::Shutdown(code) => assert_eq!(code, http3_code(2)),
        _ => panic!("the stream is not reset"),
    }
    assert!(stream.drop_handle(&mut driver).is_none());
}

#[test]
fn stop_of_the_peer_carries_its_code() {
    let mut driver = DriverState::new(false);
    for (code, valid) in [(http3_code(9), true), (9, false)] {
        let mut stream = send_stream(4);
        let stopped = Err(QuicheError::StreamStopped(code));
        stream.inner().state().flush(SendEvent::Capacity(stopped));
        match stream.write(&mut driver, noop(), b"x").0 {
            Poll::Ready(Err(SendError::Stop(9))) => assert!(valid),
            Poll::Ready(Err(SendError::InvalidStop(9))) => assert!(!valid),
            _ => panic!("the write was not refused"),
        }
        assert!(stream.finish(&mut driver).is_none());
    }
}

#[test]
fn write_to_a_stream_that_was_closed_below_is_refused() {
    let mut driver = DriverState::new(false);
    let mut stream = send_stream(4);
    stream.inner().close(&mut driver, 1);
    assert!(matches!(
        stream.write(&mut driver, noop(), b"x").0,
        Poll::Ready(Err(SendError::Session(SessionError::Closed)))
    ));
    let mut stream = send_stream(4);
    stream.inner().finish(&mut driver).unwrap();
    assert!(matches!(
        stream.write(&mut driver, noop(), b"x").0,
        Poll::Ready(Err(SendError::Session(SessionError::Closed)))
    ));
}

#[test]
fn end_of_the_connection_is_an_error_of_the_session() {
    let wrap = |err| SendError::from(ez::error::SendError::Connection(err));
    match wrap(ConnectionError::Remote(http3_code(6), "bye".to_string())) {
        SendError::Session(SessionError::WebTransport(WebTransportError::Closed(6, reason))) => {
            assert_eq!(reason, "bye")
        }
        _ => panic!("the session was closed"),
    }
    assert!(matches!(
        wrap(ConnectionError::Local(6, "bye".to_string())),
        SendError::Session(SessionError::Closed)
    ));
    assert!(matches!(
        wrap(ConnectionError::Dropped),
        SendError::Session(SessionError::Closed)
    ));
    assert!(matches!(
        wrap(ConnectionError::Unknown("x".to_string())),
        SendError::Session(SessionError::Unknown)
    ));
    assert!(matches!(
        wrap(ConnectionError::Quiche(QuicheError::Done)),
        SendError::Session(SessionError::Quiche(QuicheError::Done))
    ));
}

#[test]
fn stream_errors_of_the_session_are_told_apart() {
    assert!(matches!(
        quinn::Error::from(WriteError::SessionError(SessionError::Closed)),
        quinn::Error::Session(SessionError::Closed)
    ));
    assert!(matches!(
        quinn::Error::from(WriteError::Stopped(4)),
        quinn::Error::Write(WriteError::Stopped(4))
    ));
    assert!(matches!(
        quinn::Error::from(ReadError::SessionError(SessionError::Unknown)),
        quinn::Error::Session(SessionError::Unknown)
    ));
    assert!(matches!(
        quinn::Error::from(ReadError::Reset(4)),
        quinn::Error::Read(ReadError::Reset(4))
    ));
    assert!(matches!(
        quinn::Error::from(SessionError::Pending),
        quinn::Error::Session(SessionError::Pending)
    ));
    assert!(matches!(
        quinn::Error::from(ClientError::UnexpectedEnd),
        quinn::Error::Client(ClientError::UnexpectedEnd)
    ));
}
