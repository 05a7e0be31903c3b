use std::sync::atomic::{AtomicUsize, Ordering};
use std::sync::Arc;
use std::task::{Wake, Waker};

use url::Url;
use web_transport::connect::{Connect, ConnectError, STATUS_OK};
use web_transport::driver::WebTransportDriver;
use web_transport::error::{
    ClientError, IoError, ServerError, SessionError, StreamError, WebTransportError,
};
use web_transport::ez::error::QuicheError;
use web_transport::ez::stream::{StreamError as QuicError, StreamId};
use web_transport::session::{DatagramEvent, OpenedStream, Session};
use web_transport::state::ConnectionState;
use web_transport::task::Poll;

struct Count(AtomicUsize);

impl Wake for Count {
    fn wake(self: Arc<Self>) {
        self.0.fetch_add(1, Ordering::SeqCst);
    }
}

fn counter() -> (Arc<Count>, Waker) {
    let count = Arc::new(Count(AtomicUsize::new(0)));
    (count.clone(), Waker::from(count))
}

fn woken(count: &Arc<Count>) -> usize {
    count.0.load(Ordering::SeqCst)
}

fn block_send(state: &mut ConnectionState, id: u64, waker: Waker) {
    let done = Err(QuicheError::Done);
    assert!(matches!(state.poll_write(id, true, waker, b"x", done), Poll::Pending));
}

fn block_recv(state: &mut ConnectionState, id: u64, waker: Waker) {
    let done = Err(QuicheError::Done);
    assert!(matches!(state.poll_read(id, waker, done), Poll::Pending));
}

fn side(session_id: u64, server: bool) -> Session<&'static str, &'static str> {
    Session::new(
        ConnectionState::new(session_id),
        server,
        "bi",
        "uni",
        Url::parse("https://example.com/").unwrap(),
    )
}

fn session(session_id: u64) -> Session<&'static str, &'static str> {
    side(session_id, false)
}

fn write(
    state: &mut ConnectionState,
    id: u64,
    data: &[u8],
    room: usize,
) -> (Vec<u8>, Option<usize>) {
    let framed = state.frame_write(id, false, data);
    let n = room.min(framed.len());
    let answer = if n == 0 { Err(QuicheError::Done) } else { Ok(n) };
    let (_, waker) = counter();
    let told = match state.poll_write(id, false, waker, data, answer) {
        Poll::Ready(Ok(told)) => Some(told),
        Poll::Pending => None,
        Poll::Ready(Err(_)) => panic!("the connection does not fail"),
    };
    (framed[..n].to_vec(), told)
}

fn received(session: &mut Session<&str, &str>, bytes: &[u8]) -> Result<Vec<u8>, SessionError> {
    let (_, waker) = counter();
    match session.read_datagram(DatagramEvent::Received(bytes.to_vec()), waker) {
        Poll::Ready(res) => res,
        Poll::Pending => panic!("there is a datagram"),
    }
}

#[test]
fn stream_headers_name_the_session() {
    let state = ConnectionState::new(8);
    assert_eq!(state.session_id(), 8);
    assert_eq!(state.frame_write(2, false, b"hi"), b"\x40\x54\x08hi");
    assert_eq!(state.frame_write(0, true, b"hi"), b"\x40\x41\x08hi");
    assert_eq!(state.header_datagram(), b"\x08");
}

#[test]
fn header_precedes_the_first_write_only() {
    let mut state = ConnectionState::new(4);
    assert_eq!(write(&mut state, 6, b"", 9), (b"\x40\x54\x04".to_vec(), Some(0)));
    assert_eq!(write(&mut state, 6, b"a", 9), (b"a".to_vec(), Some(1)));
    assert_eq!(write(&mut state, 10, b"b", 9), (b"\x40\x54\x04b".to_vec(), Some(1)));
    assert_eq!(write(&mut state, 6, b"c", 9), (b"c".to_vec(), Some(1)));
}

#[test]
fn header_is_offered_until_it_is_accepted() {
    let mut state = ConnectionState::new(4);
    assert_eq!(write(&mut state, 2, b"abc", 0), (vec![], None));
    assert!(state.wake_send(2).is_some());
    assert_eq!(write(&mut state, 2, b"abc", 2), (b"\x40\x54".to_vec(), None));
    assert!(state.wake_send(2).is_some());
    assert_eq!(write(&mut state, 6, b"z", 9), (b"\x40\x54\x04z".to_vec(), Some(1)));
    assert_eq!(write(&mut state, 2, b"abc", 1), (b"\x04".to_vec(), None));
    assert!(state.wake_send(2).is_some());
    assert_eq!(write(&mut state, 2, b"abc", 2), (b"ab".to_vec(), Some(2)));
    assert_eq!(write(&mut state, 2, b"c", 9), (b"c".to_vec(), Some(1)));
    assert!(state.wake_send(2).is_none());
}

#[test]
fn header_and_data_are_accepted_together() {
    let mut state = ConnectionState::new(4);
    assert_eq!(write(&mut state, 2, b"abc", 4), (b"\x40\x54\x04a".to_vec(), Some(1)));
    assert_eq!(write(&mut state, 2, b"bc", 9), (b"bc".to_vec(), Some(2)));
    assert_eq!(write(&mut state, 6, b"", 1), (b"\x40".to_vec(), None));
    assert_eq!(write(&mut state, 6, b"", 9), (b"\x54\x04".to_vec(), Some(0)));
}

#[test]
fn session_shares_its_state() {
    let mut session = session(8);
    let stream = session.open_bi().unwrap();
    let state = session.state();
    assert_eq!(
        state.frame_write(stream.stream_id, stream.bi, b"hi"),
        b"\x40\x41\x08hi"
    );
    let (count, waker) = counter();
    let answer = Ok(5);
    assert!(matches!(
        state.poll_write(stream.stream_id, stream.bi, waker.clone(), b"hi", answer),
        Poll::Ready(Ok(2))
    ));
    block_recv(session.state(), stream.stream_id, waker);
    let driver = WebTransportDriver::new_client();
    for waker in driver.process_readable_streams(session.state(), &vec![stream.stream_id]) {
        waker.wake();
    }
    assert_eq!(woken(&count), 1);
    assert_eq!(
        session.state().frame_write(stream.stream_id, stream.bi, b"more"),
        b"more"
    );
}

#[test]
fn session_identifiers_are_variable_length() {
    assert_eq!(ConnectionState::new(0x3f).header_datagram(), [0x3f]);
    assert_eq!(ConnectionState::new(0x40).header_datagram(), [0x40, 0x40]);
    assert_eq!(ConnectionState::new(0x3fff).header_datagram(), [0x7f, 0xff]);
    assert_eq!(
        ConnectionState::new(0x4000).header_datagram(),
        [0x80, 0, 0x40, 0]
    );
    assert_eq!(
        ConnectionState::new(0x3fff_ffff).header_datagram(),
        [0xbf, 0xff, 0xff, 0xff]
    );
    assert_eq!(
        ConnectionState::new(0x4000_0000).header_datagram(),
        [0xc0, 0, 0, 0, 0x40, 0, 0, 0]
    );
    assert_eq!(
        ConnectionState::new((1 << 62) - 1).header_datagram(),
        [0xff; 8]
    );
}

#[test]
fn tasks_are_woken_by_stream() {
    let mut state = ConnectionState::new(0);
    let (send_count, send) = counter();
    let (recv_count, recv) = counter();
    block_send(&mut state, 4, send);
    block_recv(&mut state, 4, recv);
    assert!(state.wake_send(8).is_none());
    state.wake_send(4).unwrap().wake();
    assert!(state.wake_send(4).is_none());
    assert_eq!((woken(&send_count), woken(&recv_count)), (1, 0));
    state.wake_recv(4).unwrap().wake();
    assert!(state.wake_recv(4).is_none());
    assert_eq!((woken(&send_count), woken(&recv_count)), (1, 1));
}

#[test]
fn nobody_waits_for_an_answer_that_is_there() {
    let mut state = ConnectionState::new(0);
    let (count, waker) = counter();
    assert!(matches!(
        state.poll_write(4, true, waker.clone(), b"abc", Ok(6)),
        Poll::Ready(Ok(3))
    ));
    assert!(matches!(
        state.poll_write(4, true, waker.clone(), b"abc", Ok(3)),
        Poll::Ready(Ok(3))
    ));
    assert!(matches!(
        state.poll_write(4, true, waker.clone(), b"abc", Err(QuicheError::StreamLimit)),
        Poll::Ready(Err(QuicheError::StreamLimit))
    ));
    assert!(matches!(
        state.poll_read(4, waker.clone(), Ok((2, true))),
        Poll::Ready(Ok((2, true)))
    ));
    assert!(matches!(
        state.poll_read(4, waker, Err(QuicheError::StreamReset(1))),
        Poll::Ready(Err(QuicheError::StreamReset(1)))
    ));
    assert!(state.wake_send(4).is_none());
    assert!(state.wake_recv(4).is_none());
    assert_eq!(woken(&count), 0);
}

#[test]
fn all_tasks_are_woken() {
    let mut state = ConnectionState::new(0);
    let (count, waker) = counter();
    for id in 0..5 {
        block_send(&mut state, id, waker.clone());
        block_recv(&mut state, id + 10, waker.clone());
    }
    let wakers = state.wake_all_send();
    assert_eq!(wakers.len(), 5);
    for waker in wakers {
        waker.wake();
    }
    assert_eq!(woken(&count), 5);
    assert!(state.wake_all_send().is_empty());
    assert_eq!(state.wake_all_recv().len(), 5);
    assert!(state.wake_recv(10).is_none());
}

#[test]
fn session_driver_wakes_after_the_handshake() {
    let mut state = ConnectionState::new(0);
    let mut driver = WebTransportDriver::new_client();
    assert!(!driver.should_act());
    driver.on_conn_established();
    assert!(driver.should_act());
    let (count, waker) = counter();
    block_recv(&mut state, 1, waker.clone());
    block_recv(&mut state, 3, waker.clone());
    block_send(&mut state, 1, waker.clone());
    for waker in driver.process_readable_streams(&mut state, &vec![3, 2, 3]) {
        waker.wake();
    }
    assert_eq!(woken(&count), 1);
    for waker in driver.process_writable_streams(&mut state, &vec![1, 3]) {
        waker.wake();
    }
    assert_eq!(woken(&count), 2);
    block_send(&mut state, 5, waker.clone());
    state.block_datagram(waker);
    let (send, recv, datagram) = driver.on_conn_close(&mut state);
    assert_eq!((send.len(), recv.len(), datagram.len()), (1, 1, 1));
    let (send, recv, datagram) = driver.on_conn_close(&mut state);
    assert!(send.is_empty() && recv.is_empty() && datagram.is_empty());
    assert!(!WebTransportDriver::new_server().should_act());
}

#[test]
fn datagram_survives() {
    let mut session = session(0x40);
    let datagram = session.send_datagram(b"ping");
    assert_eq!(datagram, b"\x40\x40ping");
    assert_eq!(received(&mut session, &datagram).unwrap(), b"ping");
    assert_eq!(received(&mut session, b"\x40\x40").unwrap(), b"");
}

#[test]
fn foreign_datagram_is_refused() {
    let mut session = session(0x40);
    for datagram in [&b"\x40\x41ping"[..], b"\x40", b"", b"\x08ping"] {
        assert!(matches!(
            received(&mut session, datagram),
            Err(SessionError::WebTransport(WebTransportError::UnknownSession))
        ));
    }
}

#[test]
fn datagram_is_waited_for() {
    let mut session = session(0);
    let driver = WebTransportDriver::new_server();
    let (count, waker) = counter();
    for _ in 0..2 {
        assert!(matches!(
            session.read_datagram(DatagramEvent::Empty, waker.clone()),
            Poll::Pending
        ));
    }
    assert!(driver.process_datagrams(session.state(), false).is_empty());
    for waker in driver.process_datagrams(session.state(), true) {
        waker.wake();
    }
    assert_eq!(woken(&count), 2);
    assert!(driver.process_datagrams(session.state(), true).is_empty());
    assert_eq!(received(&mut session, b"\x00ping").unwrap(), b"ping");
}

#[test]
fn datagram_is_not_waited_for_once_closed() {
    let mut session = session(0);
    let (count, waker) = counter();
    assert!(matches!(
        session.read_datagram(DatagramEvent::Empty, waker.clone()),
        Poll::Pending
    ));
    for waker in session.state().wake_datagram() {
        waker.wake();
    }
    assert_eq!(woken(&count), 1);
    assert!(matches!(
        session.read_datagram(DatagramEvent::Closed, waker),
        Poll::Ready(Err(SessionError::Closed))
    ));
    assert!(session.state().wake_datagram().is_empty());
}

#[test]
fn datagrams_leave_room_for_the_header() {
    let session = session(0x40);
    assert_eq!(session.max_datagram_size(Some(1200)), 1198);
    assert_eq!(session.max_datagram_size(Some(2)), 0);
    assert_eq!(session.max_datagram_size(Some(1)), 0);
    assert_eq!(session.max_datagram_size(None), 0);
}

#[test]
fn failed_datagram_is_an_error_of_the_session() {
    assert!(session(0).datagram_sent(Ok(())).is_ok());
    assert!(matches!(
        session(0).datagram_sent(Err(QuicheError::Done)),
        Err(SessionError::Quiche(QuicheError::Done))
    ));
}

#[test]
fn session_codes_are_mapped() {
    assert_eq!(session(0).close(0), 0x52e4a40fa8db);
    assert_eq!(session(0).close(29), 0x52e4a40fa8db + 29);
    assert_eq!(session(0).close(30), 0x52e4a40fa8db + 31);
    assert_eq!(session(0).close(u32::MAX), 0x52e5ac983162);
}

#[test]
fn session_opens_streams() {
    let mut client = session(0);
    assert_eq!(client.url().as_str(), "https://example.com/");
    let mut server = side(0, true);
    for i in 0..3 {
        for (session, uni, bi) in [(&mut client, 2, 4), (&mut server, 3, 1)] {
            assert_eq!(
                session.open_uni().unwrap(),
                OpenedStream {
                    stream_id: uni + 4 * i,
                    bi: false
                }
            );
            assert_eq!(
                session.open_bi().unwrap(),
                OpenedStream {
                    stream_id: bi + 4 * i,
                    bi: true
                }
            );
        }
    }
}

#[test]
fn session_streams_differ() {
    let mut seen = std::collections::HashSet::new();
    seen.insert(8);
    for server in [false, true] {
        let mut session = side(8, server);
        for bi in [true, true, false, true, false, false] {
            let stream = if bi {
                session.open_bi().unwrap()
            } else {
                session.open_uni().unwrap()
            };
            assert!(seen.insert(stream.stream_id));
            assert_eq!(StreamId(stream.stream_id).is_bi(), bi);
            assert_eq!(stream.stream_id % 2 == 1, server);
        }
    }
    assert_eq!(seen.len(), 13);
}

#[test]
fn session_runs_out_of_identifiers() {
    let last = (1 << 62) - 8;
    let mut session = session(last);
    assert_eq!(session.open_bi().unwrap().stream_id, last + 4);
    for _ in 0..2 {
        assert!(matches!(
            session.open_bi(),
            Err(SessionError::Quiche(QuicheError::StreamLimit))
        ));
    }
    assert_eq!(session.open_uni().unwrap().stream_id, 2);
}

#[test]
fn one_task_at_a_time_accepts() {
    let mut session = session(0);
    let queue = session.accept_uni().unwrap();
    assert_eq!(queue, "uni");
    assert!(matches!(session.accept_uni(), Err(SessionError::Closed)));
    let other = session.accept_bi().unwrap();
    assert_eq!(other, "bi");
    assert!(matches!(session.accept_bi(), Err(SessionError::Closed)));
    assert_eq!(session.accepted_uni(queue, Some(7)).unwrap(), 7);
    let queue = session.accept_uni().unwrap();
    assert!(matches!(
        session.accepted_uni::<u8>(queue, None),
        Err(SessionError::Closed)
    ));
    assert!(session.accept_uni().is_ok());
    assert_eq!(session.accepted_bi(other, Some(8)).unwrap(), 8);
    assert!(matches!(
        session.accepted_bi::<u8>("bi", None),
        Err(SessionError::Closed)
    ));
}

#[test]
fn only_an_accepted_request_opens_a_session() {
    let url = Url::parse("https://example.com/chat").unwrap();
    let connect = Connect::open(url.clone(), StreamId(12), "send", "recv", STATUS_OK)
        .ok()
        .expect("the request was accepted");
    assert_eq!(connect.session_id(), 12);
    assert_eq!(connect.url().path(), "/chat");
    assert_eq!(connect.into_inner(), ("send", "recv"));
    for status in [100, 199, 201, 404, 999] {
        match Connect::open(url.clone(), StreamId(0), (), (), status) {
            Err(ConnectError::Status(code)) => assert_eq!(code, status),
            _ => panic!("the request was refused"),
        }
    }
}

#[test]
fn server_responds_with_a_status() {
    let url = Url::parse("https://example.com/").unwrap();
    let connect = Connect::accept(url, StreamId(0), (), ());
    let ok = connect.respond(200);
    let decoded =
        web_transport_proto::ConnectResponse::decode(&mut std::io::Cursor::new(&ok)).unwrap();
    assert_eq!(decoded.status.as_u16(), 200);
    let refused = connect.respond(404);
    assert_ne!(ok, refused);
    assert!(
        web_transport_proto::ConnectResponse::decode(&mut std::io::Cursor::new(&refused)).is_err()
    );
}

#[test]
fn stream_errors_carry_session_codes() {
    let code = session(0).close(5);
    assert_eq!(StreamError::from(QuicError::Reset(code)), StreamError::Reset(5));
    assert_eq!(StreamError::from(QuicError::Stop(code)), StreamError::Stop(5));
    assert_eq!(
        StreamError::from(QuicError::Reset(5)),
        StreamError::InvalidReset(5)
    );
    assert_eq!(
        StreamError::from(QuicError::Stop(u64::MAX)),
        StreamError::InvalidStop(u64::MAX)
    );
    assert_eq!(StreamError::from(QuicError::Closed), StreamError::Closed);
}

#[test]
fn errors_are_wrapped() {
    assert!(matches!(
        ClientError::from(QuicheError::Done),
        ClientError::Quiche(QuicheError::Done)
    ));
    assert!(matches!(
        ServerError::from(QuicheError::Done),
        ServerError::Quiche(QuicheError::Done)
    ));
    assert!(matches!(
        SessionError::from(QuicheError::Done),
        SessionError::Quiche(QuicheError::Done)
    ));
    assert!(matches!(
        SessionError::from(WebTransportError::InvalidHeader),
        SessionError::WebTransport(WebTransportError::InvalidHeader)
    ));
    assert!(matches!(
        ClientError::from(IoError::Other("x".to_string())),
        ClientError::IoError(IoError::Other(_))
    ));
    assert!(matches!(
        ServerError::from(IoError::HostUnreachable("x".to_string()).clone()),
        ServerError::IoError(IoError::HostUnreachable(_))
    ));
}
