use web_transport::ez::driver::{
    close_frame, connected, end_of_connection, CloseFrame, Driver, PollAction, PollEvent,
    ReadAction, ReadEvent, WriteAction, WriteEvent,
};
use web_transport::ez::error::{ConnectionError, QuicheError};
use web_transport::ez::stream::StreamId;
use web_transport::task::Poll;

type Handles = Driver<&'static str, &'static str>;

/// A driver with one stream of the peer, bidirectional, with the identifier 1.
fn driver_with_stream() -> Handles {
    let mut driver = Handles::new();
    assert!(matches!(driver.read(ReadEvent::Start), ReadAction::NextReadable));
    assert!(matches!(
        driver.read(ReadEvent::Readable(Some(1))),
        ReadAction::NewRecv(1)
    ));
    assert!(matches!(
        driver.read(ReadEvent::NewRecv(Ok("recv 1"))),
        ReadAction::NewSend(1)
    ));
    assert!(matches!(
        driver.read(ReadEvent::NewSend(Ok("send 1"))),
        ReadAction::AcceptBi(1)
    ));
    assert!(matches!(
        driver.read(ReadEvent::Accepted(true)),
        ReadAction::NextReadable
    ));
    assert!(matches!(
        driver.read(ReadEvent::Readable(None)),
        ReadAction::Return(Ok(()))
    ));
    driver
}

fn poll_to_recv(driver: &mut Handles) {
    assert!(matches!(
        driver.poll(PollEvent::Start(false)),
        PollAction::PollLocal
    ));
    assert!(matches!(
        driver.poll(PollEvent::Local(Poll::Pending)),
        PollAction::IsEstablished
    ));
    assert!(matches!(
        driver.poll(PollEvent::Established(true)),
        PollAction::TakeRecv
    ));
}

#[test]
fn peer_stream_is_announced_once() {
    let mut driver = driver_with_stream();
    assert_eq!(driver.recv(1), Some(&"recv 1"));
    assert_eq!(driver.send(1), Some(&"send 1"));
    assert_eq!(driver.recv(2), None);
    assert_eq!(driver.send(2), None);
    assert!(matches!(
        driver.read(ReadEvent::Readable(Some(1))),
        ReadAction::FlushRecv(1)
    ));
    assert!(matches!(
        driver.read(ReadEvent::Flushed(Ok(()))),
        ReadAction::NextReadable
    ));
    assert!(matches!(
        driver.read(ReadEvent::Readable(Some(3))),
        ReadAction::NewRecv(3)
    ));
    assert!(matches!(
        driver.read(ReadEvent::NewRecv(Ok("recv 3"))),
        ReadAction::AcceptUni(3)
    ));
    assert!(driver.send(3).is_none());
}

#[test]
fn reading_fails_with_the_connection() {
    let mut driver = driver_with_stream();
    assert!(matches!(
        driver.read(ReadEvent::Flushed(Err(QuicheError::Done))),
        ReadAction::Return(Err(ConnectionError::Quiche(QuicheError::Done)))
    ));
    assert!(matches!(
        driver.read(ReadEvent::NewRecv(Err(QuicheError::Done))),
        ReadAction::Return(Err(ConnectionError::Quiche(QuicheError::Done)))
    ));
    assert!(matches!(
        driver.read(ReadEvent::NewSend(Err(QuicheError::Done))),
        ReadAction::Return(Err(ConnectionError::Quiche(QuicheError::Done)))
    ));
    assert!(matches!(
        driver.read(ReadEvent::Accepted(false)),
        ReadAction::Return(Err(ConnectionError::Dropped))
    ));
}

#[test]
fn writing_flushes_open_streams() {
    let driver = driver_with_stream();
    assert!(matches!(
        driver.write(WriteEvent::Start),
        WriteAction::NextWritable
    ));
    assert!(matches!(
        driver.write(WriteEvent::Writable(Some(1))),
        WriteAction::FlushSend(1)
    ));
    assert!(matches!(
        driver.write(WriteEvent::Flushed(Ok(()))),
        WriteAction::NextWritable
    ));
    assert!(matches!(
        driver.write(WriteEvent::Writable(Some(9))),
        WriteAction::Return(Err(ConnectionError::Quiche(
            QuicheError::InvalidStreamState(9)
        )))
    ));
    assert!(matches!(
        driver.write(WriteEvent::Flushed(Err(QuicheError::Done))),
        WriteAction::Return(Err(ConnectionError::Quiche(QuicheError::Done)))
    ));
    assert!(matches!(
        driver.write(WriteEvent::Writable(None)),
        WriteAction::Return(Ok(()))
    ));
    assert!(driver.should_act());
}

#[test]
fn application_closes_the_connection() {
    let mut driver = Handles::new();
    driver.poll(PollEvent::Start(false));
    match driver.poll(PollEvent::Local(Poll::Ready(ConnectionError::Dropped))) {
        PollAction::Close(err) => {
            assert_eq!(close_frame(&err), (0, b"dropped".to_vec()));
        }
        _ => panic!("the connection is not closed"),
    }
    assert!(matches!(
        driver.poll(PollEvent::Closed(Ok(()))),
        PollAction::Return(Poll::Ready(Ok(())))
    ));
    assert!(matches!(
        driver.poll(PollEvent::Closed(Err(QuicheError::Done))),
        PollAction::Return(Poll::Ready(Err(ConnectionError::Quiche(QuicheError::Done))))
    ));
}

#[test]
fn close_frames_say_why() {
    assert_eq!(
        close_frame(&ConnectionError::Local(3, "bye".to_string())),
        (3, b"bye".to_vec())
    );
    assert_eq!(
        close_frame(&ConnectionError::Remote(4, "gone".to_string())),
        (4, b"gone".to_vec())
    );
    assert_eq!(
        close_frame(&ConnectionError::Quiche(QuicheError::StreamLimit)),
        (500, b"StreamLimit".to_vec())
    );
    assert_eq!(
        close_frame(&ConnectionError::Unknown("\u{e9}".to_string())),
        (501, vec![0xc3, 0xa9])
    );
}

#[test]
fn nothing_is_done_during_the_handshake() {
    let mut driver = Handles::new();
    assert!(matches!(
        driver.poll(PollEvent::Start(true)),
        PollAction::IsEstablished
    ));
    assert!(matches!(
        driver.poll(PollEvent::Established(false)),
        PollAction::Return(Poll::Pending)
    ));
}

#[test]
fn idle_driver_waits() {
    let mut driver = driver_with_stream();
    poll_to_recv(&mut driver);
    assert!(matches!(
        driver.poll(PollEvent::Recv(vec![])),
        PollAction::IsDraining
    ));
    assert!(matches!(
        driver.poll(PollEvent::Draining(false)),
        PollAction::TakeSend
    ));
    assert!(matches!(
        driver.poll(PollEvent::Send(vec![99])),
        PollAction::BidiLeft
    ));
    assert!(matches!(
        driver.poll(PollEvent::BidiLeft(1)),
        PollAction::NextBi
    ));
    assert!(matches!(
        driver.poll(PollEvent::NextBi(None)),
        PollAction::UniLeft
    ));
    assert!(matches!(
        driver.poll(PollEvent::UniLeft(0)),
        PollAction::Return(Poll::Pending)
    ));
}

#[test]
fn known_streams_are_flushed_in_order() {
    let mut driver = driver_with_stream();
    driver.read(ReadEvent::Readable(Some(5)));
    driver.read(ReadEvent::NewRecv(Ok("recv 5")));
    driver.read(ReadEvent::NewSend(Ok("send 5")));
    poll_to_recv(&mut driver);
    assert!(matches!(
        driver.poll(PollEvent::Recv(vec![7, 5, 1])),
        PollAction::FlushRecv(5)
    ));
    assert!(matches!(
        driver.poll(PollEvent::RecvFlushed(Ok(()))),
        PollAction::FlushRecv(1)
    ));
    assert!(matches!(
        driver.poll(PollEvent::RecvFlushed(Ok(()))),
        PollAction::IsDraining
    ));
    driver.poll(PollEvent::Draining(false));
    assert!(matches!(
        driver.poll(PollEvent::Send(vec![1, 5])),
        PollAction::FlushSend(1)
    ));
    assert!(matches!(
        driver.poll(PollEvent::SendFlushed(Ok(()))),
        PollAction::FlushSend(5)
    ));
    assert!(matches!(
        driver.poll(PollEvent::SendFlushed(Ok(()))),
        PollAction::BidiLeft
    ));
    assert!(matches!(
        driver.poll(PollEvent::BidiLeft(0)),
        PollAction::UniLeft
    ));
    assert!(matches!(
        driver.poll(PollEvent::UniLeft(1)),
        PollAction::NextUni
    ));
    assert!(matches!(
        driver.poll(PollEvent::NextUni(None)),
        PollAction::Return(Poll::Ready(Ok(())))
    ));
}

#[test]
fn draining_connection_only_receives() {
    let mut driver = driver_with_stream();
    poll_to_recv(&mut driver);
    driver.poll(PollEvent::Recv(vec![1]));
    driver.poll(PollEvent::RecvFlushed(Ok(())));
    assert!(matches!(
        driver.poll(PollEvent::Draining(true)),
        PollAction::Return(Poll::Ready(Ok(())))
    ));
    poll_to_recv(&mut driver);
    driver.poll(PollEvent::Recv(vec![]));
    assert!(matches!(
        driver.poll(PollEvent::Draining(true)),
        PollAction::Return(Poll::Pending)
    ));
}

#[test]
fn streams_are_opened_as_the_peer_allows() {
    let mut driver = Handles::new();
    poll_to_recv(&mut driver);
    driver.poll(PollEvent::Recv(vec![]));
    driver.poll(PollEvent::Draining(false));
    driver.poll(PollEvent::Send(vec![]));
    driver.poll(PollEvent::BidiLeft(1));
    assert!(matches!(
        driver.poll(PollEvent::NextBi(Some((StreamId(4), "send 4", "recv 4")))),
        PollAction::OpenBi(4)
    ));
    assert_eq!(driver.opening_send(), Some(&"send 4"));
    assert_eq!(driver.opening_recv(), Some(&"recv 4"));
    assert!(matches!(
        driver.poll(PollEvent::BiOpened(Ok(0))),
        PollAction::FlushBiSend
    ));
    assert!(matches!(
        driver.poll(PollEvent::BiSendFlushed(Ok(()))),
        PollAction::FlushBiRecv
    ));
    assert_eq!(driver.send(4), Some(&"send 4"));
    assert_eq!(driver.recv(4), None);
    assert!(matches!(
        driver.poll(PollEvent::BiRecvFlushed(Ok(()))),
        PollAction::BidiLeft
    ));
    assert_eq!(driver.recv(4), Some(&"recv 4"));
    assert_eq!(driver.opening_send(), None);
    assert_eq!(driver.opening_recv(), None);
    driver.poll(PollEvent::BidiLeft(0));
    driver.poll(PollEvent::UniLeft(2));
    assert!(matches!(
        driver.poll(PollEvent::NextUni(Some((StreamId(6), "send 6")))),
        PollAction::OpenUni(6)
    ));
    assert!(matches!(
        driver.poll(PollEvent::UniOpened(Ok(0))),
        PollAction::FlushUni
    ));
    assert!(matches!(
        driver.poll(PollEvent::UniFlushed(Ok(()))),
        PollAction::UniLeft
    ));
    assert_eq!(driver.send(6), Some(&"send 6"));
    assert!(matches!(
        driver.poll(PollEvent::UniLeft(0)),
        PollAction::Return(Poll::Ready(Ok(())))
    ));
}

#[test]
fn failed_poll_gives_the_stream_up() {
    let mut driver = Handles::new();
    driver.poll(PollEvent::NextBi(Some((StreamId(4), "send 4", "recv 4"))));
    assert!(matches!(
        driver.poll(PollEvent::BiOpened(Err(QuicheError::StreamLimit))),
        PollAction::Return(Poll::Ready(Err(ConnectionError::Quiche(
            QuicheError::StreamLimit
        ))))
    ));
    assert_eq!(driver.opening_send(), None);
    assert_eq!(driver.send(4), None);
    for event in [
        PollEvent::RecvFlushed(Err(QuicheError::Done)),
        PollEvent::SendFlushed(Err(QuicheError::Done)),
        PollEvent::BiSendFlushed(Err(QuicheError::Done)),
        PollEvent::BiRecvFlushed(Err(QuicheError::Done)),
        PollEvent::UniOpened(Err(QuicheError::Done)),
        PollEvent::UniFlushed(Err(QuicheError::Done)),
    ] {
        assert!(matches!(
            driver.poll(event),
            PollAction::Return(Poll::Ready(Err(ConnectionError::Quiche(QuicheError::Done))))
        ));
    }
}

#[test]
fn first_poll_may_have_nothing_to_do() {
    assert!(connected(Poll::Pending).is_ok());
    assert!(connected(Poll::Ready(Ok(()))).is_ok());
    assert!(matches!(
        connected(Poll::Ready(Err(ConnectionError::Dropped))),
        Err(ConnectionError::Dropped)
    ));
}

#[test]
fn end_of_a_connection_is_explained() {
    let frame = |code: u64, reason: &[u8]| {
        Some(CloseFrame {
            error_code: code,
            reason: reason.to_vec(),
        })
    };
    assert!(matches!(
        end_of_connection(
            Poll::Ready(ConnectionError::Dropped),
            frame(1, b"a"),
            frame(2, b"b"),
            Ok(())
        ),
        ConnectionError::Dropped
    ));
    match end_of_connection(Poll::Pending, frame(1, b"a\xff"), frame(2, b"b"), Ok(())) {
        ConnectionError::Local(1, reason) => assert_eq!(reason, "a\u{fffd}"),
        _ => panic!("this side closed the connection"),
    }
    match end_of_connection(Poll::Pending, None, frame(2, b"b"), Ok(())) {
        ConnectionError::Remote(2, reason) => assert_eq!(reason, "b"),
        _ => panic!("the peer closed the connection"),
    }
    match end_of_connection(Poll::Pending, None, None, Err("timeout".to_string())) {
        ConnectionError::Unknown(reason) => assert_eq!(reason, "timeout"),
        _ => panic!("nobody closed the connection"),
    }
    match end_of_connection(Poll::Pending, None, None, Ok(())) {
        ConnectionError::Unknown(reason) => assert_eq!(reason, "no error message"),
        _ => panic!("nobody closed the connection"),
    }
}
