use std::sync::atomic::{AtomicUsize, Ordering};
use std::sync::Arc;
use std::task::{Wake, Waker};

use bytes::Bytes;
use web_transport::ez::connection::DriverState;
use web_transport::ez::error::QuicheError;
use web_transport::ez::recv::{
    read_size, ReadAll, ReadAllStep, RecvAction, RecvEvent, RecvState, RecvStream, DROP_CODE,
    MAX_BUFFER, MIN_BUFFER,
};
use web_transport::ez::stream::{StreamError, StreamId};
use web_transport::task::Poll;

struct Count(AtomicUsize);

impl Wake for Count {
    fn wake(self: Arc<Self>) {
        self.0.fetch_add(1, Ordering::SeqCst);
    }
}

fn counter() -> (Arc<Count>, Waker) {
    let count = Arc::new(Count(AtomicUsize::new(0)));
    (count.clone(), Waker::from(count))
}

fn woken(count: &Arc<Count>) -> usize {
    count.0.load(Ordering::SeqCst)
}

fn receive(state: &mut RecvState, data: &[u8], last: bool) -> RecvAction {
    let buf = state.buffer();
    let n = data.len();
    buf[..n].copy_from_slice(data);
    state.flush(RecvEvent::Received(Ok((n, last))))
}

fn chunk(state: &mut RecvState, max: usize) -> Vec<u8> {
    match state.poll_read_chunk(Waker::noop().clone(), max) {
        Poll::Ready(Ok(Some(chunk))) => chunk.to_vec(),
        _ => panic!("there was no data"),
    }
}

fn wait(state: &mut RecvState, max: usize) -> Arc<Count> {
    let (count, waker) = counter();
    assert!(matches!(state.poll_read_chunk(waker, max), Poll::Pending));
    count
}

#[test]
fn nothing_is_received_before_it_is_wanted() {
    let mut state = RecvState::new(StreamId(3));
    assert_eq!(state.id(), StreamId(3));
    assert!(matches!(
        state.flush(RecvEvent::Start),
        RecvAction::Return(Ok(None))
    ));
    assert!(state.buffer().is_empty());
}

#[test]
fn data_is_read_in_order() {
    let mut state = RecvState::new(StreamId(3));
    let count = wait(&mut state, 10);
    assert!(matches!(state.flush(RecvEvent::Start), RecvAction::Recv));
    assert_eq!(state.buffer().len(), 10);
    assert!(matches!(receive(&mut state, b"hello", false), RecvAction::Recv));
    assert_eq!(state.buffer().len(), 5);
    match receive(&mut state, b"world", false) {
        RecvAction::Return(Ok(Some(waker))) => waker.wake(),
        _ => panic!("nobody was woken"),
    }
    assert_eq!(woken(&count), 1);
    assert!(state.buffer().is_empty());
    assert_eq!(chunk(&mut state, 3), b"hel");
    assert_eq!(chunk(&mut state, 100), b"lo");
    assert_eq!(chunk(&mut state, 100), b"world");
    wait(&mut state, 1);
}

#[test]
fn end_of_the_stream_comes_after_the_data() {
    let mut state = RecvState::new(StreamId(3));
    let count = wait(&mut state, 100);
    assert!(matches!(state.flush(RecvEvent::Start), RecvAction::Recv));
    match receive(&mut state, b"end", true) {
        RecvAction::Return(Ok(Some(waker))) => waker.wake(),
        _ => panic!("nobody was woken"),
    }
    assert_eq!(woken(&count), 1);
    assert!(matches!(
        state.poll_closed(Waker::noop().clone()),
        Poll::Pending
    ));
    assert_eq!(chunk(&mut state, 100), b"end");
    assert!(matches!(
        state.poll_read_chunk(Waker::noop().clone(), 100),
        Poll::Ready(Ok(None))
    ));
    assert!(matches!(
        state.poll_closed(Waker::noop().clone()),
        Poll::Ready(Ok(()))
    ));
}

#[test]
fn connection_can_report_the_end_without_data() {
    let mut state = RecvState::new(StreamId(3));
    let count = wait(&mut state, 100);
    assert!(matches!(state.flush(RecvEvent::Start), RecvAction::Recv));
    assert!(matches!(
        state.flush(RecvEvent::Received(Err(QuicheError::Done))),
        RecvAction::IsFinished
    ));
    assert!(state.buffer().is_empty());
    match state.flush(RecvEvent::Finished(true)) {
        RecvAction::Return(Ok(Some(waker))) => waker.wake(),
        _ => panic!("nobody was woken"),
    }
    assert_eq!(woken(&count), 1);
    assert!(matches!(
        state.poll_read_chunk(Waker::noop().clone(), 0),
        Poll::Ready(Ok(None))
    ));
}

#[test]
fn nobody_is_woken_without_data() {
    let mut state = RecvState::new(StreamId(3));
    let count = wait(&mut state, 100);
    assert!(matches!(state.flush(RecvEvent::Start), RecvAction::Recv));
    assert!(matches!(
        state.flush(RecvEvent::Received(Err(QuicheError::Done))),
        RecvAction::IsFinished
    ));
    assert!(matches!(
        state.flush(RecvEvent::Finished(false)),
        RecvAction::Return(Ok(None))
    ));
    assert_eq!(woken(&count), 0);
}

#[test]
fn data_before_done_wakes() {
    let mut state = RecvState::new(StreamId(3));
    let count = wait(&mut state, 100);
    assert!(matches!(state.flush(RecvEvent::Start), RecvAction::Recv));
    assert!(matches!(receive(&mut state, b"x", false), RecvAction::Recv));
    assert!(matches!(
        state.flush(RecvEvent::Received(Err(QuicheError::Done))),
        RecvAction::IsFinished
    ));
    match state.flush(RecvEvent::Finished(false)) {
        RecvAction::Return(Ok(Some(waker))) => waker.wake(),
        _ => panic!("nobody was woken"),
    }
    assert_eq!(woken(&count), 1);
}

#[test]
fn reset_by_the_peer_wakes_and_stays() {
    let mut state = RecvState::new(StreamId(3));
    let count = wait(&mut state, 100);
    assert!(matches!(state.flush(RecvEvent::Start), RecvAction::Recv));
    match state.flush(RecvEvent::Received(Err(QuicheError::StreamReset(8)))) {
        RecvAction::Return(Ok(Some(waker))) => waker.wake(),
        _ => panic!("nobody was woken"),
    }
    assert_eq!(woken(&count), 1);
    assert!(matches!(
        state.flush(RecvEvent::Start),
        RecvAction::Return(Ok(None))
    ));
    assert!(matches!(
        state.poll_read_chunk(Waker::noop().clone(), 1),
        Poll::Ready(Err(StreamError::Reset(8)))
    ));
    assert!(matches!(
        state.poll_closed(Waker::noop().clone()),
        Poll::Ready(Err(StreamError::Reset(8)))
    ));
}

#[test]
fn errors_of_the_connection_end_a_receiving_flush() {
    let mut state = RecvState::new(StreamId(3));
    wait(&mut state, 100);
    assert!(matches!(state.flush(RecvEvent::Start), RecvAction::Recv));
    assert!(matches!(
        state.flush(RecvEvent::Received(Err(QuicheError::InvalidStreamState(3)))),
        RecvAction::Return(Err(QuicheError::InvalidStreamState(3)))
    ));
    assert!(state.buffer().is_empty());
    assert!(matches!(
        state.flush(RecvEvent::Shutdown(Err(QuicheError::StreamLimit))),
        RecvAction::Return(Err(QuicheError::StreamLimit))
    ));
}

#[test]
fn empty_read_does_not_wait() {
    let mut state = RecvState::new(StreamId(3));
    assert_eq!(chunk(&mut state, 0), b"");
}

#[test]
fn read_asks_for_what_there_is_room_for() {
    let mut state = RecvState::new(StreamId(3));
    wait(&mut state, 100);
    state.begin_read(7, 7);
    assert_eq!(state.buffer(), [0; 7]);
    assert!(matches!(
        receive(&mut state, b"abcdefg", true),
        RecvAction::Return(Ok(Some(_)))
    ));
    let mut state = RecvState::new(StreamId(3));
    wait(&mut state, 100);
    state.begin_read(0, 2 * MIN_BUFFER);
    assert_eq!(state.buffer(), [0; 100]);
}

#[test]
fn read_buffer_is_bounded() {
    let mut state = RecvState::new(StreamId(3));
    wait(&mut state, 1_000_000);
    let mut action = state.flush(RecvEvent::Start);
    let mut left = 1_000_000;
    let mut first = true;
    while matches!(action, RecvAction::Recv) {
        let n = state.buffer().len();
        assert!(n > 0 && n <= left);
        if first {
            assert_eq!(n, MIN_BUFFER);
            first = false;
        }
        left -= n;
        action = state.flush(RecvEvent::Received(Ok((n, false))));
    }
    assert!(matches!(action, RecvAction::Return(Ok(Some(_)))));
    assert_eq!(left, 0);
    assert_eq!(MAX_BUFFER, 32 * 1024);
    assert_eq!(read_size(7, 9), 7);
    assert_eq!(read_size(9, 7), 7);
}

#[test]
fn stopped_stream_is_shut_down() {
    let mut driver = DriverState::new(false);
    let mut stream = RecvStream::new(RecvState::new(StreamId(3)));
    assert!(!stream.is_closed());
    stream.close(&mut driver, 77);
    assert!(stream.is_closed());
    assert!(matches!(
        stream.state().flush(RecvEvent::Start),
        RecvAction::Shutdown(77)
    ));
    assert!(matches!(
        stream.state().flush(RecvEvent::Shutdown(Ok(()))),
        RecvAction::Return(Ok(None))
    ));
    assert!(matches!(
        stream.closed(Waker::noop().clone()),
        Poll::Ready(Err(StreamError::Stop(77)))
    ));
    assert!(matches!(
        stream.read_chunk(&mut driver, Waker::noop().clone(), 1).0,
        Poll::Ready(Err(StreamError::Stop(77)))
    ));
    assert_eq!(driver.take_recv(Waker::noop().clone()), vec![3]);
}

#[test]
fn dropped_stream_is_stopped() {
    let mut driver = DriverState::new(false);
    let mut stream = RecvStream::new(RecvState::new(StreamId(3)));
    stream.drop_handle(&mut driver);
    assert_eq!(DROP_CODE, 7305813194079104880);
    assert!(matches!(
        stream.state().flush(RecvEvent::Start),
        RecvAction::Shutdown(DROP_CODE)
    ));
    stream.close(&mut driver, 5);
    stream.drop_handle(&mut driver);
    assert!(matches!(
        stream.state().flush(RecvEvent::Start),
        RecvAction::Shutdown(5)
    ));
}

#[test]
fn blocked_read_tells_the_driver() {
    let mut driver = DriverState::new(false);
    let (count, waker) = counter();
    assert!(driver.take_recv(waker).is_empty());
    let mut stream = RecvStream::new(RecvState::new(StreamId(3)));
    assert_eq!(stream.id(), StreamId(3));
    match stream.read_chunk(&mut driver, Waker::noop().clone(), 4) {
        (Poll::Pending, Some(waker)) => waker.wake(),
        _ => panic!("the driver was not told"),
    }
    assert_eq!(woken(&count), 1);
    assert_eq!(driver.take_recv(Waker::noop().clone()), vec![3]);
}

#[test]
fn read_fills_the_front_of_a_slice() {
    let mut driver = DriverState::new(false);
    let mut stream = RecvStream::new(RecvState::new(StreamId(3)));
    let mut buf = [9u8; 4];
    assert!(matches!(
        stream.read(&mut driver, Waker::noop().clone(), &mut buf).0,
        Poll::Pending
    ));
    assert!(matches!(stream.state().flush(RecvEvent::Start), RecvAction::Recv));
    assert!(matches!(receive(stream.state(), b"ab", true), RecvAction::Return(_)));
    assert!(matches!(
        stream.read(&mut driver, Waker::noop().clone(), &mut buf),
        (Poll::Ready(Ok(Some(2))), None)
    ));
    assert_eq!(&buf, b"ab\x09\x09");
    assert!(matches!(
        stream.read(&mut driver, Waker::noop().clone(), &mut buf).0,
        Poll::Ready(Ok(None))
    ));
    assert!(stream.is_closed());
}

#[test]
fn read_all_joins_the_chunks() {
    let all = match ReadAll::new().push(Ok(Some(Bytes::from_static(b"ab")))) {
        ReadAllStep::Continue(all) => all,
        ReadAllStep::Return(_) => panic!("the stream has not ended"),
    };
    let all = match all.push(Ok(Some(Bytes::from_static(b"cd")))) {
        ReadAllStep::Continue(all) => all,
        ReadAllStep::Return(_) => panic!("the stream has not ended"),
    };
    match all.push(Ok(None)) {
        ReadAllStep::Return(Ok(data)) => assert_eq!(&data[..], b"abcd"),
        _ => panic!("the stream has ended"),
    }
    assert!(matches!(
        ReadAll::new().push(Err(StreamError::Closed)),
        ReadAllStep::Return(Err(StreamError::Closed))
    ));
}
