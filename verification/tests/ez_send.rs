use std::sync::atomic::{AtomicUsize, Ordering};
use std::sync::Arc;
use std::task::{Wake, Waker};

use bytes::Bytes;
use web_transport::ez::connection::DriverState;
use web_transport::ez::error::QuicheError;
use web_transport::ez::send::{SendAction, SendEvent, SendState, SendStream, WriteAll, DROP_CODE};
use web_transport::ez::stream::{StreamError, StreamId};
use web_transport::task::Poll;

struct Count(AtomicUsize);

impl Wake for Count {
    fn wake(self: Arc<Self>) {
        self.0.fetch_add(1, Ordering::SeqCst);
    }
}

fn counter() -> (Arc<Count>, Waker) {
    let count = Arc::new(Count(AtomicUsize::new(0)));
    (count.clone(), Waker::from(count))
}

fn woken(count: &Arc<Count>) -> usize {
    count.0.load(Ordering::SeqCst)
}

fn state_with_capacity(capacity: usize) -> SendState {
    let mut state = SendState::new(StreamId(4));
    assert!(matches!(state.flush(SendEvent::Start), SendAction::Capacity));
    assert!(matches!(
        state.flush(SendEvent::Capacity(Ok(capacity))),
        SendAction::Return(Ok(None))
    ));
    state
}

fn write(state: &mut SendState, data: &[u8]) -> usize {
    match state.poll_write(Waker::noop().clone(), data) {
        Poll::Ready(Ok(n)) => n,
        _ => panic!("the write was refused"),
    }
}

fn in_flight(state: &SendState) -> Vec<u8> {
    state.in_flight().expect("nothing is on its way").to_vec()
}

#[test]
fn new_stream_has_its_id_and_no_capacity() {
    let mut state = SendState::new(StreamId(9));
    assert_eq!(state.id(), StreamId(9));
    let (count, waker) = counter();
    assert!(matches!(state.poll_write(waker, b"abc"), Poll::Pending));
    match state.flush(SendEvent::Capacity(Ok(1))) {
        SendAction::Return(Ok(Some(waker))) => waker.wake(),
        _ => panic!("nobody was woken"),
    }
    assert_eq!(woken(&count), 1);
}

#[test]
fn write_is_limited_by_the_capacity() {
    let mut state = state_with_capacity(4);
    assert_eq!(write(&mut state, b"abcdef"), 4);
    assert!(matches!(
        state.poll_write(Waker::noop().clone(), b"ef"),
        Poll::Pending
    ));
    assert!(matches!(state.flush(SendEvent::Start), SendAction::Send));
    assert_eq!(in_flight(&state), b"abcd");
}

#[test]
fn write_buf_takes_what_was_written_off_the_buffer() {
    let mut state = state_with_capacity(3);
    let mut buf = Bytes::from_static(b"hello");
    match state.poll_write_buf(Waker::noop().clone(), &mut buf) {
        Poll::Ready(Ok(n)) => assert_eq!(n, 3),
        _ => panic!("the write was refused"),
    }
    assert_eq!(&buf[..], b"lo");
    assert!(matches!(state.flush(SendEvent::Start), SendAction::Send));
    assert_eq!(in_flight(&state), b"hel");
}

#[test]
fn chunks_are_sent_in_order() {
    let mut state = state_with_capacity(100);
    write(&mut state, b"one");
    write(&mut state, b"two");
    assert!(matches!(state.flush(SendEvent::Start), SendAction::Send));
    assert_eq!(in_flight(&state), b"one");
    assert!(matches!(state.flush(SendEvent::Sent(Ok(3))), SendAction::Send));
    assert_eq!(in_flight(&state), b"two");
    assert!(matches!(state.flush(SendEvent::Sent(Ok(3))), SendAction::Capacity));
    assert!(state.in_flight().is_none());
    assert!(matches!(
        state.flush(SendEvent::Capacity(Ok(0))),
        SendAction::Return(Ok(None))
    ));
}

#[test]
fn rest_of_a_chunk_stays_first() {
    let mut state = state_with_capacity(100);
    write(&mut state, b"abcdef");
    write(&mut state, b"gh");
    assert!(matches!(state.flush(SendEvent::Start), SendAction::Send));
    assert!(matches!(state.flush(SendEvent::Sent(Ok(2))), SendAction::Register));
    assert!(matches!(
        state.flush(SendEvent::Registered(Ok(false))),
        SendAction::Capacity
    ));
    assert!(matches!(
        state.flush(SendEvent::Capacity(Ok(0))),
        SendAction::Return(Ok(None))
    ));
    assert!(matches!(state.flush(SendEvent::Start), SendAction::Send));
    assert_eq!(in_flight(&state), b"cdef");
    assert!(matches!(state.flush(SendEvent::Sent(Ok(4))), SendAction::Send));
    assert_eq!(in_flight(&state), b"gh");
}

#[test]
fn done_accepts_nothing() {
    let mut state = state_with_capacity(100);
    write(&mut state, b"abc");
    assert!(matches!(state.flush(SendEvent::Start), SendAction::Send));
    assert!(matches!(
        state.flush(SendEvent::Sent(Err(QuicheError::Done))),
        SendAction::Register
    ));
    assert!(matches!(
        state.flush(SendEvent::Registered(Ok(true))),
        SendAction::Capacity
    ));
    assert!(matches!(state.flush(SendEvent::Start), SendAction::Send));
    assert_eq!(in_flight(&state), b"abc");
}

#[test]
fn fin_follows_the_last_byte() {
    let mut driver = DriverState::new(false);
    let mut stream = SendStream::new(state_with_capacity(10));
    write(stream.state(), b"bye");
    assert!(stream.finish(&mut driver).is_ok());
    let (count, waker) = counter();
    assert!(matches!(stream.closed(waker), Poll::Pending));
    let state = stream.state();
    assert!(matches!(state.flush(SendEvent::Start), SendAction::Send));
    assert!(matches!(state.flush(SendEvent::Sent(Ok(3))), SendAction::Finish));
    match state.flush(SendEvent::Finished(Ok(0))) {
        SendAction::Return(Ok(Some(waker))) => waker.wake(),
        _ => panic!("nobody was woken"),
    }
    assert_eq!(woken(&count), 1);
    assert!(matches!(
        stream.closed(Waker::noop().clone()),
        Poll::Ready(Ok(()))
    ));
}

#[test]
fn stop_of_the_peer_wakes_and_stays() {
    let mut driver = DriverState::new(false);
    let mut stream = SendStream::new(state_with_capacity(2));
    write(stream.state(), b"ab");
    let (count, waker) = counter();
    assert!(matches!(stream.write(&mut driver, waker, b"c"), (Poll::Pending, None)));
    let state = stream.state();
    assert!(matches!(state.flush(SendEvent::Start), SendAction::Send));
    match state.flush(SendEvent::Sent(Err(QuicheError::StreamStopped(7)))) {
        SendAction::Return(Ok(Some(waker))) => waker.wake(),
        _ => panic!("nobody was woken"),
    }
    assert_eq!(woken(&count), 1);
    assert!(matches!(
        state.flush(SendEvent::Start),
        SendAction::Return(Ok(None))
    ));
    assert!(stream.is_closed());
    match stream.write(&mut driver, Waker::noop().clone(), b"c") {
        (Poll::Ready(Err(err)), _) => assert_eq!(err, StreamError::Stop(7)),
        _ => panic!("the write was not refused"),
    }
    assert!(matches!(
        stream.closed(Waker::noop().clone()),
        Poll::Ready(Err(StreamError::Stop(7)))
    ));
    assert!(matches!(stream.finish(&mut driver), Err(StreamError::Stop(7))));
}

#[test]
fn capacity_can_report_a_stop() {
    let mut state = SendState::new(StreamId(0));
    assert!(matches!(state.flush(SendEvent::Start), SendAction::Capacity));
    assert!(matches!(
        state.flush(SendEvent::Capacity(Err(QuicheError::StreamStopped(3)))),
        SendAction::Return(Ok(None))
    ));
    match state.poll_write(Waker::noop().clone(), b"x") {
        Poll::Ready(Err(err)) => assert_eq!(err, StreamError::Stop(3)),
        _ => panic!("the write was not refused"),
    }
}

#[test]
fn errors_of_the_connection_end_a_flush() {
    let mut state = state_with_capacity(5);
    write(&mut state, b"abc");
    assert!(matches!(state.flush(SendEvent::Start), SendAction::Send));
    assert!(matches!(
        state.flush(SendEvent::Sent(Err(QuicheError::StreamLimit))),
        SendAction::Return(Err(QuicheError::StreamLimit))
    ));
    assert!(matches!(
        state.flush(SendEvent::Shutdown(Err(QuicheError::Done))),
        SendAction::Return(Err(QuicheError::Done))
    ));
    assert!(matches!(
        state.flush(SendEvent::Prioritized(Err(QuicheError::Done))),
        SendAction::Return(Err(QuicheError::Done))
    ));
    assert!(matches!(
        state.flush(SendEvent::Registered(Err(QuicheError::Done))),
        SendAction::Return(Err(QuicheError::Done))
    ));
    assert!(matches!(
        state.flush(SendEvent::Finished(Err(QuicheError::Done))),
        SendAction::Return(Err(QuicheError::Done))
    ));
    assert!(matches!(
        state.flush(SendEvent::Capacity(Err(QuicheError::Done))),
        SendAction::Return(Err(QuicheError::Done))
    ));
}

#[test]
fn reset_shuts_the_stream_down() {
    let mut driver = DriverState::new(false);
    let mut stream = SendStream::new(state_with_capacity(5));
    write(stream.state(), b"abc");
    stream.close(&mut driver, 42);
    assert!(stream.is_closed());
    assert!(matches!(
        stream.state().flush(SendEvent::Start),
        SendAction::Shutdown(42)
    ));
    assert!(matches!(
        stream.state().flush(SendEvent::Shutdown(Ok(()))),
        SendAction::Return(Ok(None))
    ));
    assert!(matches!(
        stream.finish(&mut driver),
        Err(StreamError::Reset(42))
    ));
    assert!(matches!(
        stream.closed(Waker::noop().clone()),
        Poll::Ready(Err(StreamError::Reset(42)))
    ));
    match stream.write(&mut driver, Waker::noop().clone(), b"d") {
        (Poll::Ready(Err(err)), _) => assert_eq!(err, StreamError::Reset(42)),
        _ => panic!("the write was not refused"),
    }
}

#[test]
fn finished_stream_refuses_more() {
    let mut driver = DriverState::new(false);
    let mut stream = SendStream::new(state_with_capacity(5));
    assert!(stream.finish(&mut driver).is_ok());
    assert!(matches!(stream.finish(&mut driver), Err(StreamError::Closed)));
    match stream.write(&mut driver, Waker::noop().clone(), b"d") {
        (Poll::Ready(Err(err)), _) => assert_eq!(err, StreamError::Closed),
        _ => panic!("the write was not refused"),
    }
}

#[test]
fn priority_is_set_once() {
    let mut driver = DriverState::new(false);
    let mut stream = SendStream::new(state_with_capacity(5));
    write(stream.state(), b"abc");
    stream.set_priority(&mut driver, 9);
    let state = stream.state();
    assert!(matches!(state.flush(SendEvent::Start), SendAction::Prioritize(9)));
    assert!(matches!(
        state.flush(SendEvent::Prioritized(Ok(()))),
        SendAction::Send
    ));
    assert!(matches!(state.flush(SendEvent::Sent(Ok(3))), SendAction::Capacity));
    assert!(matches!(state.flush(SendEvent::Start), SendAction::Capacity));
}

#[test]
fn dropped_stream_is_reset() {
    let mut driver = DriverState::new(false);
    let mut stream = SendStream::new(state_with_capacity(5));
    stream.drop_handle(&mut driver);
    assert_eq!(DROP_CODE, 7308889627613622128);
    assert!(matches!(
        stream.state().flush(SendEvent::Start),
        SendAction::Shutdown(DROP_CODE)
    ));

    let mut finished = SendStream::new(state_with_capacity(5));
    finished.finish(&mut driver).unwrap();
    finished.drop_handle(&mut driver);
    assert!(matches!(
        finished.state().flush(SendEvent::Start),
        SendAction::Finish
    ));
}

#[test]
fn driver_is_told_of_each_change_once() {
    let mut driver = DriverState::new(false);
    let (count, waker) = counter();
    assert!(driver.take_send(waker).is_empty());
    let mut stream = SendStream::new(state_with_capacity(5));
    assert_eq!(stream.id(), StreamId(4));
    match stream.write(&mut driver, Waker::noop().clone(), b"abc") {
        (Poll::Ready(Ok(3)), Some(waker)) => waker.wake(),
        _ => panic!("the driver was not told"),
    }
    assert!(stream.finish(&mut driver).unwrap().is_none());
    assert_eq!(woken(&count), 1);
    assert_eq!(driver.take_send(Waker::noop().clone()), vec![4]);
    let mut buf = Bytes::from_static(b"d");
    match stream.write_buf(&mut driver, Waker::noop().clone(), &mut buf) {
        (Poll::Ready(Err(err)), Some(_)) => assert_eq!(err, StreamError::Closed),
        _ => panic!("the driver was not told"),
    }
}

#[test]
fn reserve_and_enqueue_write_a_chunk() {
    let mut state = state_with_capacity(3);
    match state.poll_reserve(Waker::noop().clone(), 10) {
        Poll::Ready(Ok(n)) => assert_eq!(n, 3),
        _ => panic!("there was no room"),
    }
    state.enqueue(Bytes::from_static(b"xyz"));
    assert!(matches!(state.flush(SendEvent::Start), SendAction::Send));
    assert_eq!(in_flight(&state), b"xyz");
}

#[test]
fn write_all_goes_on_until_everything_is_written() {
    let mut all = WriteAll::new(5);
    assert_eq!(all.next(), Some(0));
    assert_eq!(all.wrote::<StreamError>(Ok(2)), Ok(()));
    assert_eq!(all.next(), Some(2));
    assert_eq!(all.wrote(Err(StreamError::Closed)), Err(StreamError::Closed));
    assert_eq!(all.wrote::<StreamError>(Ok(3)), Ok(()));
    assert_eq!(all.next(), None);
    assert_eq!(WriteAll::new(0).next(), None);
}
