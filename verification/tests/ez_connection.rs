use std::sync::atomic::{AtomicUsize, Ordering};
use std::sync::Arc;
use std::task::{Wake, Waker};

use web_transport::ez::connection::{
    Connection, ConnectionClose, ConnectionClosed, DriverState, STREAM_ID_LIMIT,
};
use web_transport::ez::error::{ConnectionError, QuicheError};
use web_transport::ez::stream::StreamId;
use web_transport::ez::wakeup::DriverWakeup;
use web_transport::task::Poll;

struct Count(AtomicUsize);

impl Wake for Count {
    fn wake(self: Arc<Self>) {
        self.0.fetch_add(1, Ordering::SeqCst);
    }
}

fn counter() -> (Arc<Count>, Waker) {
    let count = Arc::new(Count(AtomicUsize::new(0)));
    (count.clone(), Waker::from(count))
}

fn woken(count: &Arc<Count>) -> usize {
    count.0.load(Ordering::SeqCst)
}

#[test]
fn first_error_counts_and_wakes_everyone() {
    let mut closed = ConnectionClosed::default();
    assert!(!closed.is_closed());
    assert!(closed.error().is_none());
    let (count, waker) = counter();
    assert!(matches!(closed.poll(waker.clone()), Poll::Pending));
    assert!(matches!(closed.poll(waker), Poll::Pending));
    for waker in closed.abort(ConnectionError::Dropped) {
        waker.wake();
    }
    assert_eq!(woken(&count), 2);
    assert!(closed.abort(ConnectionError::Unknown("late".to_string())).is_empty());
    assert!(matches!(
        closed.poll(Waker::noop().clone()),
        Poll::Ready(ConnectionError::Dropped)
    ));
    assert!(matches!(closed.error(), Some(ConnectionError::Dropped)));
}

fn allowed(server: bool) -> DriverState {
    let mut driver = DriverState::new(server);
    assert!(driver.allow_bi(10).is_empty());
    assert!(driver.allow_uni(10).is_empty());
    driver
}

fn open(driver: &mut DriverState, bi: bool) -> Option<u64> {
    let waker = Waker::noop().clone();
    let res = if bi {
        driver.open_bi(waker)
    } else {
        driver.open_uni(waker)
    };
    match res {
        Poll::Ready(Ok((_, id))) => Some(id.0),
        Poll::Ready(Err(_)) => panic!("the connection is open"),
        Poll::Pending => None,
    }
}

#[test]
fn stream_ids_count_up_by_kind_and_side() {
    let mut client = allowed(false);
    assert_eq!(open(&mut client, true), Some(0));
    assert_eq!(open(&mut client, true), Some(4));
    assert_eq!(open(&mut client, false), Some(2));
    assert_eq!(open(&mut client, false), Some(6));
    let mut server = allowed(true);
    assert_eq!(open(&mut server, true), Some(1));
    assert_eq!(open(&mut server, false), Some(3));
    assert!(StreamId(5).is_bi());
    assert!(!StreamId(7).is_bi());
    assert_eq!(u64::from(StreamId::from(12)), 12);
    assert_eq!(STREAM_ID_LIMIT, 1 << 62);
}

#[test]
fn stream_is_opened_when_the_peer_allows_it() {
    let mut driver = DriverState::new(false);
    let (count, waker) = counter();
    for _ in 0..2 {
        assert!(matches!(driver.open_bi(waker.clone()), Poll::Pending));
    }
    assert!(driver.allow_uni(1).is_empty());
    assert!(driver.allow_bi(0).is_empty());
    for waker in driver.allow_bi(1) {
        waker.wake();
    }
    assert_eq!(woken(&count), 2);
    assert!(driver.allow_bi(1).is_empty());
    assert_eq!(open(&mut driver, true), Some(0));
    assert!(matches!(driver.open_bi(waker.clone()), Poll::Pending));
    assert!(driver.allow_bi(1).is_empty());
    driver.take_bi();
    assert!(driver.allow_bi(0).is_empty());
    assert_eq!(open(&mut driver, true), None);
    for waker in driver.allow_bi(2) {
        waker.wake();
    }
    assert_eq!(woken(&count), 3);
    assert_eq!(open(&mut driver, true), Some(4));
    assert_eq!(open(&mut driver, true), Some(8));
    assert_eq!(open(&mut driver, true), None);
    assert_eq!(open(&mut driver, false), Some(2));
    assert_eq!(open(&mut driver, false), None);
}

#[test]
fn peer_allows_every_stream() {
    let limit = 5;
    let mut driver = DriverState::new(true);
    let mut given = 0;
    let mut opened = 0;
    for round in 0..20 {
        driver.allow_uni(limit - opened);
        if round % 3 != 0 && open(&mut driver, false).is_some() {
            given += 1;
        }
        if round % 2 == 0 && opened < given {
            driver.take_uni();
            opened += 1;
        }
        assert!(opened <= given && given <= limit);
    }
    assert_eq!((given, opened), (limit, limit));
}

#[test]
fn end_wakes_those_who_wait_for_a_stream() {
    let (count, waker) = counter();
    let mut driver = DriverState::new(false);
    assert!(matches!(driver.open_bi(waker.clone()), Poll::Pending));
    assert!(matches!(driver.open_uni(waker.clone()), Poll::Pending));
    for waker in driver.close(ConnectionError::Dropped) {
        waker.wake();
    }
    assert_eq!(woken(&count), 2);
    assert!(matches!(
        driver.open_bi(waker.clone()),
        Poll::Ready(Err(ConnectionError::Dropped))
    ));
    let mut driver = DriverState::new(false);
    assert!(matches!(driver.open_uni(waker), Poll::Pending));
    for waker in driver.finish(ConnectionError::Remote(1, "bye".to_string())) {
        waker.wake();
    }
    assert_eq!(woken(&count), 3);
    assert!(driver.allow_uni(1).is_empty());
}

#[test]
fn closed_connection_opens_no_stream() {
    let mut driver = allowed(false);
    driver.close(ConnectionError::Local(1, "bye".to_string()));
    assert!(driver.is_closed());
    assert!(matches!(
        driver.open_bi(Waker::noop().clone()),
        Poll::Ready(Err(ConnectionError::Local(1, _)))
    ));
    driver.finish(ConnectionError::Remote(2, "gone".to_string()));
    assert!(matches!(
        driver.open_uni(Waker::noop().clone()),
        Poll::Ready(Err(ConnectionError::Local(1, _)))
    ));
}

#[test]
fn close_alone_does_not_end_a_connection() {
    let mut connection = Connection::new(DriverState::new(false));
    let (count, waker) = counter();
    assert!(matches!(connection.closed(waker), Poll::Pending));
    let (wakers, res) = connection.close(7, "done");
    assert!(wakers.is_empty());
    assert!(res.is_ok());
    assert!(connection.is_closed());
    assert!(matches!(
        connection.closed(Waker::noop().clone()),
        Poll::Pending
    ));
    match connection.driver().poll_local(Waker::noop().clone()) {
        Poll::Ready(ConnectionError::Local(code, reason)) => {
            assert_eq!(code, 7);
            assert_eq!(reason, "done");
        }
        _ => panic!("the close was not recorded"),
    }
    assert!(matches!(
        connection.close(8, "again").1,
        Err(ConnectionError::Local(7, _))
    ));
    for waker in connection
        .driver()
        .finish(ConnectionError::Remote(9, "ack".to_string()))
    {
        waker.wake();
    }
    assert_eq!(woken(&count), 1);
    assert!(matches!(
        connection.closed(Waker::noop().clone()),
        Poll::Ready(ConnectionError::Remote(9, _))
    ));
}

#[test]
fn connection_makes_streams() {
    let mut connection = Connection::new(DriverState::new(true));
    let noop = Waker::noop().clone();
    assert!(matches!(connection.open_bi(noop.clone()), Poll::Pending));
    assert!(matches!(connection.open_uni(noop.clone()), Poll::Pending));
    assert_eq!(connection.driver().allow_bi(1).len(), 1);
    assert_eq!(connection.driver().allow_uni(1).len(), 1);
    let (count, waker) = counter();
    assert!(connection.driver().take_send(waker).is_empty());
    match connection.open_bi(noop.clone()) {
        Poll::Ready(Ok((wake, send, recv))) => {
            assert_eq!(send.id(), StreamId(1));
            assert_eq!(recv.id(), StreamId(1));
            wake.expect("the driver is not woken").wake();
        }
        _ => panic!("the peer allows the stream"),
    }
    assert_eq!(woken(&count), 1);
    match connection.open_uni(noop.clone()) {
        Poll::Ready(Ok((wake, send))) => {
            assert!(wake.is_none());
            assert_eq!(send.id(), StreamId(3));
        }
        _ => panic!("the peer allows the stream"),
    }
    let mut ids = connection.driver().take_send(noop.clone());
    ids.sort();
    assert_eq!(ids, vec![1, 3]);
    connection.close(0, "");
    assert!(matches!(connection.open_bi(noop.clone()), Poll::Ready(Err(_))));
    assert!(matches!(connection.open_uni(noop), Poll::Ready(Err(_))));
}

#[test]
fn last_reference_closes_the_connection() {
    let mut close = ConnectionClose::new(DriverState::new(false));
    let (count, waker) = counter();
    assert!(matches!(close.driver().poll_local(waker), Poll::Pending));
    assert!(!close.is_closed());
    for waker in close.drop_last() {
        waker.wake();
    }
    assert_eq!(woken(&count), 1);
    assert!(close.is_closed());
    assert!(close.close(ConnectionError::Dropped).is_empty());
    assert!(matches!(close.wait(Waker::noop().clone()), Poll::Pending));
}

#[test]
fn failed_step_closes_the_connection() {
    let mut driver = DriverState::new(false);
    assert!(driver.abort_on_error(Ok(())).is_empty());
    assert!(!driver.is_closed());
    driver.abort_on_error(Err(ConnectionError::from(QuicheError::Done)));
    assert!(matches!(
        driver.poll_local(Waker::noop().clone()),
        Poll::Ready(ConnectionError::Quiche(QuicheError::Done))
    ));
}

#[test]
fn stream_wakes_the_driver_once() {
    let mut wakeup = DriverWakeup::default();
    let (count, waker) = counter();
    assert!(wakeup.register(waker).is_empty());
    wakeup.waker(4).expect("the driver is not woken").wake();
    assert!(wakeup.waker(4).is_none());
    assert!(wakeup.waker(8).is_none());
    assert_eq!(woken(&count), 1);
    let mut ids = wakeup.register(Waker::noop().clone());
    ids.sort();
    assert_eq!(ids, vec![4, 8]);
    assert!(wakeup.waker(4).is_some());
    let mut driver = DriverState::new(false);
    assert!(driver.wake_send(StreamId(4)).is_none());
    assert!(driver.wake_recv(StreamId(5)).is_none());
    assert_eq!(driver.take_send(Waker::noop().clone()), vec![4]);
    assert_eq!(driver.take_recv(Waker::noop().clone()), vec![5]);
}

#[test]
fn quic_errors_have_a_text() {
    assert_eq!(QuicheError::Done.text(), "Done");
    assert_eq!(QuicheError::InvalidStreamState(40).text(), "InvalidStreamState(40)");
    assert_eq!(QuicheError::StreamStopped(0).text(), "StreamStopped(0)");
    assert_eq!(QuicheError::StreamReset(19).text(), "StreamReset(19)");
    assert_eq!(QuicheError::StreamLimit.text(), "StreamLimit");
    assert_eq!(QuicheError::Other("CryptoFail".to_string()).text(), "CryptoFail");
    assert!(matches!(
        ConnectionError::Unknown("x".to_string()).clone(),
        ConnectionError::Unknown(_)
    ));
}
