//! What the driver promises over a whole poll: each stream that needs it is flushed once, nothing
//! is sent on a connection that is draining, every stream that waits is opened as far as the peer
//! allows it, and the driver waits only when there was nothing to do.

use vstd::prelude::*;

use super::driver::{
    Driver, DriverView, PollAction, PollEvent, ReadAction, ReadEvent, WriteAction, WriteEvent,
};
use super::error::{ConnectionError, QuicheError};
use super::stream::StreamId;
use crate::task::Poll;

verus! {

/// A poll that is under way, and its past.
pub ghost struct PollRun<S, R> {
    pub driver: DriverView<S, R>,
    /// What the driver does at present.
    pub asked: PollAction,
    /// The open streams among those that waited for data.
    pub recv_taken: Seq<u64>,
    /// The streams of which the receiving side was flushed, the one under way included.
    pub recv_flushed: Seq<u64>,
    /// The open streams among those that had data to send.
    pub send_taken: Seq<u64>,
    /// The streams of which the sending side was flushed, the one under way included.
    pub send_flushed: Seq<u64>,
    /// Whether the handshake is over.
    pub established: bool,
    /// Whether the connection turned out to be neither draining nor closed.
    pub may_send: bool,
    /// Whether a stream was flushed or opened.
    pub worked: bool,
    /// The streams that waited for data, open or not, once the driver took them.
    pub recv_ids: Option<Seq<u64>>,
    /// The streams that had data to send, open or not, once the driver took them.
    pub send_ids: Option<Seq<u64>>,
    /// The receiving sides that were open then.
    pub recv_open: Map<u64, R>,
    /// The sending sides that were open then.
    pub send_open: Map<u64, S>,
    /// Whether the connection turned out to be draining or closed.
    pub draining: bool,
    /// Whether the peer allowed a bidirectional stream when the driver asked last.
    pub bi_allowed: bool,
    /// Whether the peer allowed a unidirectional stream when the driver asked last.
    pub uni_allowed: bool,
    /// Whether no bidirectional stream waited when the driver looked last.
    pub bi_empty: bool,
    /// Whether no unidirectional stream waited when the driver looked last.
    pub uni_empty: bool,
}

/// Whether an event answers what the driver does.
pub open spec fn poll_answers<S, R>(asked: PollAction, event: PollEvent<S, R>) -> bool {
    match asked {
        PollAction::PollLocal => event is Local,
        PollAction::Close(_) => event is Closed,
        PollAction::IsEstablished => event is Established,
        PollAction::TakeRecv => event is Recv,
        PollAction::FlushRecv(_) => event is RecvFlushed,
        PollAction::IsDraining => event is Draining,
        PollAction::TakeSend => event is Send,
        PollAction::FlushSend(_) => event is SendFlushed,
        PollAction::BidiLeft => event is BidiLeft,
        PollAction::NextBi => event is NextBi,
        PollAction::OpenBi(_) => event is BiOpened,
        PollAction::FlushBiSend => event is BiSendFlushed,
        PollAction::FlushBiRecv => event is BiRecvFlushed,
        PollAction::UniLeft => event is UniLeft,
        PollAction::NextUni => event is NextUni,
        PollAction::OpenUni(_) => event is UniOpened,
        PollAction::FlushUni => event is UniFlushed,
        PollAction::Return(_) => false,
    }
}

/// Whether an action takes the streams that have data to send, sends on one of them or opens one.
pub open spec fn sends(action: PollAction) -> bool {
    match action {
        PollAction::TakeSend | PollAction::FlushSend(_) => true,
        PollAction::NextBi | PollAction::OpenBi(_) => true,
        PollAction::FlushBiSend | PollAction::FlushBiRecv => true,
        PollAction::NextUni | PollAction::OpenUni(_) | PollAction::FlushUni => true,
        _ => false,
    }
}

/// Whether all streams of a list are open.
spec fn all_open<H>(ids: Seq<u64>, open: Map<u64, H>) -> bool {
    forall|i: int| 0 <= i < ids.len() ==> open.contains_key(#[trigger] ids[i])
}

proof fn rest_is_open<H>(ids: Seq<u64>, open: Map<u64, H>)
    requires
        all_open(ids, open),
        ids.len() > 0,
    ensures
        all_open(ids.drop_first().push(ids.first()), open),
{
    let rest = ids.drop_first().push(ids.first());
    assert forall|i: int| 0 <= i < rest.len() implies open.contains_key(#[trigger] rest[i]) by {
        assert(rest[i] == if i < ids.len() - 1 {
            ids[i + 1]
        } else {
            ids[0]
        });
    }
}

impl<S, R> PollRun<S, R> {
    /// A poll that begins.
    pub open spec fn start(driver: DriverView<S, R>, draining: bool) -> PollRun<S, R> {
        let (driver, asked) = driver.polled(PollEvent::Start(draining));
        PollRun {
            driver,
            asked,
            recv_taken: Seq::empty(),
            recv_flushed: Seq::empty(),
            send_taken: Seq::empty(),
            send_flushed: Seq::empty(),
            established: false,
            may_send: false,
            worked: false,
            recv_ids: None,
            send_ids: None,
            recv_open: driver.recv,
            send_open: driver.send,
            draining: false,
            bi_allowed: false,
            uni_allowed: false,
            bi_empty: false,
            uni_empty: false,
        }
    }

    /// The poll after an event.
    pub open spec fn step(self, event: PollEvent<S, R>) -> PollRun<S, R> {
        let (driver, asked) = self.driver.polled(event);
        PollRun {
            driver,
            asked,
            recv_taken: match event {
                PollEvent::Recv(ids) => super::driver::open_streams(ids@, self.driver.recv),
                _ => self.recv_taken,
            },
            recv_flushed: match asked {
                PollAction::FlushRecv(id) => self.recv_flushed.push(id),
                _ => self.recv_flushed,
            },
            send_taken: match event {
                PollEvent::Send(ids) => super::driver::open_streams(ids@, self.driver.send),
                _ => self.send_taken,
            },
            send_flushed: match asked {
                PollAction::FlushSend(id) => self.send_flushed.push(id),
                _ => self.send_flushed,
            },
            established: self.established || event == PollEvent::<S, R>::Established(true),
            may_send: self.may_send || event == PollEvent::<S, R>::Draining(false),
            worked: self.worked || match event {
                PollEvent::RecvFlushed(Ok(_)) | PollEvent::SendFlushed(Ok(_)) => true,
                PollEvent::BiRecvFlushed(Ok(_)) | PollEvent::UniFlushed(Ok(_)) => true,
                _ => false,
            },
            recv_ids: match event {
                PollEvent::Recv(ids) => Some(ids@),
                _ => self.recv_ids,
            },
            send_ids: match event {
                PollEvent::Send(ids) => Some(ids@),
                _ => self.send_ids,
            },
            recv_open: match event {
                PollEvent::Recv(_) => self.driver.recv,
                _ => self.recv_open,
            },
            send_open: match event {
                PollEvent::Send(_) => self.driver.send,
                _ => self.send_open,
            },
            draining: self.draining || event == PollEvent::<S, R>::Draining(true),
            bi_allowed: match event {
                PollEvent::BidiLeft(left) => left > 0,
                _ => self.bi_allowed,
            },
            uni_allowed: match event {
                PollEvent::UniLeft(left) => left > 0,
                _ => self.uni_allowed,
            },
            bi_empty: match event {
                PollEvent::NextBi(next) => next is None,
                _ => self.bi_empty,
            },
            uni_empty: match event {
                PollEvent::NextUni(next) => next is None,
                _ => self.uni_empty,
            },
        }
    }

    /// Whether all events can come, one after the other.
    pub open spec fn allows_all(self, events: Seq<PollEvent<S, R>>) -> bool
        decreases events.len(),
    {
        events.len() > 0 ==> self.allows_all(events.drop_last()) && poll_answers(
            self.steps(events.drop_last()).asked,
            events.last(),
        )
    }

    /// The poll after all events, one after the other.
    pub open spec fn steps(self, events: Seq<PollEvent<S, R>>) -> PollRun<S, R>
        decreases events.len(),
    {
        if events.len() == 0 {
            self
        } else {
            self.steps(events.drop_last()).step(events.last())
        }
    }

    /// Whether the poll is still before its work.
    spec fn is_early(self) -> bool {
        match self.asked {
            PollAction::PollLocal | PollAction::Close(_) | PollAction::IsEstablished => true,
            _ => false,
        }
    }

    /// What holds at any time of a poll.
    spec fn inv(self) -> bool {
        &&& sends(self.asked) || self.asked is BidiLeft || self.asked is UniLeft ==> self.may_send
        &&& self.is_early() ==> !self.established
        &&& !self.established ==> !self.worked && self.recv_flushed.len() == 0
            && self.send_flushed.len() == 0
        &&& !self.is_early() && !(self.asked is Return) ==> self.established
        &&& self.established ==> self.driver.wait == !self.worked
        &&& match self.asked {
            PollAction::TakeRecv => self.recv_flushed.len() == 0 && self.send_flushed.len() == 0,
            PollAction::FlushRecv(id) => {
                &&& self.recv_flushed + self.driver.work == self.recv_taken
                &&& self.send_flushed.len() == 0
                &&& all_open(self.driver.work.push(id), self.driver.recv)
            },
            PollAction::IsDraining | PollAction::TakeSend => self.recv_flushed == self.recv_taken
                && self.send_flushed.len() == 0,
            PollAction::FlushSend(id) => {
                &&& self.recv_flushed == self.recv_taken
                &&& self.send_flushed + self.driver.work == self.send_taken
                &&& all_open(self.driver.work.push(id), self.driver.send)
            },
            PollAction::Return(Poll::Pending) => self.established ==> !self.worked,
            PollAction::Return(Poll::Ready(Ok(_))) => self.established ==> self.worked,
            PollAction::Return(Poll::Ready(Err(_))) => true,
            _ => !self.is_early() ==> self.recv_flushed == self.recv_taken && self.send_flushed
                == self.send_taken,
        }
    }
}

impl<S, R> PollRun<S, R> {
    /// Whether the driver is beyond the receiving sides, without an error.
    pub open spec fn received(self) -> bool {
        match self.asked {
            PollAction::IsDraining | PollAction::TakeSend | PollAction::FlushSend(_) => true,
            PollAction::Return(Poll::Ready(Err(_))) => false,
            PollAction::Return(_) => self.established,
            _ => self.sent(),
        }
    }

    /// Whether the driver is beyond the sending sides, without an error.
    pub open spec fn sent(self) -> bool {
        match self.asked {
            PollAction::BidiLeft | PollAction::NextBi | PollAction::OpenBi(_) => true,
            PollAction::FlushBiSend | PollAction::FlushBiRecv => true,
            PollAction::Return(Poll::Ready(Err(_))) => false,
            PollAction::Return(_) => self.established && !self.draining,
            _ => self.opened_bi(),
        }
    }

    /// Whether the driver is beyond the bidirectional streams that wait to be opened.
    pub open spec fn opened_bi(self) -> bool {
        match self.asked {
            PollAction::UniLeft | PollAction::NextUni | PollAction::OpenUni(_) => true,
            PollAction::FlushUni => true,
            PollAction::Return(Poll::Ready(Err(_))) => false,
            PollAction::Return(_) => self.established && !self.draining,
            _ => false,
        }
    }

    /// What holds at any time of a poll, of what came to the driver.
    spec fn past(self) -> bool {
        &&& match self.asked {
            PollAction::FlushRecv(_) => self.recv_ids matches Some(ids) && serves(
                ids,
                self.recv_open,
                self.recv_taken,
            ),
            PollAction::FlushSend(_) => self.send_ids matches Some(ids) && serves(
                ids,
                self.send_open,
                self.send_taken,
            ),
            _ => true,
        }
        &&& self.received() ==> self.recv_ids is Some && serves(
            self.recv_ids->0,
            self.recv_open,
            self.recv_flushed,
        )
        &&& self.sent() ==> self.send_ids is Some && serves(
            self.send_ids->0,
            self.send_open,
            self.send_flushed,
        )
        &&& !(self.asked is Return) ==> !self.draining
        &&& !self.established ==> !self.draining
        &&& self.opened_bi() ==> !self.bi_allowed || self.bi_empty
        &&& match self.asked {
            PollAction::NextBi | PollAction::OpenBi(_) => self.bi_allowed,
            PollAction::FlushBiSend | PollAction::FlushBiRecv => self.bi_allowed,
            PollAction::NextUni | PollAction::OpenUni(_) => self.uni_allowed,
            PollAction::FlushUni => self.uni_allowed,
            PollAction::Return(Poll::Ready(Err(_))) => true,
            PollAction::Return(_) => {
                self.established && !self.draining ==> !self.uni_allowed || self.uni_empty
            },
            _ => true,
        }
    }
}

/// Whether a list holds every open stream of those that were taken, and nothing else; each of them
/// once, if it was taken once.
pub open spec fn serves<H>(ids: Seq<u64>, open: Map<u64, H>, flushed: Seq<u64>) -> bool {
    &&& forall|i: int|
        0 <= i < ids.len() && open.contains_key(#[trigger] ids[i]) ==> flushed.contains(ids[i])
    &&& forall|j: int|
        0 <= j < flushed.len() ==> open.contains_key(#[trigger] flushed[j]) && ids.contains(
            flushed[j],
        )
    &&& ids.no_duplicates() ==> flushed.no_duplicates()
}

proof fn open_streams_serve<H>(ids: Seq<u64>, open: Map<u64, H>)
    ensures
        serves(ids, open, super::driver::open_streams(ids, open)),
    decreases ids.len(),
{
    reveal(Seq::filter);
    let out = super::driver::open_streams(ids, open);
    if ids.len() > 0 {
        let rest = ids.drop_last();
        let last = ids.last();
        open_streams_serve(rest, open);
        let before = super::driver::open_streams(rest, open);
        assert(out == if open.contains_key(last) {
            before.push(last)
        } else {
            before
        });
        assert forall|i: int| 0 <= i < ids.len() && open.contains_key(#[trigger] ids[i])
            implies out.contains(ids[i]) by {
            if i < rest.len() {
                assert(rest[i] == ids[i]);
                let j = choose|j: int| 0 <= j < before.len() && before[j] == ids[i];
                assert(out[j] == ids[i]);
            } else {
                assert(out[before.len() as int] == last);
            }
        }
        assert forall|j: int| 0 <= j < out.len() implies open.contains_key(#[trigger] out[j])
            && ids.contains(out[j]) by {
            if j < before.len() {
                assert(out[j] == before[j]);
                let i = choose|i: int| 0 <= i < rest.len() && rest[i] == before[j];
                assert(ids[i] == out[j]);
            } else {
                assert(ids[rest.len() as int] == last);
            }
        }
        if ids.no_duplicates() {
            assert(rest.no_duplicates());
            assert(!rest.contains(last));
            assert(out.no_duplicates());
        }
    }
}

proof fn step_keeps_past<S, R>(run: PollRun<S, R>, event: PollEvent<S, R>)
    requires
        run.inv(),
        run.past(),
        poll_answers(run.asked, event),
    ensures
        run.step(event).past(),
{
    step_keeps_inv(run, event);
    match event {
        PollEvent::Recv(ids) => open_streams_serve(ids@, run.driver.recv),
        PollEvent::Send(ids) => open_streams_serve(ids@, run.driver.send),
        _ => {},
    }
}

proof fn steps_keep_past<S, R>(run: PollRun<S, R>, events: Seq<PollEvent<S, R>>)
    requires
        run.inv(),
        run.past(),
        run.allows_all(events),
    ensures
        run.steps(events).inv(),
        run.steps(events).past(),
    decreases events.len(),
{
    if events.len() > 0 {
        steps_keep_past(run, events.drop_last());
        let before = run.steps(events.drop_last());
        step_keeps_inv(before, events.last());
        step_keeps_past(before, events.last());
    }
}

proof fn step_keeps_inv<S, R>(run: PollRun<S, R>, event: PollEvent<S, R>)
    requires
        run.inv(),
        poll_answers(run.asked, event),
    ensures
        run.step(event).inv(),
{
    let next = run.step(event);
    let work = match event {
        PollEvent::Recv(ids) => {
            let open = |id: u64| run.driver.recv.contains_key(id);
            broadcast use vstd::seq_lib::group_filter_ensures;

            assert(ids@.filter(open).all(open));
            next.recv_taken
        },
        PollEvent::Send(ids) => {
            let open = |id: u64| run.driver.send.contains_key(id);
            broadcast use vstd::seq_lib::group_filter_ensures;

            assert(ids@.filter(open).all(open));
            next.send_taken
        },
        _ => run.driver.work,
    };
    if next.asked is FlushRecv {
        assert forall|i: int| 0 <= i < work.len() implies run.driver.recv.contains_key(
            #[trigger] work[i],
        ) by {
            if let PollAction::FlushRecv(id) = run.asked {
                assert(work.push(id)[i] == work[i]);
            }
        }
        rest_is_open(work, run.driver.recv);
    }
    if next.asked is FlushSend {
        assert forall|i: int| 0 <= i < work.len() implies run.driver.send.contains_key(
            #[trigger] work[i],
        ) by {
            if let PollAction::FlushSend(id) = run.asked {
                assert(work.push(id)[i] == work[i]);
            }
        }
        rest_is_open(work, run.driver.send);
    }
    match event {
        PollEvent::Recv(_) | PollEvent::RecvFlushed(Ok(_)) => {
            assert(next.recv_flushed + next.driver.work =~= next.recv_taken);
            if next.asked is IsDraining {
                assert(next.recv_flushed =~= next.recv_taken);
            }
        },
        PollEvent::Send(_) | PollEvent::SendFlushed(Ok(_)) => {
            assert(next.send_flushed + next.driver.work =~= next.send_taken);
            if next.asked is BidiLeft {
                assert(next.send_flushed =~= next.send_taken);
            }
        },
        _ => {},
    }
}

proof fn steps_keep_inv<S, R>(run: PollRun<S, R>, events: Seq<PollEvent<S, R>>)
    requires
        run.inv(),
        run.allows_all(events),
    ensures
        run.steps(events).inv(),
    decreases events.len(),
{
    if events.len() > 0 {
        steps_keep_inv(run, events.drop_last());
        step_keeps_inv(run.steps(events.drop_last()), events.last());
    }
}

/// Every open stream that waited for data is flushed once, in the order in which they were taken,
/// before the driver goes on to send; and so is every open stream that had data to send, before
/// the driver goes on to open streams.
pub proof fn every_stream_is_flushed_once<S, R>(
    driver: DriverView<S, R>,
    draining: bool,
    events: Seq<PollEvent<S, R>>,
)
    requires
        PollRun::start(driver, draining).allows_all(events),
    ensures
        ({
            let run = PollRun::start(driver, draining).steps(events);
            &&& run.asked is IsDraining || sends(run.asked) ==> run.recv_flushed == run.recv_taken
            &&& run.asked is BidiLeft || run.asked is UniLeft ==> run.send_flushed
                == run.send_taken
        }),
{
    steps_keep_inv(PollRun::start(driver, draining), events);
}

/// Every stream that waited for data when the driver took them, and that was open, is flushed
/// before the driver goes on to send; every stream that had data to send, and that was open, is
/// flushed before the driver goes on to open streams. Only these are flushed, and each once.
pub proof fn taken_streams_are_flushed<S, R>(
    driver: DriverView<S, R>,
    draining: bool,
    events: Seq<PollEvent<S, R>>,
)
    requires
        PollRun::start(driver, draining).allows_all(events),
    ensures
        ({
            let run = PollRun::start(driver, draining).steps(events);
            &&& run.received() ==> run.recv_ids is Some && serves(
                run.recv_ids->0,
                run.recv_open,
                run.recv_flushed,
            )
            &&& run.sent() ==> run.send_ids is Some && serves(
                run.send_ids->0,
                run.send_open,
                run.send_flushed,
            )
        }),
{
    steps_keep_past(PollRun::start(driver, draining), events);
}

/// A poll of an established connection that ends without an error has done all there was to do: the
/// streams that waited for data were taken, and unless the connection was draining so were those
/// that had data to send, and the peer allows no further stream of either kind or none waits.
pub proof fn poll_does_everything<S, R>(
    driver: DriverView<S, R>,
    draining: bool,
    events: Seq<PollEvent<S, R>>,
)
    requires
        PollRun::start(driver, draining).allows_all(events),
        PollRun::start(driver, draining).steps(events).established,
        ({
            let asked = PollRun::start(driver, draining).steps(events).asked;
            asked is Return && !(asked->Return_0 matches Poll::Ready(Err(_)))
        }),
    ensures
        ({
            let run = PollRun::start(driver, draining).steps(events);
            &&& run.recv_ids is Some
            &&& !run.draining ==> {
                &&& run.send_ids is Some
                &&& !run.bi_allowed || run.bi_empty
                &&& !run.uni_allowed || run.uni_empty
            }
        }),
{
    steps_keep_past(PollRun::start(driver, draining), events);
}

/// The driver goes past the bidirectional streams that wait only if the peer allows none or none
/// waits any more; and it takes a stream to open it only if the peer allows one of its kind.
pub proof fn streams_are_opened_as_allowed<S, R>(
    driver: DriverView<S, R>,
    draining: bool,
    events: Seq<PollEvent<S, R>>,
)
    requires
        PollRun::start(driver, draining).allows_all(events),
    ensures
        ({
            let run = PollRun::start(driver, draining).steps(events);
            &&& run.opened_bi() ==> !run.bi_allowed || run.bi_empty
            &&& run.asked is NextBi || run.asked is OpenBi ==> run.bi_allowed
            &&& run.asked is NextUni || run.asked is OpenUni ==> run.uni_allowed
        }),
{
    steps_keep_past(PollRun::start(driver, draining), events);
}

/// Only open streams are flushed.
pub proof fn flushed_stream_is_open<S, R>(
    driver: DriverView<S, R>,
    draining: bool,
    events: Seq<PollEvent<S, R>>,
)
    requires
        PollRun::start(driver, draining).allows_all(events),
    ensures
        ({
            let run = PollRun::start(driver, draining).steps(events);
            &&& run.asked matches PollAction::FlushRecv(id) ==> run.driver.recv.contains_key(id)
            &&& run.asked matches PollAction::FlushSend(id) ==> run.driver.send.contains_key(id)
        }),
{
    steps_keep_inv(PollRun::start(driver, draining), events);
    let run = PollRun::start(driver, draining).steps(events);
    let work = run.driver.work;
    if let PollAction::FlushRecv(id) = run.asked {
        assert(work.push(id)[work.len() as int] == id);
    }
    if let PollAction::FlushSend(id) = run.asked {
        assert(work.push(id)[work.len() as int] == id);
    }
}

/// Nothing is sent, and no stream is opened, before the connection turned out to be neither
/// draining nor closed.
pub proof fn draining_connection_sends_nothing<S, R>(
    driver: DriverView<S, R>,
    draining: bool,
    events: Seq<PollEvent<S, R>>,
)
    requires
        PollRun::start(driver, draining).allows_all(events),
        sends(PollRun::start(driver, draining).steps(events).asked),
    ensures
        PollRun::start(driver, draining).steps(events).may_send,
{
    steps_keep_inv(PollRun::start(driver, draining), events);
}

/// Once the handshake is over, the driver waits exactly when no stream was flushed and none was
/// opened.
pub proof fn driver_waits_without_work<S, R>(
    driver: DriverView<S, R>,
    draining: bool,
    events: Seq<PollEvent<S, R>>,
)
    requires
        PollRun::start(driver, draining).allows_all(events),
        PollRun::start(driver, draining).steps(events).established,
    ensures
        ({
            let run = PollRun::start(driver, draining).steps(events);
            &&& run.asked == PollAction::Return(Poll::Pending) ==> !run.worked
            &&& run.asked matches PollAction::Return(Poll::Ready(Ok(_))) ==> run.worked
        }),
{
    steps_keep_inv(PollRun::start(driver, draining), events);
}

/// A driver never forgets a stream.
pub proof fn open_streams_stay_open<S, R>(
    driver: DriverView<S, R>,
    event: PollEvent<S, R>,
    read: ReadEvent<S, R>,
)
    ensures
        driver.send.dom().subset_of(driver.polled(event).0.send.dom()),
        driver.recv.dom().subset_of(driver.polled(event).0.recv.dom()),
        driver.send.dom().subset_of(driver.read(read).0.send.dom()),
        driver.recv.dom().subset_of(driver.read(read).0.recv.dom()),
{
}

/// A stream that the peer opens is announced once: from then on it is open, and what can be read
/// from it is flushed.
pub proof fn peer_stream_is_announced_once<S, R>(
    driver: DriverView<S, R>,
    id: u64,
    recv: R,
    later: DriverView<S, R>,
)
    requires
        !driver.recv.contains_key(id),
        ({
            let announced = driver.read(ReadEvent::Readable(Some(id))).0;
            announced.read(ReadEvent::NewRecv(Ok(recv))).0.recv.dom().subset_of(later.recv.dom())
        }),
    ensures
        driver.read(ReadEvent::Readable(Some(id))).1 == ReadAction::NewRecv(id),
        later.read(ReadEvent::Readable(Some(id))).1 == ReadAction::FlushRecv(id),
{
    let announced = driver.read(ReadEvent::Readable(Some(id))).0;
    assert(announced.read(ReadEvent::NewRecv(Ok(recv))).0.recv.dom().contains(id));
}

/// The runs that are spoken of here are those of [`Driver::poll`].
pub proof fn poll_takes_a_step<S, R>(
    driver: &mut Driver<S, R>,
    event: PollEvent<S, R>,
    action: PollAction,
    run: PollRun<S, R>,
)
    requires
        call_ensures(Driver::<S, R>::poll, (driver, event), action),
        run.driver == old(driver)@,
    ensures
        run.step(event).driver == final(driver)@,
        run.step(event).asked == action,
{
}

/// A new driver has no streams.
pub proof fn new_driver_has_no_streams<S, R>(
    driver: Driver<S, R>,
    id: u64,
    send: Option<&S>,
    recv: Option<&R>,
)
    requires
        call_ensures(Driver::<S, R>::new, (), driver),
        call_ensures(Driver::<S, R>::send, (&driver, id), send),
        call_ensures(Driver::<S, R>::recv, (&driver, id), recv),
    ensures
        send is None,
        recv is None,
{
}

/// A driver always acts: only a poll can tell whether there is work.
pub proof fn driver_always_acts<S, R>(driver: &Driver<S, R>, acts: bool)
    requires
        call_ensures(Driver::<S, R>::should_act, (driver,), acts),
    ensures
        acts,
{
}

/// A poll first asks whether the application wants to close the connection, unless the connection
/// is draining; then, and if it does not, whether the handshake is over. Before it is over, nothing
/// is done.
pub proof fn poll_begins_with_the_close<S, R>(
    driver: &mut Driver<S, R>,
    event: PollEvent<S, R>,
    action: PollAction,
)
    requires
        call_ensures(Driver::<S, R>::poll, (driver, event), action),
    ensures
        event == PollEvent::<S, R>::Start(false) ==> action == PollAction::PollLocal,
        event == PollEvent::<S, R>::Start(true) ==> action == PollAction::IsEstablished,
        event == PollEvent::<S, R>::Local(Poll::Pending) ==> action == PollAction::IsEstablished,
        event == PollEvent::<S, R>::Established(true) ==> action == PollAction::TakeRecv,
        event == PollEvent::<S, R>::Established(false) ==> {
            &&& action == PollAction::Return(Poll::Pending)
            &&& final(driver)@ == old(driver)@
        },
        event == PollEvent::<S, R>::Draining(false) ==> action == PollAction::TakeSend,
{
}

/// The error with which the application closes the connection is the one that the connection is
/// closed with, and the outcome of that is the outcome of the poll.
pub proof fn close_is_carried_out<S, R>(
    driver: &mut Driver<S, R>,
    err: ConnectionError,
    action: PollAction,
    later: &mut Driver<S, R>,
    outcome: Result<(), QuicheError>,
    end: PollAction,
)
    requires
        call_ensures(
            Driver::<S, R>::poll,
            (driver, PollEvent::<S, R>::Local(Poll::Ready(err))),
            action,
        ),
        call_ensures(
            Driver::<S, R>::poll,
            (later, PollEvent::<S, R>::Closed(outcome)),
            end,
        ),
    ensures
        action == PollAction::Close(err),
        end == PollAction::Return(
            Poll::Ready(
                match outcome {
                    Ok(_) => Ok(()),
                    Err(e) => Err(ConnectionError::Quiche(e)),
                },
            ),
        ),
{
}

/// Whether an event says that the connection failed, with the given error.
pub open spec fn fails_with<S, R>(event: PollEvent<S, R>, err: QuicheError) -> bool {
    ||| event == PollEvent::<S, R>::Closed(Err(err))
    ||| event == PollEvent::<S, R>::RecvFlushed(Err(err))
    ||| event == PollEvent::<S, R>::SendFlushed(Err(err))
    ||| event == PollEvent::<S, R>::BiOpened(Err(err))
    ||| event == PollEvent::<S, R>::BiSendFlushed(Err(err))
    ||| event == PollEvent::<S, R>::BiRecvFlushed(Err(err))
    ||| event == PollEvent::<S, R>::UniOpened(Err(err))
    ||| event == PollEvent::<S, R>::UniFlushed(Err(err))
}

/// An error of the connection ends a poll, and is the error that the poll ends with. A poll ends
/// with no other error. The open streams stay as they are.
pub proof fn failure_ends_the_poll<S, R>(
    driver: &mut Driver<S, R>,
    event: PollEvent<S, R>,
    action: PollAction,
    err: QuicheError,
)
    requires
        call_ensures(Driver::<S, R>::poll, (driver, event), action),
    ensures
        fails_with(event, err) <==> action == PollAction::Return(
            Poll::Ready(Err(ConnectionError::Quiche(err))),
        ),
        fails_with(event, err) ==> {
            &&& final(driver)@.send == old(driver)@.send
            &&& final(driver)@.recv == old(driver)@.recv
            &&& final(driver)@.opening_send is None
            &&& final(driver)@.opening_recv is None
        },
{
}

/// As long as the peer allows a stream the driver looks for one that waits, of the bidirectional
/// ones first; it goes on once the peer allows none, however many it allowed before, or once none
/// waits.
pub proof fn peer_allowance_is_used<S, R>(
    driver: &mut Driver<S, R>,
    event: PollEvent<S, R>,
    action: PollAction,
)
    requires
        call_ensures(Driver::<S, R>::poll, (driver, event), action),
    ensures
        event matches PollEvent::BidiLeft(left) ==> (action == PollAction::NextBi <==> left > 0),
        event matches PollEvent::UniLeft(left) ==> (action == PollAction::NextUni <==> left > 0),
        action == PollAction::UniLeft ==> {
            ||| event == PollEvent::<S, R>::BidiLeft(0)
            ||| event == PollEvent::<S, R>::NextBi(None)
            ||| event matches PollEvent::UniFlushed(Ok(_))
        },
        event == PollEvent::<S, R>::BidiLeft(0) || event == PollEvent::<S, R>::NextBi(None)
            ==> action == PollAction::UniLeft,
        event == PollEvent::<S, R>::UniLeft(0) || event == PollEvent::<S, R>::NextUni(None)
            ==> action is Return,
{
}

/// A bidirectional stream that waits is opened with its own identifier and both of its sides are
/// flushed; from then on the driver holds both, and the other streams are as before. After that the
/// driver asks again how many streams the peer allows.
pub proof fn given_bi_stream_is_opened<S, R>(
    given: &mut Driver<S, R>,
    id: StreamId,
    send: S,
    recv: R,
    open: PollAction,
    opened: &mut Driver<S, R>,
    n: usize,
    flush_send: PollAction,
    sent: &mut Driver<S, R>,
    flush_recv: PollAction,
    received: &mut Driver<S, R>,
    next: PollAction,
)
    requires
        call_ensures(
            Driver::<S, R>::poll,
            (given, PollEvent::NextBi(Some((id, send, recv)))),
            open,
        ),
        final(given)@ == old(opened)@,
        call_ensures(
            Driver::<S, R>::poll,
            (opened, PollEvent::<S, R>::BiOpened(Ok(n))),
            flush_send,
        ),
        final(opened)@ == old(sent)@,
        call_ensures(
            Driver::<S, R>::poll,
            (sent, PollEvent::<S, R>::BiSendFlushed(Ok(()))),
            flush_recv,
        ),
        final(sent)@ == old(received)@,
        call_ensures(
            Driver::<S, R>::poll,
            (received, PollEvent::<S, R>::BiRecvFlushed(Ok(()))),
            next,
        ),
    ensures
        open == PollAction::OpenBi(id.0),
        flush_send == PollAction::FlushBiSend,
        old(sent)@.opening_send == Some(send),
        flush_recv == PollAction::FlushBiRecv,
        old(received)@.opening_recv == Some(recv),
        next == PollAction::BidiLeft,
        final(received)@.send == old(given)@.send.insert(id.0, send),
        final(received)@.recv == old(given)@.recv.insert(id.0, recv),
{
}

/// A unidirectional stream that waits is opened with its own identifier and its sending side is
/// flushed; from then on the driver holds it, and the other streams are as before. After that the
/// driver asks again how many streams the peer allows.
pub proof fn given_uni_stream_is_opened<S, R>(
    given: &mut Driver<S, R>,
    id: StreamId,
    send: S,
    open: PollAction,
    opened: &mut Driver<S, R>,
    n: usize,
    flush_send: PollAction,
    sent: &mut Driver<S, R>,
    next: PollAction,
)
    requires
        call_ensures(
            Driver::<S, R>::poll,
            (given, PollEvent::<S, R>::NextUni(Some((id, send)))),
            open,
        ),
        final(given)@ == old(opened)@,
        call_ensures(
            Driver::<S, R>::poll,
            (opened, PollEvent::<S, R>::UniOpened(Ok(n))),
            flush_send,
        ),
        final(opened)@ == old(sent)@,
        call_ensures(
            Driver::<S, R>::poll,
            (sent, PollEvent::<S, R>::UniFlushed(Ok(()))),
            next,
        ),
    ensures
        open == PollAction::OpenUni(id.0),
        flush_send == PollAction::FlushUni,
        old(sent)@.opening_send == Some(send),
        next == PollAction::UniLeft,
        final(sent)@.send == old(given)@.send.insert(id.0, send),
        final(sent)@.recv == old(given)@.recv,
{
}

/// The streams that a driver holds are those that it gives out, and the stream that is being opened
/// is the one that was given.
pub proof fn held_stream_is_given_out<S, R>(
    driver: Driver<S, R>,
    id: u64,
    send: Option<&S>,
    recv: Option<&R>,
    opening_send: Option<&S>,
    opening_recv: Option<&R>,
)
    requires
        call_ensures(Driver::<S, R>::send, (&driver, id), send),
        call_ensures(Driver::<S, R>::recv, (&driver, id), recv),
        call_ensures(Driver::<S, R>::opening_send, (&driver,), opening_send),
        call_ensures(Driver::<S, R>::opening_recv, (&driver,), opening_recv),
    ensures
        send is Some <==> driver@.send.contains_key(id),
        send matches Some(side) ==> *side == driver@.send[id],
        recv is Some <==> driver@.recv.contains_key(id),
        recv matches Some(side) ==> *side == driver@.recv[id],
        opening_send is Some <==> driver@.opening_send is Some,
        opening_send matches Some(side) ==> driver@.opening_send == Some(*side),
        opening_recv is Some <==> driver@.opening_recv is Some,
        opening_recv matches Some(side) ==> driver@.opening_recv == Some(*side),
{
}

/// A stream that the peer opens is made known with the kind that its identifier says, whichever
/// side opened it: a bidirectional one with both of its sides, a unidirectional one with its
/// receiving side alone. The driver holds what it made known, and the other streams are as before.
pub proof fn peer_stream_is_accepted_as_its_kind<S, R>(
    readable: &mut Driver<S, R>,
    id: u64,
    made: ReadAction,
    received: &mut Driver<S, R>,
    recv: R,
    next: ReadAction,
    sent: &mut Driver<S, R>,
    send: S,
    accept: ReadAction,
)
    requires
        !old(readable)@.recv.contains_key(id),
        call_ensures(
            Driver::<S, R>::read,
            (readable, ReadEvent::<S, R>::Readable(Some(id))),
            made,
        ),
        final(readable)@ == old(received)@,
        call_ensures(
            Driver::<S, R>::read,
            (received, ReadEvent::<S, R>::NewRecv(Ok(recv))),
            next,
        ),
        final(received)@ == old(sent)@,
        call_ensures(
            Driver::<S, R>::read,
            (sent, ReadEvent::<S, R>::NewSend(Ok(send))),
            accept,
        ),
    ensures
        made == ReadAction::NewRecv(id),
        id % 4 == 0 || id % 4 == 1 ==> {
            &&& next == ReadAction::NewSend(id)
            &&& accept == ReadAction::AcceptBi(id)
        },
        id % 4 == 2 || id % 4 == 3 ==> next == ReadAction::AcceptUni(id),
        final(received)@.recv == old(readable)@.recv.insert(id, recv),
        final(received)@.send == old(readable)@.send,
        final(sent)@.recv == final(received)@.recv,
        final(sent)@.send == old(readable)@.send.insert(id, send),
{
}

/// Whether an event says that the connection failed while the driver read, with the given error.
pub open spec fn read_fails_with<S, R>(event: ReadEvent<S, R>, err: QuicheError) -> bool {
    ||| event == ReadEvent::<S, R>::Flushed(Err(err))
    ||| event == ReadEvent::<S, R>::NewRecv(Err(err))
    ||| event == ReadEvent::<S, R>::NewSend(Err(err))
}

/// Every stream that has something to read is served: one that is open is flushed, and after each
/// stream the driver looks for the next, until there is none. The reading ends early only if the
/// connection fails, with its error, or if nobody accepts a stream any more.
pub proof fn every_readable_stream_is_served<S, R>(
    driver: &mut Driver<S, R>,
    event: ReadEvent<S, R>,
    action: ReadAction,
    id: u64,
    err: QuicheError,
)
    requires
        call_ensures(Driver::<S, R>::read, (driver, event), action),
    ensures
        event == ReadEvent::<S, R>::Readable(Some(id)) && old(driver)@.recv.contains_key(id) ==> {
            &&& action == ReadAction::FlushRecv(id)
            &&& final(driver)@ == old(driver)@
        },
        event == ReadEvent::<S, R>::Start || event matches ReadEvent::Flushed(Ok(_)) || event
            == ReadEvent::<S, R>::Accepted(true) <==> action == ReadAction::NextReadable,
        event == ReadEvent::<S, R>::Readable(None) <==> action == ReadAction::Return(Ok(())),
        event == ReadEvent::<S, R>::Accepted(false) <==> action == ReadAction::Return(
            Err(ConnectionError::Dropped),
        ),
        read_fails_with(event, err) <==> action == ReadAction::Return(
            Err(ConnectionError::Quiche(err)),
        ),
{
}

/// Every stream that can be written to is flushed: after each the driver looks for the next, until
/// there is none. A stream that is not open is an error, with its identifier, and so is a failure
/// of the connection.
pub proof fn every_writable_stream_is_served<S, R>(
    driver: &Driver<S, R>,
    event: WriteEvent,
    action: WriteAction,
    id: u64,
    err: QuicheError,
)
    requires
        call_ensures(Driver::<S, R>::write, (driver, event), action),
    ensures
        event == WriteEvent::Writable(Some(id)) && driver@.send.contains_key(id) <==> action
            == WriteAction::FlushSend(id),
        event == WriteEvent::Start || event matches WriteEvent::Flushed(Ok(_)) <==> action
            == WriteAction::NextWritable,
        event == WriteEvent::Writable(None) <==> action == WriteAction::Return(Ok(())),
        event == WriteEvent::Writable(Some(id)) && !driver@.send.contains_key(id) ==> action
            == WriteAction::Return(
            Err(ConnectionError::Quiche(QuicheError::InvalidStreamState(id))),
        ),
        event == WriteEvent::Flushed(Err(err)) ==> action == WriteAction::Return(
            Err(ConnectionError::Quiche(err)),
        ),
{
}

} // verus!
