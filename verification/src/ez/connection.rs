//! How a connection ends, who waits for it, and which streams it opens.

use std::task::Waker;
use vstd::prelude::*;

use super::error::{ConnectionError, QuicheError};
use super::opening::{Opening, OpeningView};
use super::recv::{RecvState, RecvStream, RecvView};
use super::send::{SendState, SendStream, SendView};
use super::stream::StreamId;
use super::wakeup::{DriverWakeup, WakeupView};
use crate::task::Poll;

verus! {

/// The end of a connection, as one side sees it: the error, once there is one, and the tasks that
/// wait for it until then.
pub struct ConnectionClosed {
    err: Option<ConnectionError>,
    wakers: Vec<Waker>,
}

/// What a [`ConnectionClosed`] holds.
#[verifier::ext_equal]
pub ghost struct ClosedView {
    pub err: Option<ConnectionError>,
    pub wakers: Seq<Waker>,
}

impl ClosedView {
    /// No error yet, and nobody waits.
    pub open spec fn open() -> ClosedView {
        ClosedView { err: None, wakers: Seq::empty() }
    }

    /// What an error leaves behind, and the wakers to call. Only the first error counts.
    pub open spec fn aborted(self, err: ConnectionError) -> (ClosedView, Seq<Waker>) {
        match self.err {
            Some(_) => (self, Seq::empty()),
            None => (ClosedView { err: Some(err), wakers: Seq::empty() }, self.wakers),
        }
    }

    /// What a poll leaves behind, and what it gives.
    pub open spec fn polled(self, waker: Waker) -> (ClosedView, Poll<ConnectionError>) {
        match self.err {
            Some(err) => (self, Poll::Ready(err)),
            None => (ClosedView { wakers: self.wakers.push(waker), ..self }, Poll::Pending),
        }
    }
}

impl View for ConnectionClosed {
    type V = ClosedView;

    closed spec fn view(&self) -> ClosedView {
        ClosedView { err: self.err, wakers: self.wakers@ }
    }
}

impl Default for ConnectionClosed {
    /// Open, and nobody waits.
    fn default() -> (r: ConnectionClosed)
        ensures
            r@ == ClosedView::open(),
    {
        ConnectionClosed { err: None, wakers: Vec::new() }
    }
}

impl ConnectionClosed {
    /// Records the error unless there is one already, and returns the wakers that waited for it.
    pub fn abort(&mut self, err: ConnectionError) -> (r: Vec<Waker>)
        ensures
            (final(self)@, r@) == old(self)@.aborted(err),
    {
        if self.err.is_some() {
            return Vec::new();
        }
        self.err = Some(err);
        let mut wakers: Vec<Waker> = Vec::new();
        std::mem::swap(&mut wakers, &mut self.wakers);
        wakers
    }

    /// The error, once there is one. Until then the waker is kept, to be woken by
    /// [`ConnectionClosed::abort`].
    pub fn poll(&mut self, waker: Waker) -> (r: Poll<ConnectionError>)
        ensures
            (final(self)@, r) == old(self)@.polled(waker),
    {
        match &self.err {
            Some(err) => Poll::Ready(err.clone()),
            None => {
                self.wakers.push(waker);
                Poll::Pending
            },
        }
    }

    /// The error, if there is one.
    pub fn error(&self) -> (r: Option<ConnectionError>)
        ensures
            r == self@.err,
    {
        match &self.err {
            Some(err) => Some(err.clone()),
            None => None,
        }
    }

    /// Whether there is an error.
    pub fn is_closed(&self) -> (r: bool)
        ensures
            r == (self@.err is Some),
    {
        self.err.is_some()
    }
}

/// One more than the largest identifier that a stream can have.
pub const STREAM_ID_LIMIT: u64 = 0x4000_0000_0000_0000;

/// The state that the driver shares with the handles of a connection and of its streams.
pub struct DriverState {
    send: DriverWakeup,
    recv: DriverWakeup,
    local: ConnectionClosed,
    remote: ConnectionClosed,
    bi: Opening,
    uni: Opening,
}

/// What a [`DriverState`] holds.
#[verifier::ext_equal]
pub ghost struct DriverStateView {
    /// The streams that have data to send.
    pub send: WakeupView,
    /// The streams that wait for data.
    pub recv: WakeupView,
    /// How the application ended the connection.
    pub local: ClosedView,
    /// How the connection ended once it was done.
    pub remote: ClosedView,
    /// The bidirectional streams that the application opens.
    pub bi: OpeningView,
    /// The unidirectional streams that the application opens.
    pub uni: OpeningView,
}

impl View for DriverState {
    type V = DriverStateView;

    closed spec fn view(&self) -> DriverStateView {
        DriverStateView {
            send: self.send@,
            recv: self.recv@,
            local: self.local@,
            remote: self.remote@,
            bi: self.bi@,
            uni: self.uni@,
        }
    }
}

impl DriverStateView {
    /// The error that stops a new stream: that of the application first, then that of the end.
    pub open spec fn error(self) -> Option<ConnectionError> {
        match self.local.err {
            Some(err) => Some(err),
            None => self.remote.err,
        }
    }

    /// The streams of a kind that the application opens.
    pub open spec fn opening(self, bi: bool) -> OpeningView {
        if bi {
            self.bi
        } else {
            self.uni
        }
    }

    /// The state with other streams of a kind that the application opens.
    pub open spec fn with_opening(self, bi: bool, opening: OpeningView) -> DriverStateView {
        if bi {
            DriverStateView { bi: opening, ..self }
        } else {
            DriverStateView { uni: opening, ..self }
        }
    }

    /// Opens a stream of a kind: the state afterwards, and the waker to call with the identifier of
    /// the stream. A connection that is closed opens no stream, nor does one that has no identifier
    /// left; as long as the peer does not allow the stream, the task waits.
    pub open spec fn opened(self, bi: bool, waker: Waker) -> (
        DriverStateView,
        Poll<Result<(Option<Waker>, StreamId), ConnectionError>>,
    ) {
        let opening = self.opening(bi);
        let id = opening.next;
        match self.error() {
            Some(err) => (self, Poll::Ready(Err(err))),
            None => if id >= STREAM_ID_LIMIT {
                (self, Poll::Ready(Err(ConnectionError::Quiche(QuicheError::StreamLimit))))
            } else if !opening.allows() {
                (self.with_opening(bi, opening.blocked(waker)), Poll::Pending)
            } else {
                let (send, wake) = self.send.woken(id);
                (
                    DriverStateView { send, ..self }.with_opening(bi, opening.opened()),
                    Poll::Ready(Ok((wake, StreamId(id)))),
                )
            },
        }
    }

    /// The driver was told how many streams of a kind the peer allows: the state afterwards, and
    /// the tasks to wake.
    pub open spec fn allowed(self, bi: bool, left: u64) -> (DriverStateView, Seq<Waker>) {
        let (opening, wakers) = self.opening(bi).allowed(left);
        (self.with_opening(bi, opening), wakers)
    }

    /// The driver opens a stream of a kind that waited for it.
    pub open spec fn taken(self, bi: bool) -> DriverStateView {
        self.with_opening(bi, self.opening(bi).taken())
    }

    /// Nobody waits for a stream any more: the state afterwards, and the tasks to wake.
    pub open spec fn released(self) -> (DriverStateView, Seq<Waker>) {
        let (bi, bi_wakers) = self.bi.released();
        let (uni, uni_wakers) = self.uni.released();
        (DriverStateView { bi, uni, ..self }, bi_wakers + uni_wakers)
    }

    /// The application closes the connection: the state afterwards, and the tasks to wake, those
    /// that wait for a stream included. Only the first close counts.
    pub open spec fn shut(self, err: ConnectionError) -> (DriverStateView, Seq<Waker>) {
        let (local, wakers) = self.local.aborted(err);
        let (next, waiting) = DriverStateView { local, ..self }.released();
        (next, wakers + waiting)
    }

    /// The connection is done: the state afterwards, and the tasks to wake, those that wait for a
    /// stream included. Only the first end counts.
    pub open spec fn finished(self, err: ConnectionError) -> (DriverStateView, Seq<Waker>) {
        let (remote, wakers) = self.remote.aborted(err);
        let (next, waiting) = DriverStateView { remote, ..self }.released();
        (next, wakers + waiting)
    }

    /// The state after a stream that has data to send was recorded, and the waker to call.
    pub open spec fn send_woken(self, id: StreamId) -> (DriverStateView, Option<Waker>) {
        let (send, waker) = self.send.woken(id.0);
        (DriverStateView { send, ..self }, waker)
    }

    /// The state after a stream that waits for data was recorded, and the waker to call.
    pub open spec fn recv_woken(self, id: StreamId) -> (DriverStateView, Option<Waker>) {
        let (recv, waker) = self.recv.woken(id.0);
        (DriverStateView { recv, ..self }, waker)
    }

    /// Which identifiers come next: below the limit, one step apart at the most, and of the kind
    /// and the side that they stand for. Nobody waits for a stream of a connection that is closed.
    pub open spec fn wf(self, server: bool) -> bool {
        let side = if server { 1int } else { 0int };
        &&& self.bi.next <= STREAM_ID_LIMIT + 3
        &&& self.uni.next <= STREAM_ID_LIMIT + 3
        &&& self.bi.next % 4 == side
        &&& self.uni.next % 4 == 2 + side
        &&& self.error() is Some ==> self.bi.wakers.len() == 0 && self.uni.wakers.len() == 0
    }
}

impl DriverState {
    /// The state of a connection that was just made, as a server or as a client.
    pub fn new(server: bool) -> (r: DriverState)
        ensures
            r@.send == (WakeupView { streams: Set::empty(), waker: None }),
            r@.recv == (WakeupView { streams: Set::empty(), waker: None }),
            r@.local == ClosedView::open(),
            r@.remote == ClosedView::open(),
            r@.bi == OpeningView::new(if server { 1 } else { 0 }),
            r@.uni == OpeningView::new(if server { 3 } else { 2 }),
            r@.wf(server),
    {
        DriverState {
            send: DriverWakeup::default(),
            recv: DriverWakeup::default(),
            local: ConnectionClosed::default(),
            remote: ConnectionClosed::default(),
            bi: Opening::new(if server { 1 } else { 0 }),
            uni: Opening::new(if server { 3 } else { 2 }),
        }
    }

    /// Returns all tasks that wait for a stream, which are to be woken.
    fn release(&mut self) -> (r: Vec<Waker>)
        ensures
            (final(self)@, r@) == old(self)@.released(),
    {
        let mut wakers = self.bi.release();
        let mut uni = self.uni.release();
        wakers.append(&mut uni);
        wakers
    }

    /// Records that the application closes the connection, and returns the wakers that waited for
    /// that or for a stream. Only the first close counts.
    pub fn close(&mut self, err: ConnectionError) -> (r: Vec<Waker>)
        ensures
            (final(self)@, r@) == old(self)@.shut(err),
    {
        let mut wakers = self.local.abort(err);
        let mut waiting = self.release();
        wakers.append(&mut waiting);
        wakers
    }

    /// Closes the connection with the error of a step of the driver, if it failed, and returns the
    /// wakers that waited for that or for a stream.
    pub fn abort_on_error(&mut self, res: Result<(), ConnectionError>) -> (r: Vec<Waker>)
        ensures
            (final(self)@, r@) == match res {
                Ok(_) => (old(self)@, Seq::<Waker>::empty()),
                Err(err) => old(self)@.shut(err),
            },
    {
        match res {
            Ok(_) => Vec::new(),
            Err(err) => self.close(err),
        }
    }

    /// Whether the application has closed the connection; until then the driver waits for it.
    pub fn poll_local(&mut self, waker: Waker) -> (r: Poll<ConnectionError>)
        ensures
            (final(self)@, r) == ({
                let (local, poll) = old(self)@.local.polled(waker);
                (DriverStateView { local, ..old(self)@ }, poll)
            }),
    {
        self.local.poll(waker)
    }

    /// Records how the connection ended, once it is done, and returns the wakers that waited for
    /// that or for a stream. Only the first end counts.
    pub fn finish(&mut self, err: ConnectionError) -> (r: Vec<Waker>)
        ensures
            (final(self)@, r@) == old(self)@.finished(err),
    {
        let mut wakers = self.remote.abort(err);
        let mut waiting = self.release();
        wakers.append(&mut waiting);
        wakers
    }

    /// How the connection ended. A close by the application alone does not end it: this waits
    /// until the connection is done.
    pub fn closed(&mut self, waker: Waker) -> (r: Poll<ConnectionError>)
        ensures
            (final(self)@, r) == ({
                let (remote, poll) = old(self)@.remote.polled(waker);
                (DriverStateView { remote, ..old(self)@ }, poll)
            }),
    {
        self.remote.poll(waker)
    }

    /// Whether the connection was closed by either side, a close by the application included.
    pub fn is_closed(&self) -> (r: bool)
        ensures
            r == (self@.error() is Some),
    {
        self.local.is_closed() || self.remote.is_closed()
    }

    /// The error of the connection, if it is closed.
    fn error(&self) -> (r: Option<ConnectionError>)
        ensures
            r == self@.error(),
    {
        match self.local.error() {
            Some(err) => Some(err),
            None => self.remote.error(),
        }
    }

    /// Takes the identifier of the next bidirectional stream once the peer allows the stream, and
    /// returns it with the waker of the driver, which opens the stream. Until then the task is kept.
    /// A connection that is closed opens no stream, nor does one that has no identifier left.
    pub fn open_bi(&mut self, waker: Waker) -> (r: Poll<
        Result<(Option<Waker>, StreamId), ConnectionError>,
    >)
        ensures
            (final(self)@, r) == old(self)@.opened(true, waker),
    {
        if let Some(err) = self.error() {
            return Poll::Ready(Err(err));
        }
        let id: u64 = self.bi.next();
        if id >= STREAM_ID_LIMIT {
            return Poll::Ready(Err(ConnectionError::Quiche(QuicheError::StreamLimit)));
        }
        if !self.bi.allows() {
            self.bi.block(waker);
            return Poll::Pending;
        }
        self.bi.open();
        let wake = self.send.waker(id);
        Poll::Ready(Ok((wake, StreamId(id))))
    }

    /// Records how many bidirectional streams the peer allows, and returns the tasks to wake,
    /// which wait for one.
    pub fn allow_bi(&mut self, left: u64) -> (r: Vec<Waker>)
        ensures
            (final(self)@, r@) == old(self)@.allowed(true, left),
    {
        self.bi.allow(left)
    }

    /// Records that the driver opens a bidirectional stream that the application was given.
    pub fn take_bi(&mut self)
        ensures
            final(self)@ == old(self)@.taken(true),
    {
        self.bi.take()
    }

    /// Takes the identifier of the next unidirectional stream, as [`DriverState::open_bi`] does
    /// for a bidirectional one.
    pub fn open_uni(&mut self, waker: Waker) -> (r: Poll<
        Result<(Option<Waker>, StreamId), ConnectionError>,
    >)
        ensures
            (final(self)@, r) == old(self)@.opened(false, waker),
    {
        if let Some(err) = self.error() {
            return Poll::Ready(Err(err));
        }
        let id: u64 = self.uni.next();
        if id >= STREAM_ID_LIMIT {
            return Poll::Ready(Err(ConnectionError::Quiche(QuicheError::StreamLimit)));
        }
        if !self.uni.allows() {
            self.uni.block(waker);
            return Poll::Pending;
        }
        self.uni.open();
        let wake = self.send.waker(id);
        Poll::Ready(Ok((wake, StreamId(id))))
    }

    /// Records how many unidirectional streams the peer allows, and returns the tasks to wake,
    /// which wait for one.
    pub fn allow_uni(&mut self, left: u64) -> (r: Vec<Waker>)
        ensures
            (final(self)@, r@) == old(self)@.allowed(false, left),
    {
        self.uni.allow(left)
    }

    /// Records that the driver opens a unidirectional stream that the application was given.
    pub fn take_uni(&mut self)
        ensures
            final(self)@ == old(self)@.taken(false),
    {
        self.uni.take()
    }

    /// Records that a stream has data to send, and returns the waker of the driver if it has to be
    /// woken for it.
    pub fn wake_send(&mut self, stream_id: StreamId) -> (r: Option<Waker>)
        ensures
            (final(self)@, r) == old(self)@.send_woken(stream_id),
    {
        self.send.waker(stream_id.0)
    }

    /// Records that a stream waits for data, and returns the waker of the driver if it has to be
    /// woken for it.
    pub fn wake_recv(&mut self, stream_id: StreamId) -> (r: Option<Waker>)
        ensures
            (final(self)@, r) == old(self)@.recv_woken(stream_id),
    {
        self.recv.waker(stream_id.0)
    }

    /// Registers the waker of the driver and hands it the streams that have data to send.
    pub fn take_send(&mut self, waker: Waker) -> (r: Vec<u64>)
        ensures
            r@.no_duplicates(),
            r@.to_set() == old(self)@.send.streams,
            final(self)@ == (DriverStateView {
                send: WakeupView { streams: Set::empty(), waker: Some(waker) },
                ..old(self)@
            }),
    {
        self.send.register(waker)
    }

    /// Registers the waker of the driver and hands it the streams that wait for data.
    pub fn take_recv(&mut self, waker: Waker) -> (r: Vec<u64>)
        ensures
            r@.no_duplicates(),
            r@.to_set() == old(self)@.recv.streams,
            final(self)@ == (DriverStateView {
                recv: WakeupView { streams: Set::empty(), waker: Some(waker) },
                ..old(self)@
            }),
    {
        self.recv.register(waker)
    }
}

/// What happens to the state of a connection.
pub ghost enum ConnectionStep {
    /// The application opens a stream, bidirectional or not.
    Open(bool, Waker),
    /// The driver learns how many streams, bidirectional or not, the peer allows.
    Allow(bool, u64),
    /// The driver opens a stream, bidirectional or not.
    Take(bool),
    /// The application closes the connection, or a step of the driver fails.
    Close(ConnectionError),
    /// The connection is done.
    Finish(ConnectionError),
    /// The driver waits for the close.
    PollLocal(Waker),
    /// The application waits for the end.
    PollClosed(Waker),
    /// A stream has data to send.
    WakeSend(StreamId),
    /// A stream waits for data.
    WakeRecv(StreamId),
    /// The driver takes the streams that have data to send.
    TakeSend(Waker),
    /// The driver takes the streams that wait for data.
    TakeRecv(Waker),
}

impl DriverStateView {
    /// One step: the state afterwards, the tasks to wake, and the stream that was opened.
    pub open spec fn step(self, step: ConnectionStep) -> (
        DriverStateView,
        Seq<Waker>,
        Option<StreamId>,
    ) {
        let none = Seq::<Waker>::empty();
        match step {
            ConnectionStep::Open(bi, waker) => match self.opened(bi, waker) {
                (next, Poll::Ready(Ok((wake, id)))) => (next, one(wake), Some(id)),
                (next, _) => (next, none, None),
            },
            ConnectionStep::Allow(bi, left) => {
                let (next, wakers) = self.allowed(bi, left);
                (next, wakers, None)
            },
            ConnectionStep::Take(bi) => (self.taken(bi), none, None),
            ConnectionStep::Close(err) => {
                let (next, wakers) = self.shut(err);
                (next, wakers, None)
            },
            ConnectionStep::Finish(err) => {
                let (next, wakers) = self.finished(err);
                (next, wakers, None)
            },
            ConnectionStep::PollLocal(waker) => (
                DriverStateView { local: self.local.polled(waker).0, ..self },
                none,
                None,
            ),
            ConnectionStep::PollClosed(waker) => (
                DriverStateView { remote: self.remote.polled(waker).0, ..self },
                none,
                None,
            ),
            ConnectionStep::WakeSend(id) => {
                let (next, wake) = self.send_woken(id);
                (next, one(wake), None)
            },
            ConnectionStep::WakeRecv(id) => {
                let (next, wake) = self.recv_woken(id);
                (next, one(wake), None)
            },
            ConnectionStep::TakeSend(waker) => (
                DriverStateView {
                    send: WakeupView { streams: Set::empty(), waker: Some(waker) },
                    ..self
                },
                none,
                None,
            ),
            ConnectionStep::TakeRecv(waker) => (
                DriverStateView {
                    recv: WakeupView { streams: Set::empty(), waker: Some(waker) },
                    ..self
                },
                none,
                None,
            ),
        }
    }

    /// The state after some steps, one after the other, and the streams that were opened.
    pub open spec fn steps(self, steps: Seq<ConnectionStep>) -> (DriverStateView, Seq<StreamId>)
        decreases steps.len(),
    {
        if steps.len() == 0 {
            (self, Seq::empty())
        } else {
            let (before, streams) = self.steps(steps.drop_last());
            match before.step(steps.last()) {
                (next, _, Some(id)) => (next, streams.push(id)),
                (next, _, None) => (next, streams),
            }
        }
    }

    /// Whether a stream is of its side, and was opened between this state and a later one.
    pub open spec fn gave(self, server: bool, later: DriverStateView, id: StreamId) -> bool {
        &&& id.0 % 2 == (if server { 1int } else { 0int })
        &&& self.opening(id.bi()).next <= id.0 < later.opening(id.bi()).next
        &&& id.0 < STREAM_ID_LIMIT
    }
}

/// The waker of the driver, if it is to be called.
pub open spec fn one(waker: Option<Waker>) -> Seq<Waker> {
    match waker {
        Some(waker) => seq![waker],
        None => Seq::empty(),
    }
}

proof fn kind_is_kept(id: int)
    ensures
        (id + 4) % 4 == id % 4,
        id % 4 == 0 || id % 4 == 2 ==> id % 2 == 0,
        id % 4 == 1 || id % 4 == 3 ==> id % 2 == 1,
{
}

proof fn open_has_its_kind(state: DriverStateView, server: bool, bi: bool, waker: Waker)
    requires
        state.wf(server),
    ensures
        ({
            let (next, res) = state.opened(bi, waker);
            &&& next.wf(server)
            &&& state.bi.next <= next.bi.next
            &&& state.uni.next <= next.uni.next
            &&& res matches Poll::Ready(Ok((_, id))) ==> id.bi() == bi && state.gave(
                server,
                next,
                id,
            )
        }),
{
    let id = state.opening(bi).next;
    kind_is_kept(id as int);
    let (next, res) = state.opened(bi, waker);
    if let Poll::Ready(Ok((_, opened))) = res {
        assert(opened == StreamId(id));
        assert(next.opening(bi).next == id + 4);
        if bi {
            assert(next.uni == state.uni);
        } else {
            assert(next.bi == state.bi);
        }
    } else {
        assert(next.bi.next == state.bi.next && next.uni.next == state.uni.next);
    }
}

/// A stream that is opened has an identifier of its kind and of the side that opens it, and no step
/// takes an identifier back.
pub proof fn opened_stream_has_its_kind(state: DriverStateView, server: bool, step: ConnectionStep)
    requires
        state.wf(server),
    ensures
        ({
            let (next, _, stream) = state.step(step);
            &&& next.wf(server)
            &&& state.bi.next <= next.bi.next
            &&& state.uni.next <= next.uni.next
            &&& stream matches Some(id) ==> {
                &&& step matches ConnectionStep::Open(bi, _) && id.bi() == bi
                &&& state.gave(server, next, id)
            }
        }),
{
    if let ConnectionStep::Open(bi, waker) = step {
        open_has_its_kind(state, server, bi, waker);
    }
}

proof fn streams_were_given(state: DriverStateView, server: bool, steps: Seq<ConnectionStep>)
    requires
        state.wf(server),
    ensures
        ({
            let (next, streams) = state.steps(steps);
            &&& next.wf(server)
            &&& state.bi.next <= next.bi.next
            &&& state.uni.next <= next.uni.next
            &&& forall|i: int|
                0 <= i < streams.len() ==> state.gave(server, next, #[trigger] streams[i])
        }),
    decreases steps.len(),
{
    if steps.len() > 0 {
        streams_were_given(state, server, steps.drop_last());
        let (before, streams) = state.steps(steps.drop_last());
        let (next, all) = state.steps(steps);
        opened_stream_has_its_kind(before, server, steps.last());
        assert forall|i: int| 0 <= i < all.len() implies state.gave(
            server,
            next,
            #[trigger] all[i],
        ) by {
            if i < streams.len() {
                assert(all[i] == streams[i]);
            }
        }
    }
}

/// No two streams that are opened on a connection have the same identifier, whatever happens to the
/// connection in between.
pub proof fn opened_streams_differ(
    state: DriverStateView,
    server: bool,
    steps: Seq<ConnectionStep>,
)
    requires
        state.wf(server),
    ensures
        state.steps(steps).1.no_duplicates(),
    decreases steps.len(),
{
    if steps.len() > 0 {
        opened_streams_differ(state, server, steps.drop_last());
        streams_were_given(state, server, steps.drop_last());
        let (before, streams) = state.steps(steps.drop_last());
        let all = state.steps(steps).1;
        opened_stream_has_its_kind(before, server, steps.last());
        assert forall|i: int, j: int| 0 <= i < j < all.len() implies all[i] != all[j] by {
            assert(all[i] == streams[i]);
            if j < streams.len() {
                assert(all[j] == streams[j]);
            }
        }
    }
}

/// How many streams of a kind there are in a list.
pub open spec fn count_kind(streams: Seq<StreamId>, bi: bool) -> nat
    decreases streams.len(),
{
    if streams.len() == 0 {
        0
    } else {
        count_kind(streams.drop_last(), bi) + if streams.last().bi() == bi {
            1nat
        } else {
            0
        }
    }
}

/// How many streams of a kind the driver opens in some steps.
pub open spec fn count_taken(steps: Seq<ConnectionStep>, bi: bool) -> nat
    decreases steps.len(),
{
    if steps.len() == 0 {
        0
    } else {
        count_taken(steps.drop_last(), bi) + if steps.last() == ConnectionStep::Take(bi) {
            1nat
        } else {
            0
        }
    }
}

/// Whether the driver opens streams of a kind as a peer allows it that allows `limit` of them in
/// all: it learns of no more than are left of these, and opens none that it was not given or that
/// it was not allowed.
pub open spec fn keeps_to_limit(
    state: DriverStateView,
    steps: Seq<ConnectionStep>,
    bi: bool,
    limit: nat,
) -> bool
    decreases steps.len(),
{
    steps.len() > 0 ==> {
        let before = state.steps(steps.drop_last()).0.opening(bi);
        &&& keeps_to_limit(state, steps.drop_last(), bi, limit)
        &&& match steps.last() {
            ConnectionStep::Allow(kind, left) => kind == bi ==> count_taken(steps.drop_last(), bi)
                + left <= limit,
            ConnectionStep::Take(kind) => kind == bi ==> before.queued > 0 && before.left > 0,
            _ => true,
        }
    }
}

proof fn limit_is_kept(
    state: DriverStateView,
    server: bool,
    steps: Seq<ConnectionStep>,
    bi: bool,
    limit: nat,
)
    requires
        state.wf(server),
        state.opening(bi).left == 0,
        state.opening(bi).queued == 0,
        keeps_to_limit(state, steps, bi, limit),
    ensures
        ({
            let (next, streams) = state.steps(steps);
            let taken = count_taken(steps, bi);
            &&& taken + next.opening(bi).left <= limit
            &&& count_kind(streams, bi) == taken + next.opening(bi).queued
            &&& count_kind(streams, bi) <= limit
        }),
    decreases steps.len(),
{
    if steps.len() > 0 {
        limit_is_kept(state, server, steps.drop_last(), bi, limit);
        streams_were_given(state, server, steps.drop_last());
        let (before, streams) = state.steps(steps.drop_last());
        opened_stream_has_its_kind(before, server, steps.last());
        if let Some(id) = before.step(steps.last()).2 {
            assert(streams.push(id).drop_last() =~= streams);
        }
    }
}

/// A new connection opens no more streams of a kind than the peer allows, whatever happens to the
/// connection in between.
pub proof fn peer_allows_every_stream(
    state: DriverStateView,
    server: bool,
    steps: Seq<ConnectionStep>,
    bi: bool,
    limit: nat,
)
    requires
        state.wf(server),
        state.opening(bi).left == 0,
        state.opening(bi).queued == 0,
        keeps_to_limit(state, steps, bi, limit),
    ensures
        count_kind(state.steps(steps).1, bi) <= limit,
{
    limit_is_kept(state, server, steps, bi, limit);
}

/// A task that has to wait for a stream is kept, and whatever happens it either waits on or is
/// woken. It is woken as soon as the driver learns that the peer allows a stream, and when the
/// connection is closed or done.
pub proof fn waiting_opener_is_woken(
    state: DriverStateView,
    bi: bool,
    waker: Waker,
    step: ConnectionStep,
    left: u64,
    err: ConnectionError,
)
    ensures
        state.opened(bi, waker).1 is Pending ==> state.opened(bi, waker).0.opening(
            bi,
        ).wakers.contains(waker),
        state.opening(bi).wakers.contains(waker) ==> {
            let (next, woken, _) = state.step(step);
            &&& next.opening(bi).wakers.contains(waker) || woken.contains(waker)
            &&& state.opening(bi).queued < left ==> state.allowed(bi, left).1.contains(waker)
            &&& state.shut(err).1.contains(waker)
            &&& state.finished(err).1.contains(waker)
        },
{
    let opening = state.opening(bi);
    let n = opening.wakers.len() as int;
    assert(opening.blocked(waker).wakers[n] == waker);
    if opening.wakers.contains(waker) {
        let i = choose|i: int| 0 <= i < n && opening.wakers[i] == waker;
        let at = if bi {
            i
        } else {
            state.bi.wakers.len() + i
        };
        let waiting = state.bi.wakers + state.uni.wakers;
        assert(waiting[at] == waker);
        assert forall|front: Seq<Waker>| #[trigger] (front + waiting).contains(waker) by {
            assert((front + waiting)[front.len() + at] == waker);
        }
        let (next, woken, _) = state.step(step);
        match step {
            ConnectionStep::Close(e) => {
                assert(woken == state.local.aborted(e).1 + waiting);
            },
            ConnectionStep::Finish(e) => {
                assert(woken == state.remote.aborted(e).1 + waiting);
            },
            ConnectionStep::Open(kind, other) => {
                assert(next.opening(bi).wakers[i] == waker);
            },
            _ => {},
        }
        assert(state.shut(err).1 == state.local.aborted(err).1 + waiting);
        assert(state.finished(err).1 == state.remote.aborted(err).1 + waiting);
    }
}

/// Only the first error of a connection counts: whatever is recorded after it changes nothing and
/// wakes nobody, and every poll gives that first error.
pub proof fn first_error_counts(
    state: ClosedView,
    first: ConnectionError,
    second: ConnectionError,
    waker: Waker,
)
    requires
        state.err is None,
    ensures
        ({
            let (closed, _) = state.aborted(first);
            &&& closed.aborted(second) == (closed, Seq::<Waker>::empty())
            &&& closed.polled(waker) == (closed, Poll::Ready(first))
        }),
{
}

/// Every task that waits for the end of a connection is woken by it, in the order in which they
/// came, and none of them twice.
pub proof fn waiting_tasks_are_woken(state: ClosedView, waker: Waker, err: ConnectionError)
    requires
        state.err is None,
    ensures
        ({
            let (waiting, _) = state.polled(waker);
            let (closed, woken) = waiting.aborted(err);
            &&& woken == state.wakers.push(waker)
            &&& closed.wakers == Seq::<Waker>::empty()
        }),
{
}

/// A connection that the application closes is closed at once, but does not end before it is done.
pub proof fn close_waits_for_the_end(state: DriverStateView, err: ConnectionError, waker: Waker)
    requires
        state.remote.err is None,
    ensures
        ({
            let closed = state.shut(err).0;
            &&& closed.error() is Some
            &&& closed.remote.polled(waker).1 is Pending
            &&& closed.opened(true, waker).1 matches Poll::Ready(Err(_))
            &&& closed.opened(false, waker).1 matches Poll::Ready(Err(_))
        }),
{
}

/// Closes a connection when it is told to, or when nobody refers to the connection any more.
pub struct ConnectionClose {
    driver: DriverState,
}

impl View for ConnectionClose {
    type V = DriverStateView;

    closed spec fn view(&self) -> DriverStateView {
        self.driver@
    }
}

impl ConnectionClose {
    /// A close for the given connection.
    pub fn new(driver: DriverState) -> (r: ConnectionClose)
        ensures
            r@ == driver@,
    {
        ConnectionClose { driver }
    }

    /// Closes the connection with the given error, unless it was closed before, and returns the
    /// wakers to call.
    pub fn close(&mut self, err: ConnectionError) -> (r: Vec<Waker>)
        ensures
            (final(self)@, r@) == old(self)@.shut(err),
    {
        self.driver.close(err)
    }

    /// How the connection ended, once it is done.
    pub fn wait(&mut self, waker: Waker) -> (r: Poll<ConnectionError>)
        ensures
            (final(self)@, r) == ({
                let (remote, poll) = old(self)@.remote.polled(waker);
                (DriverStateView { remote, ..old(self)@ }, poll)
            }),
    {
        self.driver.closed(waker)
    }

    /// Whether the connection was closed by either side.
    pub fn is_closed(&self) -> (r: bool)
        ensures
            r == (self@.error() is Some),
    {
        self.driver.is_closed()
    }

    /// Closes the connection because the last reference to it goes away.
    pub fn drop_last(&mut self) -> (r: Vec<Waker>)
        ensures
            (final(self)@, r@) == old(self)@.shut(ConnectionError::Dropped),
    {
        self.close(ConnectionError::Dropped)
    }

    /// The error of the connection, if it is closed.
    fn error(&self) -> (r: Option<ConnectionError>)
        ensures
            r == self@.error(),
    {
        self.driver.error()
    }

    /// The connection that this closes.
    pub fn driver(&mut self) -> (r: &mut DriverState)
        ensures
            r@ == old(self)@,
            final(self)@ == final(r)@,
    {
        &mut self.driver
    }
}

/// A QUIC connection, as the application uses it.
pub struct Connection {
    close: ConnectionClose,
}

impl View for Connection {
    type V = DriverStateView;

    closed spec fn view(&self) -> DriverStateView {
        self.close@
    }
}

impl Connection {
    /// A connection with the given state.
    pub fn new(driver: DriverState) -> (r: Connection)
        ensures
            r@ == driver@,
    {
        Connection { close: ConnectionClose::new(driver) }
    }

    /// The state that the driver shares.
    pub fn driver(&mut self) -> (r: &mut DriverState)
        ensures
            r@ == old(self)@,
            final(self)@ == final(r)@,
    {
        self.close.driver()
    }

    /// Makes a new bidirectional stream when the peer allows it; until then the task is kept.
    /// Returns the waker to call for the driver, which opens the stream.
    pub fn open_bi(&mut self, waker: Waker) -> (r: Poll<
        Result<(Option<Waker>, SendStream, RecvStream), ConnectionError>,
    >)
        ensures
            final(self)@ == old(self)@.opened(true, waker).0,
            match old(self)@.opened(true, waker).1 {
                Poll::Ready(Ok((wake, id))) => r matches Poll::Ready(Ok((driver, send, recv)))
                    && driver == wake && send@ == SendView::new(id) && recv@ == RecvView::new(id),
                Poll::Ready(Err(err)) => r matches Poll::Ready(Err(e)) && e == err,
                Poll::Pending => r is Pending,
            },
    {
        match self.close.driver().open_bi(waker) {
            Poll::Ready(Ok((wake, id))) => {
                let send = SendStream::new(SendState::new(id));
                let recv = RecvStream::new(RecvState::new(id));
                Poll::Ready(Ok((wake, send, recv)))
            },
            Poll::Ready(Err(err)) => Poll::Ready(Err(err)),
            Poll::Pending => Poll::Pending,
        }
    }

    /// Makes a new unidirectional stream when the peer allows it; until then the task is kept.
    /// Returns the waker to call for the driver, which opens the stream.
    pub fn open_uni(&mut self, waker: Waker) -> (r: Poll<
        Result<(Option<Waker>, SendStream), ConnectionError>,
    >)
        ensures
            final(self)@ == old(self)@.opened(false, waker).0,
            match old(self)@.opened(false, waker).1 {
                Poll::Ready(Ok((wake, id))) => r matches Poll::Ready(Ok((driver, send)))
                    && driver == wake && send@ == SendView::new(id),
                Poll::Ready(Err(err)) => r matches Poll::Ready(Err(e)) && e == err,
                Poll::Pending => r is Pending,
            },
    {
        match self.close.driver().open_uni(waker) {
            Poll::Ready(Ok((wake, id))) => {
                Poll::Ready(Ok((wake, SendStream::new(SendState::new(id)))))
            },
            Poll::Ready(Err(err)) => Poll::Ready(Err(err)),
            Poll::Pending => Poll::Pending,
        }
    }

    /// Closes the connection with a code and a reason, and returns the wakers to call, with the
    /// error of the connection if it was already closed.
    pub fn close(&mut self, code: u64, reason: &str) -> (r: (
        Vec<Waker>,
        Result<(), ConnectionError>,
    ))
        ensures
            match old(self)@.local.err {
                Some(err) => (final(self)@, r.0@) == old(self)@.shut(err),
                None => final(self)@.local.err matches Some(ConnectionError::Local(c, text)) && c
                    == code && text@ == reason@ && (final(self)@, r.0@) == old(self)@.shut(
                    ConnectionError::Local(c, text),
                ),
            },
            r.1 == match old(self)@.error() {
                Some(err) => Err(err),
                None => Ok(()),
            },
    {
        let res = match self.close.error() {
            Some(err) => Err(err),
            None => Ok(()),
        };
        let wakers = self.close.close(ConnectionError::Local(code, reason.to_owned()));
        (wakers, res)
    }

    /// How the connection ended. If [`Connection::close`] was called, this waits until the
    /// connection is done.
    pub fn closed(&mut self, waker: Waker) -> (r: Poll<ConnectionError>)
        ensures
            (final(self)@, r) == ({
                let (remote, poll) = old(self)@.remote.polled(waker);
                (DriverStateView { remote, ..old(self)@ }, poll)
            }),
    {
        self.close.wait(waker)
    }

    /// Whether the connection is closed by either side. Unlike for [`Connection::closed`], a close
    /// by the application counts at once.
    pub fn is_closed(&self) -> (r: bool)
        ensures
            r == (self@.error() is Some),
    {
        self.close.is_closed()
    }
}

} // verus!
