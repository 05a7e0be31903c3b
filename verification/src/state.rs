//! The shared state of a WebTransport session: its headers and the tasks that wait for its streams.

use std::collections::HashMap;
use std::task::Waker;

use vstd::prelude::*;

use crate::ez::error::QuicheError;
use crate::proto;
use crate::task::Poll;

verus! {

broadcast use vstd::std_specs::hash::group_hash_axioms;

/// The state of a session, which its driver and its streams share.
pub struct ConnectionState {
    // The identifier of the session, which is that of the CONNECT stream.
    session_id: u64,
    // The tasks that wait to write, by stream.
    send_wakers: HashMap<u64, Waker>,
    // The tasks that wait to read, by stream.
    recv_wakers: HashMap<u64, Waker>,
    // The tasks that wait for a datagram.
    datagram_wakers: Vec<Waker>,
    // The header of a unidirectional stream.
    header_uni: Vec<u8>,
    // The header of a bidirectional stream.
    header_bi: Vec<u8>,
    // The header of a datagram.
    header_datagram: Vec<u8>,
    // How much of its header the connection has accepted, by stream.
    header_sent: HashMap<u64, usize>,
}

/// What a [`ConnectionState`] holds.
#[verifier::ext_equal]
pub ghost struct ConnectionStateView {
    pub session_id: u64,
    /// The tasks that wait to write, by stream.
    pub send_wakers: Map<u64, Waker>,
    /// The tasks that wait to read, by stream.
    pub recv_wakers: Map<u64, Waker>,
    /// The tasks that wait for a datagram, in the order in which they came.
    pub datagram_wakers: Seq<Waker>,
    /// How many bytes of its header the connection has accepted, by stream.
    pub header_sent: Map<u64, usize>,
}

/// The header of a unidirectional stream: its type and the session.
pub open spec fn uni_header(session_id: u64) -> Seq<u8> {
    proto::varint(proto::STREAM_UNI) + proto::varint(session_id)
}

/// The header of a bidirectional stream: the type of its frame and the session.
pub open spec fn bi_header(session_id: u64) -> Seq<u8> {
    proto::varint(proto::FRAME_BI) + proto::varint(session_id)
}

/// The header of a datagram: the session.
pub open spec fn datagram_header(session_id: u64) -> Seq<u8> {
    proto::varint(session_id)
}

/// Whether a task has to wait for the connection, and what its operation comes to.
pub open spec fn polled<T>(answer: Result<T, QuicheError>) -> (
    bool,
    Poll<Result<T, QuicheError>>,
) {
    match answer {
        Err(QuicheError::Done) => (true, Poll::Pending),
        answer => (false, Poll::Ready(answer)),
    }
}

/// Takes the tasks of some streams out of those that wait, one stream after the other: those that
/// still wait, and those to wake.
pub open spec fn woken(wakers: Map<u64, Waker>, ids: Seq<u64>) -> (Map<u64, Waker>, Seq<Waker>)
    decreases ids.len(),
{
    if ids.len() == 0 {
        (wakers, Seq::empty())
    } else {
        let (rest, out) = woken(wakers, ids.drop_last());
        let id = ids.last();
        if rest.contains_key(id) {
            (rest.remove(id), out.push(rest[id]))
        } else {
            (rest, out)
        }
    }
}

/// Whether `out` is the tasks of all streams, in some order of the streams.
pub open spec fn all_woken(wakers: Map<u64, Waker>, out: Seq<Waker>) -> bool {
    exists|ids: Seq<u64>|
        #![trigger ids.no_duplicates()]
        {
            &&& ids.no_duplicates()
            &&& ids.to_set() == wakers.dom()
            &&& out == ids.map_values(|id: u64| wakers[id])
        }
}

impl ConnectionStateView {
    /// The header of a stream of the given kind.
    pub open spec fn header(self, bi: bool) -> Seq<u8> {
        if bi {
            bi_header(self.session_id)
        } else {
            uni_header(self.session_id)
        }
    }

    /// A task waits to write to a stream.
    pub open spec fn send_blocked(self, id: u64, waker: Waker) -> ConnectionStateView {
        ConnectionStateView { send_wakers: self.send_wakers.insert(id, waker), ..self }
    }

    /// A task waits to read from a stream.
    pub open spec fn recv_blocked(self, id: u64, waker: Waker) -> ConnectionStateView {
        ConnectionStateView { recv_wakers: self.recv_wakers.insert(id, waker), ..self }
    }

    /// A task waits for a datagram.
    pub open spec fn datagram_blocked(self, waker: Waker) -> ConnectionStateView {
        ConnectionStateView { datagram_wakers: self.datagram_wakers.push(waker), ..self }
    }

    /// How many bytes of the header of a stream the connection has accepted.
    pub open spec fn sent(self, id: u64) -> usize {
        if self.header_sent.contains_key(id) {
            self.header_sent[id]
        } else {
            0
        }
    }

    /// What the connection has not accepted yet of the header of a stream.
    pub open spec fn unsent(self, id: u64, bi: bool) -> Seq<u8> {
        if self.sent(id) < self.header(bi).len() {
            self.header(bi).skip(self.sent(id) as int)
        } else {
            Seq::empty()
        }
    }

    /// The bytes that a write to a stream offers to the connection: what is left of its header,
    /// and the data.
    pub open spec fn framed(self, id: u64, bi: bool, data: Seq<u8>) -> Seq<u8> {
        self.unsent(id, bi) + data
    }

    /// A write to a stream, given the connection's answer to the bytes of
    /// [`ConnectionStateView::framed`]: the state afterwards, and how much of the data was
    /// accepted. The task waits when the connection has no room, and when its room was used up by
    /// the header.
    pub open spec fn written(
        self,
        id: u64,
        bi: bool,
        waker: Waker,
        data: Seq<u8>,
        answer: Result<usize, QuicheError>,
    ) -> (ConnectionStateView, Poll<Result<usize, QuicheError>>) {
        match answer {
            Ok(n) => {
                let left = self.unsent(id, bi).len();
                let accepted = vstd::math::min(n as int, left as int);
                let next = if accepted > 0 {
                    ConnectionStateView {
                        header_sent: self.header_sent.insert(
                            id,
                            (self.sent(id) + accepted) as usize,
                        ),
                        ..self
                    }
                } else {
                    self
                };
                if left > 0 && (n < left || (n == left && data.len() > 0)) {
                    (next.send_blocked(id, waker), Poll::Pending)
                } else {
                    (next, Poll::Ready(Ok((n - left) as usize)))
                }
            },
            Err(QuicheError::Done) => (self.send_blocked(id, waker), Poll::Pending),
            Err(err) => (self, Poll::Ready(Err(err))),
        }
    }
}

impl View for ConnectionState {
    type V = ConnectionStateView;

    closed spec fn view(&self) -> ConnectionStateView {
        ConnectionStateView {
            session_id: self.session_id,
            send_wakers: self.send_wakers@,
            recv_wakers: self.recv_wakers@,
            datagram_wakers: self.datagram_wakers@,
            header_sent: self.header_sent@,
        }
    }
}

/// The bytes of two slices, one after the other.
pub(crate) fn concat(a: &[u8], b: &[u8]) -> (r: Vec<u8>)
    ensures
        r@ == a@ + b@,
{
    let mut out: Vec<u8> = Vec::new();
    out.extend_from_slice(a);
    out.extend_from_slice(b);
    assert(out@ =~= a@ + b@);
    out
}

/// Empties a map of tasks and returns all of them, in some order of the streams.
fn drain(wakers: &mut HashMap<u64, Waker>) -> (r: Vec<Waker>)
    ensures
        final(wakers)@ == Map::<u64, Waker>::empty(),
        all_woken(old(wakers)@, r@),
{
    let mut all: HashMap<u64, Waker> = HashMap::new();
    std::mem::swap(&mut all, wakers);
    let mut ids: Vec<u64> = Vec::new();
    for id in it: all.keys()
        invariant
            ids@ == it.seq().unref().take(it.index() as int),
    {
        ids.push(*id);
    }
    proof {
        let iter = vstd::std_specs::hash::spec_keys_iter(&all);
        assert(ids@ == vstd::std_specs::iter::IteratorSpec::remaining(&iter).unref());
    }
    let mut out: Vec<Waker> = Vec::new();
    let mut i: usize = 0;
    while i < ids.len()
        invariant
            i <= ids@.len(),
            ids@.no_duplicates(),
            ids@.to_set() == old(wakers)@.dom(),
            out@ == ids@.take(i as int).map_values(|id: u64| old(wakers)@[id]),
            forall|j: int|
                i <= j < ids@.len() ==> all@.contains_key(#[trigger] ids@[j]) && all@[ids@[j]]
                    == old(wakers)@[ids@[j]],
        decreases ids@.len() - i,
    {
        if let Some(waker) = all.remove(&ids[i]) {
            out.push(waker);
        }
        i = i + 1;
        assert(out@ =~= ids@.take(i as int).map_values(|id: u64| old(wakers)@[id]));
    }
    assert(ids@.take(i as int) =~= ids@);
    out
}

/// Takes the tasks of some streams out of a map, one stream after the other.
fn take_all(wakers: &mut HashMap<u64, Waker>, ids: &Vec<u64>) -> (r: Vec<Waker>)
    ensures
        (final(wakers)@, r@) == woken(old(wakers)@, ids@),
{
    let mut out: Vec<Waker> = Vec::new();
    let mut i: usize = 0;
    while i < ids.len()
        invariant
            i <= ids@.len(),
            (wakers@, out@) == woken(old(wakers)@, ids@.take(i as int)),
        decreases ids@.len() - i,
    {
        assert(ids@.take(i + 1).drop_last() =~= ids@.take(i as int));
        if let Some(waker) = wakers.remove(&ids[i]) {
            out.push(waker);
        }
        i = i + 1;
        assert(wakers@ =~= woken(old(wakers)@, ids@.take(i as int)).0);
    }
    assert(ids@.take(i as int) =~= ids@);
    out
}

impl ConnectionState {
    /// Whether the headers are those of the session.
    pub closed spec fn wf(self) -> bool {
        &&& self.session_id < proto::VARINT_LIMIT
        &&& self.header_uni@ == uni_header(self.session_id)
        &&& self.header_bi@ == bi_header(self.session_id)
        &&& self.header_datagram@ == datagram_header(self.session_id)
    }

    /// The state of a new session, for which nobody waits.
    pub fn new(session_id: u64) -> (r: ConnectionState)
        requires
            session_id < proto::VARINT_LIMIT,
        ensures
            r.wf(),
            r@ == (ConnectionStateView {
                session_id,
                send_wakers: Map::empty(),
                recv_wakers: Map::empty(),
                datagram_wakers: Seq::empty(),
                header_sent: Map::empty(),
            }),
    {
        let mut header_uni: Vec<u8> = Vec::new();
        proto::stream_uni_encode(&mut header_uni);
        proto::varint_encode(session_id, &mut header_uni);
        assert(header_uni@ =~= uni_header(session_id));

        let mut header_bi: Vec<u8> = Vec::new();
        proto::frame_bi_encode(&mut header_bi);
        proto::varint_encode(session_id, &mut header_bi);
        assert(header_bi@ =~= bi_header(session_id));

        let mut header_datagram: Vec<u8> = Vec::new();
        proto::varint_encode(session_id, &mut header_datagram);
        assert(header_datagram@ =~= datagram_header(session_id));

        let r = ConnectionState {
            session_id,
            send_wakers: HashMap::new(),
            recv_wakers: HashMap::new(),
            datagram_wakers: Vec::new(),
            header_uni,
            header_bi,
            header_datagram,
            header_sent: HashMap::new(),
        };
        r
    }

    /// The identifier of the session.
    pub fn session_id(&self) -> (r: u64)
        ensures
            r == self@.session_id,
            self.wf() ==> r < proto::VARINT_LIMIT,
    {
        self.session_id
    }

    /// The header of a datagram.
    pub fn header_datagram(&self) -> (r: &[u8])
        requires
            self.wf(),
        ensures
            r@ == datagram_header(self@.session_id),
    {
        self.header_datagram.as_slice()
    }

    /// The header of a stream of the given kind.
    fn header(&self, bi: bool) -> (r: &[u8])
        requires
            self.wf(),
        ensures
            r@ == self@.header(bi),
    {
        if bi {
            self.header_bi.as_slice()
        } else {
            self.header_uni.as_slice()
        }
    }

    /// How many bytes of the header of a stream the connection has accepted.
    fn sent(&self, stream_id: u64) -> (r: usize)
        ensures
            r == self@.sent(stream_id),
    {
        match self.header_sent.get(&stream_id) {
            Some(sent) => *sent,
            None => 0,
        }
    }

    /// The bytes that a write to a stream offers to the connection: what is left of its header,
    /// and the data. The connection's answer is handed to [`ConnectionState::poll_write`].
    pub fn frame_write(&self, stream_id: u64, bi: bool, data: &[u8]) -> (r: Vec<u8>)
        requires
            self.wf(),
        ensures
            r@ == self@.framed(stream_id, bi, data@),
    {
        let header = self.header(bi);
        let sent: usize = self.sent(stream_id);
        if sent < header.len() {
            let left = vstd::slice::slice_subrange(header, sent, header.len());
            assert(left@ =~= self@.unsent(stream_id, bi));
            concat(left, data)
        } else {
            concat(&[], data)
        }
    }

    /// What a write of the data to a stream comes to, given the connection's answer to the bytes of
    /// [`ConnectionState::frame_write`]: how much of the data was accepted. Without room for any of
    /// it the task is kept until there is some; what was accepted of the header is not sent again.
    pub fn poll_write(
        &mut self,
        stream_id: u64,
        bi: bool,
        waker: Waker,
        data: &[u8],
        answer: Result<usize, QuicheError>,
    ) -> (r: Poll<Result<usize, QuicheError>>)
        requires
            old(self).wf(),
            answer matches Ok(n) ==> n <= old(self)@.framed(stream_id, bi, data@).len(),
        ensures
            (final(self)@, r) == old(self)@.written(stream_id, bi, waker, data@, answer),
            final(self).wf(),
    {
        let n: usize = match answer {
            Ok(n) => n,
            Err(QuicheError::Done) => {
                self.send_wakers.insert(stream_id, waker);
                return Poll::Pending;
            },
            Err(err) => return Poll::Ready(Err(err)),
        };
        let sent: usize = self.sent(stream_id);
        let left: usize = self.header(bi).len().saturating_sub(sent);
        let accepted: usize = if n < left {
            n
        } else {
            left
        };
        if accepted > 0 {
            self.header_sent.insert(stream_id, sent + accepted);
        }
        if left > 0 && (n < left || (n == left && data.len() > 0)) {
            self.send_wakers.insert(stream_id, waker);
            return Poll::Pending;
        }
        Poll::Ready(Ok(n - left))
    }

    /// What a read from a stream comes to, given the connection's answer to it: without data the
    /// task is kept until there is some.
    pub fn poll_read(
        &mut self,
        stream_id: u64,
        waker: Waker,
        received: Result<(usize, bool), QuicheError>,
    ) -> (r: Poll<Result<(usize, bool), QuicheError>>)
        ensures
            ({
                let (blocked, res) = polled(received);
                &&& r == res
                &&& final(self)@ == if blocked {
                    old(self)@.recv_blocked(stream_id, waker)
                } else {
                    old(self)@
                }
            }),
            old(self).wf() ==> final(self).wf(),
    {
        match received {
            Err(QuicheError::Done) => {
                self.recv_wakers.insert(stream_id, waker);
                Poll::Pending
            },
            received => Poll::Ready(received),
        }
    }

    /// The task that waits to write to a stream, if there is one; it is to be woken.
    pub fn wake_send(&mut self, stream_id: u64) -> (r: Option<Waker>)
        ensures
            r == old(self)@.send_wakers.get(stream_id),
            final(self)@ == (ConnectionStateView {
                send_wakers: old(self)@.send_wakers.remove(stream_id),
                ..old(self)@
            }),
            old(self).wf() ==> final(self).wf(),
    {
        let r = self.send_wakers.remove(&stream_id);
        assert(self@.send_wakers =~= old(self)@.send_wakers.remove(stream_id));
        r
    }

    /// The task that waits to read from a stream, if there is one; it is to be woken.
    pub fn wake_recv(&mut self, stream_id: u64) -> (r: Option<Waker>)
        ensures
            r == old(self)@.recv_wakers.get(stream_id),
            final(self)@ == (ConnectionStateView {
                recv_wakers: old(self)@.recv_wakers.remove(stream_id),
                ..old(self)@
            }),
            old(self).wf() ==> final(self).wf(),
    {
        let r = self.recv_wakers.remove(&stream_id);
        assert(self@.recv_wakers =~= old(self)@.recv_wakers.remove(stream_id));
        r
    }

    /// The tasks that wait to write to the given streams, one stream after the other; they are to
    /// be woken.
    pub fn wake_send_streams(&mut self, ids: &Vec<u64>) -> (r: Vec<Waker>)
        ensures
            ({
                let (send_wakers, out) = woken(old(self)@.send_wakers, ids@);
                r@ == out && final(self)@ == (ConnectionStateView { send_wakers, ..old(self)@ })
            }),
            old(self).wf() ==> final(self).wf(),
    {
        take_all(&mut self.send_wakers, ids)
    }

    /// The tasks that wait to read from the given streams, one stream after the other; they are to
    /// be woken.
    pub fn wake_recv_streams(&mut self, ids: &Vec<u64>) -> (r: Vec<Waker>)
        ensures
            ({
                let (recv_wakers, out) = woken(old(self)@.recv_wakers, ids@);
                r@ == out && final(self)@ == (ConnectionStateView { recv_wakers, ..old(self)@ })
            }),
            old(self).wf() ==> final(self).wf(),
    {
        take_all(&mut self.recv_wakers, ids)
    }

    /// Keeps a task that waits for a datagram.
    pub fn block_datagram(&mut self, waker: Waker)
        ensures
            final(self)@ == old(self)@.datagram_blocked(waker),
            old(self).wf() ==> final(self).wf(),
    {
        self.datagram_wakers.push(waker);
    }

    /// All tasks that wait for a datagram, in the order in which they came; they are to be woken.
    pub fn wake_datagram(&mut self) -> (r: Vec<Waker>)
        ensures
            r@ == old(self)@.datagram_wakers,
            final(self)@ == (ConnectionStateView { datagram_wakers: Seq::empty(), ..old(self)@ }),
            old(self).wf() ==> final(self).wf(),
    {
        let mut wakers: Vec<Waker> = Vec::new();
        std::mem::swap(&mut wakers, &mut self.datagram_wakers);
        wakers
    }

    /// All tasks that wait to write; they are to be woken.
    pub fn wake_all_send(&mut self) -> (r: Vec<Waker>)
        ensures
            all_woken(old(self)@.send_wakers, r@),
            final(self)@ == (ConnectionStateView { send_wakers: Map::empty(), ..old(self)@ }),
            old(self).wf() ==> final(self).wf(),
    {
        drain(&mut self.send_wakers)
    }

    /// All tasks that wait to read; they are to be woken.
    pub fn wake_all_recv(&mut self) -> (r: Vec<Waker>)
        ensures
            all_woken(old(self)@.recv_wakers, r@),
            final(self)@ == (ConnectionStateView { recv_wakers: Map::empty(), ..old(self)@ }),
            old(self).wf() ==> final(self).wf(),
    {
        drain(&mut self.recv_wakers)
    }
}

/// A write to a stream of a session, with the connection's answer.
pub ghost struct StreamWrite {
    pub id: u64,
    pub bi: bool,
    pub waker: Waker,
    pub data: Seq<u8>,
    pub answer: Result<usize, QuicheError>,
}

/// The bytes that the connection accepts of a write.
pub open spec fn accepted_by(state: ConnectionStateView, write: StreamWrite) -> Seq<u8> {
    match write.answer {
        Ok(n) => state.framed(write.id, write.bi, write.data).take(n as int),
        Err(_) => Seq::empty(),
    }
}

/// The data of a write that the application is told was accepted.
pub open spec fn told_by(state: ConnectionStateView, write: StreamWrite) -> Seq<u8> {
    match state.written(write.id, write.bi, write.waker, write.data, write.answer).1 {
        Poll::Ready(Ok(n)) => write.data.take(n as int),
        _ => Seq::empty(),
    }
}

/// The state after some writes, one after the other.
pub open spec fn after(state: ConnectionStateView, writes: Seq<StreamWrite>) -> ConnectionStateView
    decreases writes.len(),
{
    if writes.len() == 0 {
        state
    } else {
        let w = writes.last();
        after(state, writes.drop_last()).written(w.id, w.bi, w.waker, w.data, w.answer).0
    }
}

/// Whether the connection accepts no more of each write than it was offered, and the writes to the
/// given stream are all of the given kind.
pub open spec fn are_writes(
    state: ConnectionStateView,
    id: u64,
    bi: bool,
    writes: Seq<StreamWrite>,
) -> bool
    decreases writes.len(),
{
    writes.len() > 0 ==> {
        let w = writes.last();
        let before = after(state, writes.drop_last());
        &&& are_writes(state, id, bi, writes.drop_last())
        &&& w.answer matches Ok(n) ==> n <= before.framed(w.id, w.bi, w.data).len()
        &&& w.id == id ==> w.bi == bi
    }
}

/// The bytes of a stream that the connection accepts of some writes.
pub open spec fn accepted_on(
    state: ConnectionStateView,
    id: u64,
    writes: Seq<StreamWrite>,
) -> Seq<u8>
    decreases writes.len(),
{
    if writes.len() == 0 {
        Seq::empty()
    } else {
        let before = accepted_on(state, id, writes.drop_last());
        if writes.last().id == id {
            before + accepted_by(after(state, writes.drop_last()), writes.last())
        } else {
            before
        }
    }
}

/// The data of a stream that the application is told was accepted of some writes.
pub open spec fn told_on(
    state: ConnectionStateView,
    id: u64,
    writes: Seq<StreamWrite>,
) -> Seq<u8>
    decreases writes.len(),
{
    if writes.len() == 0 {
        Seq::empty()
    } else {
        let before = told_on(state, id, writes.drop_last());
        if writes.last().id == id {
            before + told_by(after(state, writes.drop_last()), writes.last())
        } else {
            before
        }
    }
}

proof fn header_step(before: ConnectionStateView, w: StreamWrite, told: Seq<u8>)
    requires
        before.sent(w.id) <= before.header(w.bi).len(),
        told.len() > 0 ==> before.sent(w.id) == before.header(w.bi).len(),
        w.answer matches Ok(n) ==> n <= before.framed(w.id, w.bi, w.data).len(),
    ensures
        ({
            let now = before.written(w.id, w.bi, w.waker, w.data, w.answer).0;
            let header = before.header(w.bi);
            let told_now = told + told_by(before, w);
            &&& now.session_id == before.session_id
            &&& now.sent(w.id) <= header.len()
            &&& header.take(before.sent(w.id) as int) + told + accepted_by(before, w)
                == header.take(now.sent(w.id) as int) + told_now
            &&& told_now.len() > 0 ==> now.sent(w.id) == header.len()
            &&& forall|id: u64| id != w.id ==> now.sent(id) == before.sent(id)
        }),
{
    let now = before.written(w.id, w.bi, w.waker, w.data, w.answer).0;
    let header = before.header(w.bi);
    let sent = before.sent(w.id) as int;
    if let Ok(n) = w.answer {
        let left = before.unsent(w.id, w.bi);
        let framed = before.framed(w.id, w.bi, w.data);
        proto::varint_short(proto::STREAM_UNI);
        proto::varint_short(proto::FRAME_BI);
        proto::varint_short(before.session_id);
        assert(left.len() == header.len() - sent);
        if n < left.len() || (n == left.len() && left.len() > 0) {
            assert(now.sent(w.id) == sent + n);
            assert(told_by(before, w) =~= Seq::<u8>::empty());
            assert(header.take(sent) + told + framed.take(n as int) =~= header.take(sent + n)
                + told);
        } else {
            assert(now.sent(w.id) == header.len());
            assert(framed.take(n as int) =~= left + w.data.take(n - left.len()));
            assert(header.take(sent) + told + left =~= header + told);
            assert(header.take(header.len() as int) =~= header);
        }
    }
    assert(header.take(sent) + told + accepted_by(before, w) =~= header.take(
        now.sent(w.id) as int,
    ) + (told + told_by(before, w)));
}

proof fn header_progress(
    state: ConnectionStateView,
    id: u64,
    bi: bool,
    writes: Seq<StreamWrite>,
)
    requires
        !state.header_sent.contains_key(id),
        are_writes(state, id, bi, writes),
    ensures
        ({
            let now = after(state, writes);
            let header = state.header(bi);
            let told = told_on(state, id, writes);
            &&& now.session_id == state.session_id
            &&& now.sent(id) <= header.len()
            &&& accepted_on(state, id, writes) == header.take(now.sent(id) as int) + told
            &&& told.len() > 0 ==> now.sent(id) == header.len()
        }),
    decreases writes.len(),
{
    if writes.len() == 0 {
        assert(state.header(bi).take(0) + Seq::<u8>::empty() =~= Seq::<u8>::empty());
    } else {
        header_progress(state, id, bi, writes.drop_last());
        let w = writes.last();
        if w.id == id {
            header_step(
                after(state, writes.drop_last()),
                w,
                told_on(state, id, writes.drop_last()),
            );
        }
    }
}

/// On each stream of a session the connection accepts a prefix of the header of the stream followed
/// by the data that was accepted, however it answers: the header comes first, once and whole, also
/// when there is no room for it at first.
pub proof fn header_precedes_the_data(
    state: ConnectionStateView,
    id: u64,
    bi: bool,
    writes: Seq<StreamWrite>,
)
    requires
        !state.header_sent.contains_key(id),
        are_writes(state, id, bi, writes),
    ensures
        accepted_on(state, id, writes).is_prefix_of(
            state.header(bi) + told_on(state, id, writes),
        ),
        told_on(state, id, writes).len() > 0 ==> accepted_on(state, id, writes) == state.header(bi)
            + told_on(state, id, writes),
{
    header_progress(state, id, bi, writes);
    let header = state.header(bi);
    let told = told_on(state, id, writes);
    let sent = after(state, writes).sent(id) as int;
    if told.len() > 0 {
        assert(header.take(sent) =~= header);
    } else {
        assert(header.take(sent) + told =~= (header + told).take(sent));
    }
    assert((header + told).take((header + told).len() as int) =~= header + told);
}

/// A task that has to wait for a stream is the one that is woken for it, whatever happens to other
/// streams in between.
pub proof fn waiting_task_is_woken(
    state: ConnectionStateView,
    id: u64,
    waker: Waker,
    other: u64,
)
    requires
        id != other,
    ensures
        ({
            let blocked = state.send_blocked(id, waker);
            blocked.send_wakers.remove(other).get(id) == Some(waker)
        }),
        ({
            let blocked = state.recv_blocked(id, waker);
            blocked.recv_wakers.remove(other).get(id) == Some(waker)
        }),
        state.send_blocked(id, waker).send_wakers.get(id) == Some(waker),
        state.recv_blocked(id, waker).recv_wakers.get(id) == Some(waker),
{
}

/// A task that waits for a datagram is among those that are woken by the next one, whatever is
/// written and read in between, and whoever else comes to wait.
pub proof fn waiting_datagram_task_is_woken(
    state: ConnectionStateView,
    waker: Waker,
    write: StreamWrite,
    other: Waker,
)
    ensures
        ({
            let blocked = state.datagram_blocked(waker);
            let written = blocked.written(
                write.id,
                write.bi,
                write.waker,
                write.data,
                write.answer,
            ).0;
            &&& blocked.datagram_wakers.contains(waker)
            &&& written.datagram_wakers == blocked.datagram_wakers
            &&& blocked.recv_blocked(write.id, other).datagram_wakers == blocked.datagram_wakers
            &&& blocked.datagram_blocked(other).datagram_wakers.contains(waker)
        }),
{
    let blocked = state.datagram_blocked(waker);
    let n = state.datagram_wakers.len() as int;
    assert(blocked.datagram_wakers[n] == waker);
    assert(blocked.datagram_blocked(other).datagram_wakers[n] == waker);
}

/// A task that waits for a stream is woken once: whoever is woken does not wait any more, and
/// nobody else is affected.
pub proof fn stream_is_woken_once(wakers: Map<u64, Waker>, ids: Seq<u64>)
    ensures
        woken(wakers, ids).0.dom() == wakers.dom().difference(ids.to_set()),
        woken(wakers, ids).0.submap_of(wakers),
        woken(wakers, ids).1.len() <= ids.len(),
    decreases ids.len(),
{
    if ids.len() > 0 {
        stream_is_woken_once(wakers, ids.drop_last());
        let rest = woken(wakers, ids.drop_last()).0;
        let id = ids.last();
        assert(ids =~= ids.drop_last().push(id));
        assert forall|k: u64|
            woken(wakers, ids).0.contains_key(k) == (wakers.contains_key(k) && !ids.contains(
                k,
            )) by {
            assert(rest.dom().contains(k) == (wakers.contains_key(k)
                && !ids.drop_last().contains(k)));
            if ids.contains(k) {
                let i = choose|i: int| 0 <= i < ids.len() && ids[i] == k;
                if i < ids.len() - 1 {
                    assert(ids.drop_last()[i] == k);
                }
            }
            if ids.drop_last().contains(k) {
                let i = choose|i: int| 0 <= i < ids.drop_last().len() && ids.drop_last()[i] == k;
                assert(ids[i] == k);
            }
            assert(ids[ids.len() - 1] == id);
        }
        assert(woken(wakers, ids).0.dom() =~= wakers.dom().difference(ids.to_set()));
    } else {
        assert(woken(wakers, ids).0.dom() =~= wakers.dom().difference(ids.to_set()));
    }
}

} // verus!
