//! An established WebTransport session: its streams carry a header, its datagrams are prefixed
//! with the session, and its error codes are those of WebTransport.

use std::task::Waker;

use url::Url;
use vstd::prelude::*;

use crate::error::{SessionError, WebTransportError};
use crate::ez::connection::STREAM_ID_LIMIT;
use crate::ez::error::QuicheError;
use crate::ez::stream::StreamId;
use crate::proto;
use crate::state;
use crate::state::{ConnectionState, ConnectionStateView};
use crate::task::Poll;

verus! {

/// An established session.
///
/// `B` and `U` are the queues of the bidirectional and the unidirectional streams that the peer
/// opens.
pub struct Session<B, U> {
    state: ConnectionState,
    url: Url,
    bi: AcceptQueue<B>,
    uni: AcceptQueue<U>,
    // Whether this is the server's side.
    server: bool,
    // The identifier of the next bidirectional stream that this side opens.
    next_bi: u64,
    // The identifier of the next unidirectional stream that this side opens.
    next_uni: u64,
}

/// A stream of a session that the application opens.
#[derive(Clone, Copy, Debug, PartialEq, Eq, Structural)]
pub struct OpenedStream {
    /// The identifier of the stream.
    pub stream_id: u64,
    /// Whether the stream is bidirectional.
    pub bi: bool,
}

/// What the connection has for a task that waits for a datagram.
pub enum DatagramEvent {
    /// A datagram.
    Received(Vec<u8>),
    /// No datagram yet.
    Empty,
    /// No datagram any more: the connection is closed.
    Closed,
}

/// The identifiers of the streams that one side of a session opens.
#[verifier::ext_equal]
pub ghost struct StreamIds {
    /// Whether the side is the server's.
    pub server: bool,
    /// The identifier of the next bidirectional stream.
    pub next_bi: u64,
    /// The identifier of the next unidirectional stream.
    pub next_uni: u64,
}

impl StreamIds {
    /// The identifiers of a new session: the first of their kind and side, the client's
    /// bidirectional ones after the CONNECT stream.
    pub open spec fn first(session_id: u64, server: bool) -> StreamIds {
        if server {
            StreamIds { server, next_bi: 1, next_uni: 3 }
        } else {
            StreamIds { server, next_bi: ((session_id / 4 + 1) * 4) as u64, next_uni: 2 }
        }
    }

    /// Whether the identifiers are of their kind and side.
    pub open spec fn wf(self) -> bool {
        let side = if self.server {
            1int
        } else {
            0int
        };
        &&& self.next_bi % 4 == side
        &&& self.next_uni % 4 == 2 + side
    }

    /// The identifier of the next stream of a kind.
    pub open spec fn next(self, bi: bool) -> u64 {
        if bi {
            self.next_bi
        } else {
            self.next_uni
        }
    }

    /// Whether a stream is of its kind and side, and was opened between these identifiers and
    /// those afterwards.
    pub open spec fn gave(self, after: StreamIds, stream: OpenedStream) -> bool {
        &&& StreamId(stream.stream_id).bi() == stream.bi
        &&& stream.stream_id % 2 == (if self.server {
            1int
        } else {
            0int
        })
        &&& self.next(stream.bi) <= stream.stream_id < after.next(stream.bi)
        &&& stream.stream_id < STREAM_ID_LIMIT
    }

    /// A stream is opened: the identifiers afterwards, and the stream unless no identifier is left.
    pub open spec fn opened(self, bi: bool) -> (StreamIds, Option<OpenedStream>) {
        let stream_id = self.next(bi);
        if stream_id >= STREAM_ID_LIMIT {
            (self, None)
        } else if bi {
            (
                StreamIds { next_bi: (stream_id + 4) as u64, ..self },
                Some(OpenedStream { stream_id, bi }),
            )
        } else {
            (
                StreamIds { next_uni: (stream_id + 4) as u64, ..self },
                Some(OpenedStream { stream_id, bi }),
            )
        }
    }
}

/// The streams that are opened one after the other, given the kind of each, and the identifiers
/// afterwards.
pub open spec fn opened_all(ids: StreamIds, kinds: Seq<bool>) -> (StreamIds, Seq<OpenedStream>)
    decreases kinds.len(),
{
    if kinds.len() == 0 {
        (ids, Seq::empty())
    } else {
        let (ids, streams) = opened_all(ids, kinds.drop_last());
        match ids.opened(kinds.last()) {
            (next, Some(stream)) => (next, streams.push(stream)),
            (next, None) => (next, streams),
        }
    }
}

/// The streams that the peer opens, in a queue that one task at a time can wait for.
struct AcceptQueue<Q> {
    queue: Option<Q>,
}

impl<Q> AcceptQueue<Q> {
    /// The queue, unless a task waits for it.
    spec fn available(self) -> Option<Q> {
        self.queue
    }

    /// Nobody waits for the queue yet.
    fn new(queue: Q) -> (r: AcceptQueue<Q>)
        ensures
            r.available() == Some(queue),
    {
        AcceptQueue { queue: Some(queue) }
    }

    /// Takes the queue, in order to wait for it. Fails while another task waits.
    fn take(&mut self) -> (r: Result<Q, SessionError>)
        ensures
            final(self).available() is None,
            match old(self).available() {
                Some(queue) => r == Ok::<Q, SessionError>(queue),
                None => r == Err::<Q, SessionError>(SessionError::Closed),
            },
    {
        match self.queue.take() {
            Some(queue) => Ok(queue),
            None => Err(SessionError::Closed),
        }
    }

    /// Puts the queue back with what it gave: the next stream, or nothing once the session is
    /// closed.
    fn put<T>(&mut self, queue: Q, next: Option<T>) -> (r: Result<T, SessionError>)
        ensures
            final(self).available() == Some(queue),
            match next {
                Some(stream) => r == Ok::<T, SessionError>(stream),
                None => r == Err::<T, SessionError>(SessionError::Closed),
            },
    {
        self.queue = Some(queue);
        match next {
            Some(stream) => Ok(stream),
            None => Err(SessionError::Closed),
        }
    }
}

impl<B, U> Session<B, U> {
    /// What the streams and the driver of the session share.
    pub closed spec fn shared(self) -> ConnectionStateView {
        self.state@
    }

    /// The identifier of the session.
    pub open spec fn id(self) -> u64 {
        self.shared().session_id
    }

    /// The address that the session was made for.
    pub closed spec fn address(self) -> Url {
        self.url
    }

    /// The identifiers of the streams that this side opens.
    pub closed spec fn ids(self) -> StreamIds {
        StreamIds { server: self.server, next_bi: self.next_bi, next_uni: self.next_uni }
    }

    /// The identifier of the next bidirectional stream that this side opens.
    pub open spec fn next_bi(self) -> u64 {
        self.ids().next_bi
    }

    /// The identifier of the next unidirectional stream that this side opens.
    pub open spec fn next_uni(self) -> u64 {
        self.ids().next_uni
    }

    /// Whether the headers are those of the session.
    pub closed spec fn headers_wf(self) -> bool {
        self.state.wf()
    }

    /// Whether the headers are those of the session, and the identifiers those of its side.
    pub open spec fn wf(self) -> bool {
        self.headers_wf() && self.ids().wf()
    }

    /// The queue of the bidirectional streams that the peer opens, unless a task waits for it.
    pub closed spec fn bi_queue(self) -> Option<B> {
        self.bi.available()
    }

    /// The queue of the unidirectional streams that the peer opens, unless a task waits for it.
    pub closed spec fn uni_queue(self) -> Option<U> {
        self.uni.available()
    }

    /// Whether only the queues and the identifiers of the next streams differ.
    pub open spec fn same_session(self, other: Session<B, U>) -> bool {
        &&& self.shared() == other.shared()
        &&& self.address() == other.address()
        &&& self.ids().server == other.ids().server
        &&& self.wf() == other.wf()
    }

    /// Whether only what the streams and the driver share differs.
    pub open spec fn same_streams(self, other: Session<B, U>) -> bool {
        &&& self.address() == other.address()
        &&& self.ids() == other.ids()
        &&& self.bi_queue() == other.bi_queue()
        &&& self.uni_queue() == other.uni_queue()
    }

    /// One side of a session, the server's or the client's, with the given state and address, and
    /// the streams that the peer opens.
    pub fn new(state: ConnectionState, server: bool, bi: B, uni: U, url: Url) -> (r: Session<B, U>)
        requires
            state.wf(),
        ensures
            r.wf(),
            r.shared() == state@,
            r.address() == url,
            r.ids() == StreamIds::first(state@.session_id, server),
            r.bi_queue() == Some(bi),
            r.uni_queue() == Some(uni),
    {
        let session_id: u64 = state.session_id();
        let next_bi: u64 = if server {
            1
        } else {
            (session_id / 4 + 1) * 4
        };
        let next_uni: u64 = if server {
            3
        } else {
            2
        };
        Session {
            state,
            url,
            bi: AcceptQueue::new(bi),
            uni: AcceptQueue::new(uni),
            server,
            next_bi,
            next_uni,
        }
    }

    /// What the streams and the driver of the session share.
    pub fn state(&mut self) -> (r: &mut ConnectionState)
        requires
            old(self).wf(),
        ensures
            r.wf(),
            r@ == old(self).shared(),
            final(self).shared() == final(r)@,
            final(self).same_streams(*old(self)),
            final(r).wf() ==> final(self).wf(),
    {
        &mut self.state
    }

    /// Takes the queue of the unidirectional streams that the peer opens, in order to wait for it.
    /// Fails while another task waits.
    pub fn accept_uni(&mut self) -> (r: Result<U, SessionError>)
        ensures
            final(self).same_session(*old(self)),
            final(self).ids() == old(self).ids(),
            final(self).bi_queue() == old(self).bi_queue(),
            final(self).uni_queue() is None,
            match old(self).uni_queue() {
                Some(queue) => r == Ok::<U, SessionError>(queue),
                None => r == Err::<U, SessionError>(SessionError::Closed),
            },
    {
        self.uni.take()
    }

    /// Puts the queue back with what it gave: the next unidirectional stream, or nothing once the
    /// session is closed.
    pub fn accepted_uni<T>(&mut self, queue: U, next: Option<T>) -> (r: Result<T, SessionError>)
        ensures
            final(self).same_session(*old(self)),
            final(self).ids() == old(self).ids(),
            final(self).bi_queue() == old(self).bi_queue(),
            final(self).uni_queue() == Some(queue),
            match next {
                Some(stream) => r == Ok::<T, SessionError>(stream),
                None => r == Err::<T, SessionError>(SessionError::Closed),
            },
    {
        self.uni.put(queue, next)
    }

    /// Takes the queue of the bidirectional streams that the peer opens, in order to wait for it.
    /// Fails while another task waits.
    pub fn accept_bi(&mut self) -> (r: Result<B, SessionError>)
        ensures
            final(self).same_session(*old(self)),
            final(self).ids() == old(self).ids(),
            final(self).uni_queue() == old(self).uni_queue(),
            final(self).bi_queue() is None,
            match old(self).bi_queue() {
                Some(queue) => r == Ok::<B, SessionError>(queue),
                None => r == Err::<B, SessionError>(SessionError::Closed),
            },
    {
        self.bi.take()
    }

    /// Puts the queue back with what it gave: the next bidirectional stream, or nothing once the
    /// session is closed.
    pub fn accepted_bi<T>(&mut self, queue: B, next: Option<T>) -> (r: Result<T, SessionError>)
        ensures
            final(self).same_session(*old(self)),
            final(self).ids() == old(self).ids(),
            final(self).uni_queue() == old(self).uni_queue(),
            final(self).bi_queue() == Some(queue),
            match next {
                Some(stream) => r == Ok::<T, SessionError>(stream),
                None => r == Err::<T, SessionError>(SessionError::Closed),
            },
    {
        self.bi.put(queue, next)
    }

    /// The address that the session was made for.
    pub fn url(&self) -> (r: &Url)
        ensures
            *r == self.address(),
    {
        &self.url
    }

    /// Opens a new unidirectional stream, with the next identifier of its kind. Fails when no
    /// identifier is left. Its header is sent with the first write.
    pub fn open_uni(&mut self) -> (r: Result<OpenedStream, SessionError>)
        ensures
            final(self).same_session(*old(self)),
            final(self).bi_queue() == old(self).bi_queue(),
            final(self).uni_queue() == old(self).uni_queue(),
            (final(self).ids(), r.ok()) == old(self).ids().opened(false),
            final(self).next_bi() == old(self).next_bi(),
            if old(self).next_uni() < STREAM_ID_LIMIT {
                &&& r == Ok::<_, SessionError>(
                    (OpenedStream { stream_id: old(self).next_uni(), bi: false }),
                )
                &&& final(self).next_uni() == old(self).next_uni() + 4
            } else {
                &&& r == Err::<OpenedStream, _>(SessionError::Quiche(QuicheError::StreamLimit))
                &&& final(self).next_uni() == old(self).next_uni()
            },
    {
        let stream_id: u64 = self.next_uni;
        if stream_id >= STREAM_ID_LIMIT {
            return Err(SessionError::Quiche(QuicheError::StreamLimit));
        }
        self.next_uni = stream_id + 4;
        Ok(OpenedStream { stream_id, bi: false })
    }

    /// Opens a new bidirectional stream, with the next identifier of its kind. Fails when no
    /// identifier is left. Its header is sent with the first write.
    pub fn open_bi(&mut self) -> (r: Result<OpenedStream, SessionError>)
        ensures
            final(self).same_session(*old(self)),
            final(self).bi_queue() == old(self).bi_queue(),
            final(self).uni_queue() == old(self).uni_queue(),
            (final(self).ids(), r.ok()) == old(self).ids().opened(true),
            final(self).next_uni() == old(self).next_uni(),
            if old(self).next_bi() < STREAM_ID_LIMIT {
                &&& r == Ok::<_, SessionError>(
                    (OpenedStream { stream_id: old(self).next_bi(), bi: true }),
                )
                &&& final(self).next_bi() == old(self).next_bi() + 4
            } else {
                &&& r == Err::<OpenedStream, _>(SessionError::Quiche(QuicheError::StreamLimit))
                &&& final(self).next_bi() == old(self).next_bi()
            },
    {
        let stream_id: u64 = self.next_bi;
        if stream_id >= STREAM_ID_LIMIT {
            return Err(SessionError::Quiche(QuicheError::StreamLimit));
        }
        self.next_bi = stream_id + 4;
        Ok(OpenedStream { stream_id, bi: true })
    }

    /// The bytes of a datagram on the connection: the header of the session precedes the data.
    pub fn send_datagram(&self, data: &[u8]) -> (r: Vec<u8>)
        requires
            self.wf(),
        ensures
            r@ == state::datagram_header(self.id()) + data@,
    {
        state::concat(self.state.header_datagram(), data)
    }

    /// What became of a datagram that was sent.
    pub fn datagram_sent(&self, res: Result<(), QuicheError>) -> (r: Result<(), SessionError>)
        ensures
            r == match res {
                Ok(_) => Ok(()),
                Err(err) => Err(SessionError::Quiche(err)),
            },
    {
        match res {
            Ok(_) => Ok(()),
            Err(err) => Err(SessionError::Quiche(err)),
        }
    }

    /// What a task that waits for a datagram gets. The header of the session is stripped from a
    /// datagram, and a datagram of another session is refused. Without a datagram the task is kept
    /// until there is one, or fails once the connection is closed.
    pub fn read_datagram(&mut self, event: DatagramEvent, waker: Waker) -> (r: Poll<
        Result<Vec<u8>, SessionError>,
    >)
        requires
            old(self).wf(),
        ensures
            final(self).wf(),
            final(self).same_streams(*old(self)),
            final(self).shared() == match event {
                DatagramEvent::Empty => old(self).shared().datagram_blocked(waker),
                _ => old(self).shared(),
            },
            match event {
                DatagramEvent::Received(bytes) => {
                    let header = state::datagram_header(old(self).id());
                    if header.is_prefix_of(bytes@) {
                        r matches Poll::Ready(Ok(data)) && data@ == bytes@.skip(header.len() as int)
                    } else {
                        r == Poll::Ready(
                            Err::<Vec<u8>, _>(
                                SessionError::WebTransport(WebTransportError::UnknownSession),
                            ),
                        )
                    }
                },
                DatagramEvent::Empty => r is Pending,
                DatagramEvent::Closed => r == Poll::Ready(
                    Err::<Vec<u8>, _>(SessionError::Closed),
                ),
            },
    {
        match event {
            DatagramEvent::Received(bytes) => Poll::Ready(self.strip(bytes.as_slice())),
            DatagramEvent::Empty => {
                self.state.block_datagram(waker);
                Poll::Pending
            },
            DatagramEvent::Closed => Poll::Ready(Err(SessionError::Closed)),
        }
    }

    /// The data of a datagram of the session.
    fn strip(&self, bytes: &[u8]) -> (r: Result<Vec<u8>, SessionError>)
        requires
            self.wf(),
        ensures
            ({
                let header = state::datagram_header(self.id());
                if header.is_prefix_of(bytes@) {
                    r matches Ok(data) && data@ == bytes@.skip(header.len() as int)
                } else {
                    r == Err::<Vec<u8>, _>(
                        SessionError::WebTransport(WebTransportError::UnknownSession),
                    )
                }
            }),
    {
        let header = self.state.header_datagram();
        if header.len() > bytes.len() {
            return Err(SessionError::WebTransport(WebTransportError::UnknownSession));
        }
        let mut i: usize = 0;
        while i < header.len()
            invariant
                i <= header@.len() <= bytes@.len(),
                forall|j: int| 0 <= j < i ==> header@[j] == bytes@[j],
                header@ == state::datagram_header(self.id()),
            decreases header@.len() - i,
        {
            if header[i] != bytes[i] {
                assert(!header@.is_prefix_of(bytes@));
                return Err(SessionError::WebTransport(WebTransportError::UnknownSession));
            }
            i = i + 1;
        }
        assert(header@ =~= bytes@.take(header@.len() as int));
        let data = state::concat(&[], vstd::slice::slice_subrange(bytes, i, bytes.len()));
        assert(data@ =~= bytes@.skip(header@.len() as int));
        Ok(data)
    }

    /// The code of the CONNECTION_CLOSE that closes the session with an error code.
    pub fn close(&self, error_code: u32) -> (r: u64)
        ensures
            r == proto::to_http3(error_code),
    {
        proto::error_to_http3(error_code)
    }

    /// How large the data of a datagram can be when the connection takes datagrams of the given
    /// size; nothing fits on a connection that takes none.
    pub fn max_datagram_size(&self, writable: Option<usize>) -> (r: usize)
        requires
            self.wf(),
        ensures
            r == ({
                let size = match writable {
                    Some(size) => size as int,
                    None => 0,
                };
                let header = state::datagram_header(self.id()).len() as int;
                if size > header {
                    size - header
                } else {
                    0
                }
            }),
    {
        let size: usize = match writable {
            Some(size) => size,
            None => 0,
        };
        size.saturating_sub(self.state.header_datagram().len())
    }
}

proof fn opened_step(ids: StreamIds, bi: bool)
    requires
        ids.wf(),
    ensures
        ({
            let (next, stream) = ids.opened(bi);
            &&& next.wf()
            &&& next.server == ids.server
            &&& ids.next_bi <= next.next_bi
            &&& ids.next_uni <= next.next_uni
            &&& stream matches Some(stream) ==> ids.gave(next, stream)
        }),
{
}

/// A stream that is opened is of its kind and of the side that opens it, whatever was opened
/// before.
pub proof fn opened_streams_have_their_kind(ids: StreamIds, kinds: Seq<bool>)
    requires
        ids.wf(),
    ensures
        ({
            let (after, streams) = opened_all(ids, kinds);
            &&& after.wf()
            &&& after.server == ids.server
            &&& ids.next_bi <= after.next_bi
            &&& ids.next_uni <= after.next_uni
            &&& forall|i: int|
                0 <= i < streams.len() ==> ids.gave(after, #[trigger] streams[i])
        }),
    decreases kinds.len(),
{
    if kinds.len() > 0 {
        opened_streams_have_their_kind(ids, kinds.drop_last());
        let (before, streams) = opened_all(ids, kinds.drop_last());
        let (after, all) = opened_all(ids, kinds);
        opened_step(before, kinds.last());
        assert forall|i: int| 0 <= i < all.len() implies ids.gave(after, #[trigger] all[i]) by {
            if i < streams.len() {
                assert(all[i] == streams[i]);
            }
        }
    }
}

/// No two streams that one side of a session opens have the same identifier, in whatever order the
/// kinds come.
pub proof fn session_streams_differ(ids: StreamIds, kinds: Seq<bool>)
    requires
        ids.wf(),
    ensures
        forall|i: int, j: int|
            0 <= i < j < opened_all(ids, kinds).1.len() ==> opened_all(ids, kinds).1[i].stream_id
                != opened_all(ids, kinds).1[j].stream_id,
    decreases kinds.len(),
{
    if kinds.len() > 0 {
        session_streams_differ(ids, kinds.drop_last());
        opened_streams_have_their_kind(ids, kinds.drop_last());
        let streams = opened_all(ids, kinds.drop_last()).1;
        let all = opened_all(ids, kinds).1;
        assert forall|i: int, j: int| 0 <= i < j < all.len() implies all[i].stream_id
            != all[j].stream_id by {
            assert(all[i] == streams[i]);
            if j < streams.len() {
                assert(all[j] == streams[j]);
            }
        }
    }
}

/// The streams of the two sides of a session differ from each other and from the CONNECT stream,
/// which is bidirectional and opened by the client.
pub proof fn sides_open_different_streams(
    session_id: u64,
    client: Seq<bool>,
    server: Seq<bool>,
    i: int,
    j: int,
)
    requires
        session_id < STREAM_ID_LIMIT,
        session_id % 4 == 0,
        0 <= i < opened_all(StreamIds::first(session_id, false), client).1.len(),
        0 <= j < opened_all(StreamIds::first(session_id, true), server).1.len(),
    ensures
        ({
            let a = opened_all(StreamIds::first(session_id, false), client).1[i];
            let b = opened_all(StreamIds::first(session_id, true), server).1[j];
            &&& a.stream_id != b.stream_id
            &&& a.stream_id != session_id
            &&& b.stream_id != session_id
        }),
{
    opened_streams_have_their_kind(StreamIds::first(session_id, false), client);
    opened_streams_have_their_kind(StreamIds::first(session_id, true), server);
}

/// The data of a datagram survives the way through the connection.
pub proof fn datagram_survives(session_id: u64, data: Seq<u8>)
    ensures
        ({
            let header = state::datagram_header(session_id);
            let datagram = header + data;
            &&& header.is_prefix_of(datagram)
            &&& datagram.skip(header.len() as int) == data
        }),
{
    let header = state::datagram_header(session_id);
    assert((header + data).take(header.len() as int) =~= header);
    assert((header + data).skip(header.len() as int) =~= data);
}

/// A datagram of one session is refused by any other.
pub proof fn foreign_datagram_is_refused(session_id: u64, other: u64, data: Seq<u8>)
    requires
        session_id < proto::VARINT_LIMIT,
        other < proto::VARINT_LIMIT,
        session_id != other,
    ensures
        !state::datagram_header(session_id).is_prefix_of(state::datagram_header(other) + data),
{
    let header = state::datagram_header(session_id);
    let foreign = state::datagram_header(other);
    if header.is_prefix_of(foreign + data) {
        proto::varint_len(session_id);
        proto::varint_len(other);
        assert(header[0] == (foreign + data)[0]);
        assert(header =~= foreign);
        proto::varint_injective(session_id, other);
    }
}

} // verus!
