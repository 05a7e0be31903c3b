//! Drives a connection: which streams are flushed, opened and announced, and when.

use std::collections::{HashMap, VecDeque};

use vstd::prelude::*;

use super::error::{ConnectionError, QuicheError};
use super::stream::StreamId;
use crate::task::Poll;
use crate::text;

verus! {

broadcast use vstd::std_specs::hash::group_hash_axioms;

/// The driver of a connection: the streams that are open, as shared handles of their sending and
/// receiving sides, and how far it has come with its work.
pub struct Driver<S, R> {
    send: HashMap<u64, S>,
    recv: HashMap<u64, R>,
    // The streams that are still to be flushed.
    work: VecDeque<u64>,
    // Whether nothing was done, so that the driver has to wait.
    wait: bool,
    // The stream that is being opened, or that the peer is just opening.
    current: u64,
    // The sides of the stream that is being opened.
    opening_send: Option<S>,
    opening_recv: Option<R>,
}

/// What a [`Driver`] holds.
#[verifier::ext_equal]
pub ghost struct DriverView<S, R> {
    /// The sending sides of the open streams.
    pub send: Map<u64, S>,
    /// The receiving sides of the open streams.
    pub recv: Map<u64, R>,
    /// The streams that are still to be flushed, the next one first.
    pub work: Seq<u64>,
    /// Whether nothing was done so far.
    pub wait: bool,
    /// The stream that is being opened, by either side.
    pub current: u64,
    /// Its sending side, until it is open.
    pub opening_send: Option<S>,
    /// Its receiving side, until it is open.
    pub opening_recv: Option<R>,
}

/// What the driver is told while it is polled.
pub enum PollEvent<S, R> {
    /// The poll begins; whether the connection is draining.
    Start(bool),
    /// The answer to [`PollAction::PollLocal`].
    Local(Poll<ConnectionError>),
    /// The answer to [`PollAction::Close`].
    Closed(Result<(), QuicheError>),
    /// The answer to [`PollAction::IsEstablished`].
    Established(bool),
    /// The answer to [`PollAction::TakeRecv`]: the streams that wait for data.
    Recv(Vec<u64>),
    /// The answer to [`PollAction::FlushRecv`].
    RecvFlushed(Result<(), QuicheError>),
    /// The answer to [`PollAction::IsDraining`].
    Draining(bool),
    /// The answer to [`PollAction::TakeSend`]: the streams that have data to send.
    Send(Vec<u64>),
    /// The answer to [`PollAction::FlushSend`].
    SendFlushed(Result<(), QuicheError>),
    /// The answer to [`PollAction::BidiLeft`]: how many bidirectional streams the peer allows.
    BidiLeft(u64),
    /// The answer to [`PollAction::NextBi`]: the next bidirectional stream to open, if any.
    NextBi(Option<(StreamId, S, R)>),
    /// The answer to [`PollAction::OpenBi`].
    BiOpened(Result<usize, QuicheError>),
    /// The answer to [`PollAction::FlushBiSend`].
    BiSendFlushed(Result<(), QuicheError>),
    /// The answer to [`PollAction::FlushBiRecv`].
    BiRecvFlushed(Result<(), QuicheError>),
    /// The answer to [`PollAction::UniLeft`]: how many unidirectional streams the peer allows.
    UniLeft(u64),
    /// The answer to [`PollAction::NextUni`]: the next unidirectional stream to open, if any.
    NextUni(Option<(StreamId, S)>),
    /// The answer to [`PollAction::OpenUni`].
    UniOpened(Result<usize, QuicheError>),
    /// The answer to [`PollAction::FlushUni`].
    UniFlushed(Result<(), QuicheError>),
}

/// What the driver does next while it is polled.
pub enum PollAction {
    /// Ask whether the application wants to close the connection.
    PollLocal,
    /// Close the connection, with the code and the reason of [`close_frame`].
    Close(ConnectionError),
    /// Ask whether the handshake is over.
    IsEstablished,
    /// Register with the streams that wait for data and take them.
    TakeRecv,
    /// Flush the receiving side of this stream, and wake whoever waits for it.
    FlushRecv(u64),
    /// Ask whether the connection is draining or closed.
    IsDraining,
    /// Register with the streams that have data to send and take them.
    TakeSend,
    /// Flush the sending side of this stream, and wake whoever waits for it.
    FlushSend(u64),
    /// Ask how many bidirectional streams the peer still allows, and wake whoever can go on with
    /// one; see [`super::connection::DriverState::allow_bi`].
    BidiLeft,
    /// Take the next bidirectional stream that the application was given, if there is one; see
    /// [`super::connection::DriverState::take_bi`].
    NextBi,
    /// Open this stream by sending nothing on it.
    OpenBi(u64),
    /// Flush [`Driver::opening_send`] of a bidirectional stream.
    FlushBiSend,
    /// Flush [`Driver::opening_recv`] of a bidirectional stream.
    FlushBiRecv,
    /// Ask how many unidirectional streams the peer still allows, and wake whoever can go on with
    /// one; see [`super::connection::DriverState::allow_uni`].
    UniLeft,
    /// Take the next unidirectional stream that the application was given, if there is one; see
    /// [`super::connection::DriverState::take_uni`].
    NextUni,
    /// Open this stream by sending nothing on it.
    OpenUni(u64),
    /// Flush [`Driver::opening_send`] of a unidirectional stream.
    FlushUni,
    /// The poll is over.
    Return(Poll<Result<(), ConnectionError>>),
}

/// The streams of a list that are open.
pub open spec fn open_streams<H>(ids: Seq<u64>, open: Map<u64, H>) -> Seq<u64> {
    ids.filter(|id: u64| open.contains_key(id))
}

impl<S, R> DriverView<S, R> {
    /// A driver without streams.
    pub open spec fn new() -> DriverView<S, R> {
        DriverView {
            send: Map::empty(),
            recv: Map::empty(),
            work: Seq::empty(),
            wait: true,
            current: 0,
            opening_send: None,
            opening_recv: None,
        }
    }

    /// The poll ends with an error of the connection; a stream that was being opened is given up.
    pub open spec fn failed(self, err: QuicheError) -> (DriverView<S, R>, PollAction) {
        (self.given_up(), PollAction::Return(Poll::Ready(Err(ConnectionError::Quiche(err)))))
    }

    /// No stream is being opened.
    pub open spec fn given_up(self) -> DriverView<S, R> {
        DriverView { opening_send: None, opening_recv: None, ..self }
    }

    /// The poll ends: if nothing was done the driver has to wait.
    pub open spec fn ended(self) -> (DriverView<S, R>, PollAction) {
        (
            self,
            PollAction::Return(
                if self.wait {
                    Poll::Pending
                } else {
                    Poll::Ready(Ok(()))
                },
            ),
        )
    }

    /// Goes on with the next receiving side, if there is one.
    pub open spec fn next_recv(self) -> (DriverView<S, R>, PollAction) {
        if self.work.len() > 0 {
            (
                DriverView { work: self.work.drop_first(), ..self },
                PollAction::FlushRecv(self.work.first()),
            )
        } else {
            (self, PollAction::IsDraining)
        }
    }

    /// Goes on with the next sending side, if there is one.
    pub open spec fn next_send(self) -> (DriverView<S, R>, PollAction) {
        if self.work.len() > 0 {
            (
                DriverView { work: self.work.drop_first(), ..self },
                PollAction::FlushSend(self.work.first()),
            )
        } else {
            (self, PollAction::BidiLeft)
        }
    }

    /// The stream that was being opened has an open sending side.
    pub open spec fn send_open(self) -> DriverView<S, R> {
        match self.opening_send {
            Some(send) => DriverView {
                send: self.send.insert(self.current, send),
                opening_send: None,
                ..self
            },
            None => self,
        }
    }

    /// The stream that was being opened has an open receiving side.
    pub open spec fn recv_open(self) -> DriverView<S, R> {
        match self.opening_recv {
            Some(recv) => DriverView {
                recv: self.recv.insert(self.current, recv),
                opening_recv: None,
                ..self
            },
            None => self,
        }
    }

    /// One step of a poll: the driver afterwards, and what it does next.
    pub open spec fn polled(self, event: PollEvent<S, R>) -> (DriverView<S, R>, PollAction) {
        let busy = DriverView { wait: false, ..self };
        match event {
            // Check if the application wants to close the connection.
            PollEvent::Start(false) => (self, PollAction::PollLocal),
            PollEvent::Start(true) => (self, PollAction::IsEstablished),
            PollEvent::Local(Poll::Ready(err)) => (self, PollAction::Close(err)),
            PollEvent::Local(Poll::Pending) => (self, PollAction::IsEstablished),
            PollEvent::Closed(Ok(_)) => (self, PollAction::Return(Poll::Ready(Ok(())))),
            PollEvent::Closed(Err(err)) => self.failed(err),
            // Nothing is done during the handshake.
            PollEvent::Established(false) => (self, PollAction::Return(Poll::Pending)),
            PollEvent::Established(true) => (
                DriverView { wait: true, ..self },
                PollAction::TakeRecv,
            ),
            PollEvent::Recv(ids) => DriverView {
                work: open_streams(ids@, self.recv),
                ..self
            }.next_recv(),
            PollEvent::RecvFlushed(Ok(_)) => busy.next_recv(),
            PollEvent::RecvFlushed(Err(err)) => self.failed(err),
            // Nothing is sent or opened while the connection is draining or closed.
            PollEvent::Draining(true) => self.ended(),
            PollEvent::Draining(false) => (self, PollAction::TakeSend),
            PollEvent::Send(ids) => DriverView {
                work: open_streams(ids@, self.send),
                ..self
            }.next_send(),
            PollEvent::SendFlushed(Ok(_)) => busy.next_send(),
            PollEvent::SendFlushed(Err(err)) => self.failed(err),
            PollEvent::BidiLeft(left) => (
                self,
                if left > 0 {
                    PollAction::NextBi
                } else {
                    PollAction::UniLeft
                },
            ),
            PollEvent::NextBi(Some((id, send, recv))) => (
                DriverView {
                    current: id.0,
                    opening_send: Some(send),
                    opening_recv: Some(recv),
                    ..self
                },
                PollAction::OpenBi(id.0),
            ),
            PollEvent::NextBi(None) => (self, PollAction::UniLeft),
            PollEvent::BiOpened(Ok(_)) => (self, PollAction::FlushBiSend),
            PollEvent::BiOpened(Err(err)) => self.failed(err),
            PollEvent::BiSendFlushed(Ok(_)) => (self.send_open(), PollAction::FlushBiRecv),
            PollEvent::BiSendFlushed(Err(err)) => self.failed(err),
            PollEvent::BiRecvFlushed(Ok(_)) => (busy.recv_open(), PollAction::BidiLeft),
            PollEvent::BiRecvFlushed(Err(err)) => self.failed(err),
            PollEvent::UniLeft(left) => if left > 0 {
                (self, PollAction::NextUni)
            } else {
                self.ended()
            },
            PollEvent::NextUni(Some((id, send))) => (
                DriverView { current: id.0, opening_send: Some(send), ..self },
                PollAction::OpenUni(id.0),
            ),
            PollEvent::NextUni(None) => self.ended(),
            PollEvent::UniOpened(Ok(_)) => (self, PollAction::FlushUni),
            PollEvent::UniOpened(Err(err)) => self.failed(err),
            PollEvent::UniFlushed(Ok(_)) => (busy.send_open(), PollAction::UniLeft),
            PollEvent::UniFlushed(Err(err)) => self.failed(err),
        }
    }
}

impl<S, R> View for Driver<S, R> {
    type V = DriverView<S, R>;

    closed spec fn view(&self) -> DriverView<S, R> {
        DriverView {
            send: self.send@,
            recv: self.recv@,
            work: self.work@,
            wait: self.wait,
            current: self.current,
            opening_send: self.opening_send,
            opening_recv: self.opening_recv,
        }
    }
}

/// The streams of a list that are open, in the order of the list.
fn keep_open<H>(ids: &Vec<u64>, open: &HashMap<u64, H>) -> (r: VecDeque<u64>)
    ensures
        r@ == open_streams(ids@, open@),
{
    let mut out: VecDeque<u64> = VecDeque::new();
    let mut i: usize = 0;
    assert(open_streams(ids@.take(0), open@) =~= Seq::<u64>::empty()) by {
        reveal(Seq::filter);
    }
    while i < ids.len()
        invariant
            i <= ids@.len(),
            out@ == open_streams(ids@.take(i as int), open@),
        decreases ids@.len() - i,
    {
        let id: u64 = ids[i];
        assert(ids@.take(i + 1).drop_last() =~= ids@.take(i as int));
        assert(ids@.take(i + 1).last() == id);
        reveal(Seq::filter);
        if open.contains_key(&id) {
            out.push_back(id);
        }
        i = i + 1;
    }
    assert(ids@.take(i as int) =~= ids@);
    out
}

impl<S, R> Driver<S, R> {
    /// A driver without streams.
    pub fn new() -> (r: Driver<S, R>)
        ensures
            r@ == DriverView::<S, R>::new(),
    {
        let r = Driver {
            send: HashMap::new(),
            recv: HashMap::new(),
            work: VecDeque::new(),
            wait: true,
            current: 0,
            opening_send: None,
            opening_recv: None,
        };
        assert(r@ =~= DriverView::<S, R>::new());
        r
    }

    /// The sending side of an open stream.
    pub fn send(&self, id: u64) -> (r: Option<&S>)
        ensures
            r == if self@.send.contains_key(id) {
                Some(&self@.send[id])
            } else {
                None
            },
    {
        self.send.get(&id)
    }

    /// The receiving side of an open stream.
    pub fn recv(&self, id: u64) -> (r: Option<&R>)
        ensures
            r == if self@.recv.contains_key(id) {
                Some(&self@.recv[id])
            } else {
                None
            },
    {
        self.recv.get(&id)
    }

    /// The sending side of the stream that is being opened.
    pub fn opening_send(&self) -> (r: Option<&S>)
        ensures
            r == match self@.opening_send {
                Some(send) => Some(&send),
                None => None,
            },
    {
        match &self.opening_send {
            Some(send) => Some(send),
            None => None,
        }
    }

    /// The receiving side of the stream that is being opened.
    pub fn opening_recv(&self) -> (r: Option<&R>)
        ensures
            r == match self@.opening_recv {
                Some(recv) => Some(&recv),
                None => None,
            },
    {
        match &self.opening_recv {
            Some(recv) => Some(recv),
            None => None,
        }
    }

    /// One step of a poll. It starts with [`PollEvent::Start`]; the caller performs what is
    /// returned and hands back the answer, until [`PollAction::Return`].
    pub fn poll(&mut self, event: PollEvent<S, R>) -> (r: PollAction)
        ensures
            (final(self)@, r) == old(self)@.polled(event),
    {
        match event {
            PollEvent::Start(draining) => if draining {
                PollAction::IsEstablished
            } else {
                PollAction::PollLocal
            },
            PollEvent::Local(Poll::Ready(err)) => PollAction::Close(err),
            PollEvent::Local(Poll::Pending) => PollAction::IsEstablished,
            PollEvent::Closed(Ok(_)) => PollAction::Return(Poll::Ready(Ok(()))),
            PollEvent::Closed(Err(err)) => self.fail(err),
            PollEvent::Established(established) => {
                if !established {
                    return PollAction::Return(Poll::Pending);
                }
                self.wait = true;
                PollAction::TakeRecv
            },
            PollEvent::Recv(ids) => {
                self.work = keep_open(&ids, &self.recv);
                self.next_recv()
            },
            PollEvent::RecvFlushed(Ok(_)) => {
                self.wait = false;
                self.next_recv()
            },
            PollEvent::RecvFlushed(Err(err)) => self.fail(err),
            PollEvent::Draining(draining) => {
                if draining {
                    return self.end();
                }
                PollAction::TakeSend
            },
            PollEvent::Send(ids) => {
                self.work = keep_open(&ids, &self.send);
                self.next_send()
            },
            PollEvent::SendFlushed(Ok(_)) => {
                self.wait = false;
                self.next_send()
            },
            PollEvent::SendFlushed(Err(err)) => self.fail(err),
            PollEvent::BidiLeft(left) => if left > 0 {
                PollAction::NextBi
            } else {
                PollAction::UniLeft
            },
            PollEvent::NextBi(Some((id, send, recv))) => {
                self.current = id.0;
                self.opening_send = Some(send);
                self.opening_recv = Some(recv);
                PollAction::OpenBi(id.0)
            },
            PollEvent::NextBi(None) => PollAction::UniLeft,
            PollEvent::BiOpened(Ok(_)) => PollAction::FlushBiSend,
            PollEvent::BiOpened(Err(err)) => self.fail(err),
            PollEvent::BiSendFlushed(Ok(_)) => {
                self.open_send();
                PollAction::FlushBiRecv
            },
            PollEvent::BiSendFlushed(Err(err)) => self.fail(err),
            PollEvent::BiRecvFlushed(Ok(_)) => {
                self.wait = false;
                self.open_recv();
                PollAction::BidiLeft
            },
            PollEvent::BiRecvFlushed(Err(err)) => self.fail(err),
            PollEvent::UniLeft(left) => {
                if left > 0 {
                    return PollAction::NextUni;
                }
                self.end()
            },
            PollEvent::NextUni(Some((id, send))) => {
                self.current = id.0;
                self.opening_send = Some(send);
                PollAction::OpenUni(id.0)
            },
            PollEvent::NextUni(None) => self.end(),
            PollEvent::UniOpened(Ok(_)) => PollAction::FlushUni,
            PollEvent::UniOpened(Err(err)) => self.fail(err),
            PollEvent::UniFlushed(Ok(_)) => {
                self.wait = false;
                self.open_send();
                PollAction::UniLeft
            },
            PollEvent::UniFlushed(Err(err)) => self.fail(err),
        }
    }

    fn end(&mut self) -> (r: PollAction)
        ensures
            (final(self)@, r) == old(self)@.ended(),
    {
        if self.wait {
            PollAction::Return(Poll::Pending)
        } else {
            PollAction::Return(Poll::Ready(Ok(())))
        }
    }

    fn give_up(&mut self)
        ensures
            final(self)@ == old(self)@.given_up(),
    {
        self.opening_send = None;
        self.opening_recv = None;
    }

    fn fail(&mut self, err: QuicheError) -> (r: PollAction)
        ensures
            (final(self)@, r) == old(self)@.failed(err),
    {
        self.give_up();
        PollAction::Return(Poll::Ready(Err(ConnectionError::Quiche(err))))
    }

    fn next_recv(&mut self) -> (r: PollAction)
        ensures
            (final(self)@, r) == old(self)@.next_recv(),
    {
        match self.work.pop_front() {
            Some(id) => {
                assert(self@ =~= old(self)@.next_recv().0);
                PollAction::FlushRecv(id)
            },
            None => PollAction::IsDraining,
        }
    }

    fn next_send(&mut self) -> (r: PollAction)
        ensures
            (final(self)@, r) == old(self)@.next_send(),
    {
        match self.work.pop_front() {
            Some(id) => {
                assert(self@ =~= old(self)@.next_send().0);
                PollAction::FlushSend(id)
            },
            None => PollAction::BidiLeft,
        }
    }

    fn open_send(&mut self)
        ensures
            final(self)@ == old(self)@.send_open(),
    {
        if let Some(send) = self.opening_send.take() {
            self.send.insert(self.current, send);
        }
    }

    fn open_recv(&mut self)
        ensures
            final(self)@ == old(self)@.recv_open(),
    {
        if let Some(recv) = self.opening_recv.take() {
            self.recv.insert(self.current, recv);
        }
    }
}

/// What the driver is told while it reads.
pub enum ReadEvent<S, R> {
    /// The reading begins.
    Start,
    /// The answer to [`ReadAction::NextReadable`]: the next stream with something to read.
    Readable(Option<u64>),
    /// The answer to [`ReadAction::FlushRecv`].
    Flushed(Result<(), QuicheError>),
    /// The answer to [`ReadAction::NewRecv`]: the new receiving side, once it was flushed.
    NewRecv(Result<R, QuicheError>),
    /// The answer to [`ReadAction::NewSend`]: the new sending side, once it was flushed.
    NewSend(Result<S, QuicheError>),
    /// The answer to [`ReadAction::AcceptBi`] and [`ReadAction::AcceptUni`]: whether there is
    /// somebody to accept the stream.
    Accepted(bool),
}

/// What the driver does next while it reads.
pub enum ReadAction {
    /// Ask for the next stream with something to read.
    NextReadable,
    /// Flush the receiving side of this stream, and wake whoever waits for it.
    FlushRecv(u64),
    /// Make a receiving side for this stream and flush it; nobody waits for it yet.
    NewRecv(u64),
    /// Make a sending side for this stream and flush it; nobody waits for it yet.
    NewSend(u64),
    /// Hand both sides of this stream to the application.
    AcceptBi(u64),
    /// Hand the receiving side of this stream to the application.
    AcceptUni(u64),
    /// The reading is over.
    Return(Result<(), ConnectionError>),
}

/// What the driver is told while it writes.
pub enum WriteEvent {
    /// The writing begins.
    Start,
    /// The answer to [`WriteAction::NextWritable`]: the next stream that can be written to.
    Writable(Option<u64>),
    /// The answer to [`WriteAction::FlushSend`].
    Flushed(Result<(), QuicheError>),
}

/// What the driver does next while it writes.
pub enum WriteAction {
    /// Ask for the next stream that can be written to.
    NextWritable,
    /// Flush the sending side of this stream, and wake whoever waits for it.
    FlushSend(u64),
    /// The writing is over.
    Return(Result<(), ConnectionError>),
}

impl<S, R> DriverView<S, R> {
    /// One step of reading: the driver afterwards, and what it does next. A stream that is not
    /// open yet was opened by the peer: it is opened here too, and handed to the application.
    pub open spec fn read(self, event: ReadEvent<S, R>) -> (DriverView<S, R>, ReadAction) {
        match event {
            ReadEvent::Start => (self, ReadAction::NextReadable),
            ReadEvent::Readable(None) => (self, ReadAction::Return(Ok(()))),
            ReadEvent::Readable(Some(id)) => if self.recv.contains_key(id) {
                (self, ReadAction::FlushRecv(id))
            } else {
                (DriverView { current: id, ..self }, ReadAction::NewRecv(id))
            },
            ReadEvent::NewRecv(Ok(recv)) => (
                DriverView { recv: self.recv.insert(self.current, recv), ..self },
                if StreamId(self.current).bi() {
                    ReadAction::NewSend(self.current)
                } else {
                    ReadAction::AcceptUni(self.current)
                },
            ),
            ReadEvent::NewSend(Ok(send)) => (
                DriverView { send: self.send.insert(self.current, send), ..self },
                ReadAction::AcceptBi(self.current),
            ),
            ReadEvent::Flushed(Ok(_)) => (self, ReadAction::NextReadable),
            ReadEvent::Accepted(true) => (self, ReadAction::NextReadable),
            ReadEvent::Accepted(false) => (self, ReadAction::Return(Err(ConnectionError::Dropped))),
            ReadEvent::Flushed(Err(err)) | ReadEvent::NewRecv(Err(err)) | ReadEvent::NewSend(
                Err(err),
            ) => (self, ReadAction::Return(Err(ConnectionError::Quiche(err)))),
        }
    }

    /// One step of writing: what the driver does next. A stream that can be written to is open.
    pub open spec fn write(self, event: WriteEvent) -> WriteAction {
        match event {
            WriteEvent::Start => WriteAction::NextWritable,
            WriteEvent::Writable(None) => WriteAction::Return(Ok(())),
            WriteEvent::Writable(Some(id)) => if self.send.contains_key(id) {
                WriteAction::FlushSend(id)
            } else {
                WriteAction::Return(
                    Err(ConnectionError::Quiche(QuicheError::InvalidStreamState(id))),
                )
            },
            WriteEvent::Flushed(Ok(_)) => WriteAction::NextWritable,
            WriteEvent::Flushed(Err(err)) => WriteAction::Return(Err(ConnectionError::Quiche(err))),
        }
    }
}

impl<S, R> Driver<S, R> {
    /// One step of reading. It starts with [`ReadEvent::Start`]; the caller performs what is
    /// returned and hands back the answer, until [`ReadAction::Return`].
    pub fn read(&mut self, event: ReadEvent<S, R>) -> (r: ReadAction)
        ensures
            (final(self)@, r) == old(self)@.read(event),
    {
        match event {
            ReadEvent::Start => ReadAction::NextReadable,
            ReadEvent::Readable(None) => ReadAction::Return(Ok(())),
            ReadEvent::Readable(Some(id)) => {
                if self.recv.contains_key(&id) {
                    return ReadAction::FlushRecv(id);
                }
                self.current = id;
                ReadAction::NewRecv(id)
            },
            ReadEvent::NewRecv(Ok(recv)) => {
                self.recv.insert(self.current, recv);
                if StreamId(self.current).is_bi() {
                    ReadAction::NewSend(self.current)
                } else {
                    ReadAction::AcceptUni(self.current)
                }
            },
            ReadEvent::NewSend(Ok(send)) => {
                self.send.insert(self.current, send);
                ReadAction::AcceptBi(self.current)
            },
            ReadEvent::Flushed(Ok(_)) => ReadAction::NextReadable,
            ReadEvent::Accepted(accepted) => {
                if !accepted {
                    return ReadAction::Return(Err(ConnectionError::Dropped));
                }
                ReadAction::NextReadable
            },
            ReadEvent::Flushed(Err(err)) => ReadAction::Return(Err(ConnectionError::Quiche(err))),
            ReadEvent::NewRecv(Err(err)) => ReadAction::Return(Err(ConnectionError::Quiche(err))),
            ReadEvent::NewSend(Err(err)) => ReadAction::Return(Err(ConnectionError::Quiche(err))),
        }
    }

    /// One step of writing. It starts with [`WriteEvent::Start`]; the caller performs what is
    /// returned and hands back the answer, until [`WriteAction::Return`].
    pub fn write(&self, event: WriteEvent) -> (r: WriteAction)
        ensures
            r == self@.write(event),
    {
        match event {
            WriteEvent::Start => WriteAction::NextWritable,
            WriteEvent::Writable(None) => WriteAction::Return(Ok(())),
            WriteEvent::Writable(Some(id)) => {
                if self.send.contains_key(&id) {
                    return WriteAction::FlushSend(id);
                }
                WriteAction::Return(
                    Err(ConnectionError::Quiche(QuicheError::InvalidStreamState(id))),
                )
            },
            WriteEvent::Flushed(Ok(_)) => WriteAction::NextWritable,
            WriteEvent::Flushed(Err(err)) => WriteAction::Return(Err(ConnectionError::Quiche(err))),
        }
    }

    /// Whether the driver has work for the connection: always, since only a poll can tell.
    pub fn should_act(&self) -> (r: bool)
        ensures
            r,
    {
        true
    }
}

/// What the first poll of a connection, once the handshake is over, means for it: that there is
/// nothing to do is fine.
pub fn connected(polled: Poll<Result<(), ConnectionError>>) -> (r: Result<(), ConnectionError>)
    ensures
        r == match polled {
            Poll::Ready(res) => res,
            Poll::Pending => Ok(()),
        },
{
    match polled {
        Poll::Ready(res) => res,
        Poll::Pending => Ok(()),
    }
}

/// The code of the close that an error of the application's side is sent as.
pub open spec fn close_code(err: ConnectionError) -> u64 {
    match err {
        ConnectionError::Local(code, _) => code,
        ConnectionError::Dropped => 0,
        ConnectionError::Remote(code, _) => code,
        ConnectionError::Quiche(_) => 500,
        ConnectionError::Unknown(_) => 501,
    }
}

/// The reason of the close that an error of the application's side is sent as.
pub open spec fn close_reason(err: ConnectionError) -> Seq<char> {
    match err {
        ConnectionError::Local(_, reason) => reason@,
        ConnectionError::Dropped => "dropped"@,
        ConnectionError::Remote(_, reason) => reason@,
        ConnectionError::Quiche(e) => e.text_view(),
        ConnectionError::Unknown(reason) => reason@,
    }
}

/// The code and the reason of the CONNECTION_CLOSE that is sent for an error.
pub fn close_frame(err: &ConnectionError) -> (r: (u64, Vec<u8>))
    ensures
        r.0 == close_code(*err),
        r.1@ == vstd::utf8::encode_utf8(close_reason(*err)),
{
    match err {
        ConnectionError::Local(code, reason) => (*code, text::text_bytes(reason.as_str())),
        ConnectionError::Dropped => (0, text::text_bytes("dropped")),
        // This shouldn't happen, but just echo it back in case.
        ConnectionError::Remote(code, reason) => (*code, text::text_bytes(reason.as_str())),
        ConnectionError::Quiche(e) => (500, text::text_bytes(e.text().as_str())),
        ConnectionError::Unknown(reason) => (501, text::text_bytes(reason.as_str())),
    }
}

/// A CONNECTION_CLOSE, as the connection reports it.
pub struct CloseFrame {
    pub error_code: u64,
    pub reason: Vec<u8>,
}

/// Why a connection ended, once it is done: what the application closed it for; else what this
/// side, and else what the peer, sent; else the error that the connection ended with, if any.
pub fn end_of_connection(
    closed: Poll<ConnectionError>,
    local: Option<CloseFrame>,
    peer: Option<CloseFrame>,
    result: Result<(), String>,
) -> (r: ConnectionError)
    ensures
        match (closed, local, peer, result) {
            (Poll::Ready(err), _, _, _) => r == err,
            (Poll::Pending, Some(frame), _, _) => {
                &&& r matches ConnectionError::Local(code, reason)
                &&& code == frame.error_code
                &&& reason@ == text::utf8_lossy(frame.reason@)
                &&& vstd::utf8::valid_utf8(frame.reason@) ==> reason@ == vstd::utf8::decode_utf8(
                    frame.reason@,
                )
            },
            (Poll::Pending, None, Some(frame), _) => {
                &&& r matches ConnectionError::Remote(code, reason)
                &&& code == frame.error_code
                &&& reason@ == text::utf8_lossy(frame.reason@)
                &&& vstd::utf8::valid_utf8(frame.reason@) ==> reason@ == vstd::utf8::decode_utf8(
                    frame.reason@,
                )
            },
            (Poll::Pending, None, None, Err(err)) => r == ConnectionError::Unknown(err),
            (Poll::Pending, None, None, Ok(_)) => r matches ConnectionError::Unknown(reason)
                && reason@ == "no error message"@,
        },
{
    if let Poll::Ready(err) = closed {
        return err;
    }
    if let Some(frame) = local {
        let reason = text::lossy_text(frame.reason.as_slice());
        return ConnectionError::Local(frame.error_code, reason);
    }
    if let Some(frame) = peer {
        let reason = text::lossy_text(frame.reason.as_slice());
        return ConnectionError::Remote(frame.error_code, reason);
    }
    match result {
        Err(err) => ConnectionError::Unknown(err),
        Ok(_) => ConnectionError::Unknown("no error message".to_owned()),
    }
}

} // verus!
