//! The sessions that the plugin holds, and the streams of a session.

use std::collections::HashMap;

use bytes::Bytes;
use vstd::prelude::*;

use super::error::Error;
use super::rpc::{
    CloseRequest, CloseResponse, CongestionControl, ConnectRequest, ConnectResponse,
};
use crate::text;
use crate::text::HexError;

verus! {

broadcast use vstd::std_specs::hash::group_hash_axioms;

/// How a client is to be configured for a request.
pub struct ClientPlan {
    pub congestion_control: CongestionControl,
    /// The certificate hashes to accept; without them the system's roots decide.
    pub server_certificate_hashes: Option<Vec<Vec<u8>>>,
}

/// Whether `res` is what some texts decode to, one by one; the first that does not decode is an
/// error.
pub open spec fn is_unhex_all(
    hashes: Seq<String>,
    res: Result<Seq<Vec<u8>>, HexError>,
) -> bool {
    match res {
        Ok(out) => {
            &&& out.len() == hashes.len()
            &&& forall|i: int|
                0 <= i < hashes.len() ==> text::is_unhex(
                    vstd::utf8::encode_utf8(#[trigger] hashes[i]@),
                    Ok(out[i]@),
                )
        },
        Err(err) => exists|k: int|
            #![trigger hashes[k]]
            {
                &&& 0 <= k < hashes.len()
                &&& text::is_unhex(vstd::utf8::encode_utf8(hashes[k]@), Err(err))
                &&& forall|i: int|
                    0 <= i < k ==> text::is_hex(vstd::utf8::encode_utf8(#[trigger] hashes[i]@))
            },
    }
}

fn unhex_all(hashes: &Vec<String>) -> (r: Result<Vec<Vec<u8>>, HexError>)
    ensures
        is_unhex_all(
            hashes@,
            match r {
                Ok(out) => Ok(out@),
                Err(err) => Err(err),
            },
        ),
{
    let mut out: Vec<Vec<u8>> = Vec::new();
    let mut i: usize = 0;
    while i < hashes.len()
        invariant
            i <= hashes@.len(),
            out@.len() == i,
            forall|j: int|
                0 <= j < i ==> text::is_unhex(
                    vstd::utf8::encode_utf8(#[trigger] hashes@[j]@),
                    Ok(out@[j]@),
                ),
        decreases hashes@.len() - i,
    {
        match text::decode_hex(hashes[i].as_str()) {
            Ok(bytes) => {
                out.push(bytes);
            },
            Err(err) => {
                assert(hashes@[i as int] == hashes[i as int]);
                return Err(err);
            },
        }
        i = i + 1;
    }
    Ok(out)
}

/// The sessions of the plugin, by number.
///
/// `H` is a shared handle of a session.
pub struct WebTransport<H> {
    sessions: HashMap<usize, H>,
    next_session: usize,
}

/// What a [`WebTransport`] holds.
#[verifier::ext_equal]
pub ghost struct WebTransportView<H> {
    pub sessions: Map<usize, H>,
    /// The number of the next session.
    pub next_session: usize,
}

impl<H> View for WebTransport<H> {
    type V = WebTransportView<H>;

    closed spec fn view(&self) -> WebTransportView<H> {
        WebTransportView { sessions: self.sessions@, next_session: self.next_session }
    }
}

impl<H> WebTransportView<H> {
    /// Keeps a new session under the next number: the sessions afterwards, and the number.
    pub open spec fn connected(self, session: H) -> (
        WebTransportView<H>,
        Result<ConnectResponse, Error>,
    ) {
        let id = self.next_session;
        let next_session = following(id);
        if self.sessions.contains_key(id) {
            (WebTransportView { next_session, ..self }, Err(Error::DuplicateSession))
        } else {
            (
                WebTransportView { sessions: self.sessions.insert(id, session), next_session },
                Ok(ConnectResponse { session: id }),
            )
        }
    }

    /// The session with the given number.
    pub open spec fn found(self, id: usize) -> Result<H, Error> {
        if self.sessions.contains_key(id) {
            Ok(self.sessions[id])
        } else {
            Err(Error::NoSession)
        }
    }

    /// The sessions but the one with the given number.
    pub open spec fn closed(self, id: usize) -> WebTransportView<H> {
        WebTransportView { sessions: self.sessions.remove(id), ..self }
    }
}

/// The number after the given one; numbers start over once they are used up.
pub open spec fn following(n: usize) -> usize {
    if n == usize::MAX {
        0
    } else {
        (n + 1) as usize
    }
}

fn next_number(n: usize) -> (r: usize)
    ensures
        r == following(n),
{
    n.wrapping_add(1)
}

/// What closing a session asks for.
pub struct Close<H> {
    /// The session to close.
    pub session: H,
    pub code: u32,
    pub reason: String,
}

impl<H> WebTransport<H> {
    /// No sessions yet.
    pub fn new() -> (r: WebTransport<H>)
        ensures
            r@ == (WebTransportView::<H> { sessions: Map::empty(), next_session: 0 }),
    {
        let r = WebTransport { sessions: HashMap::new(), next_session: 0 };
        assert(r@ =~= (WebTransportView::<H> { sessions: Map::empty(), next_session: 0 }));
        r
    }

    /// How to configure the client for a request to connect.
    pub fn plan(payload: &ConnectRequest) -> (r: Result<ClientPlan, Error>)
        ensures
            match payload.server_certificate_hashes {
                None => r matches Ok(plan) && plan.server_certificate_hashes is None,
                Some(hashes) => match r {
                    Ok(plan) => plan.server_certificate_hashes matches Some(out) && is_unhex_all(
                        hashes@,
                        Ok(out@),
                    ),
                    Err(Error::Hex(err)) => is_unhex_all(hashes@, Err(err)),
                    Err(_) => false,
                },
            },
            r matches Ok(plan) ==> plan.congestion_control == match payload.congestion_control {
                Some(control) => control,
                None => CongestionControl::Default,
            },
    {
        let congestion_control = match payload.congestion_control {
            Some(CongestionControl::LowLatency) => CongestionControl::LowLatency,
            Some(CongestionControl::Throughput) => CongestionControl::Throughput,
            _ => CongestionControl::Default,
        };
        let server_certificate_hashes = match &payload.server_certificate_hashes {
            Some(hashes) => match unhex_all(hashes) {
                Ok(out) => Some(out),
                Err(err) => return Err(Error::Hex(err)),
            },
            None => None,
        };
        Ok(ClientPlan { congestion_control, server_certificate_hashes })
    }

    /// Keeps a session that was made under the next number. The number is used up even if it is
    /// taken.
    pub fn connect(&mut self, session: H) -> (r: Result<ConnectResponse, Error>)
        ensures
            (final(self)@, r) == old(self)@.connected(session),
    {
        let id: usize = self.next_session;
        self.next_session = next_number(id);
        if self.sessions.contains_key(&id) {
            return Err(Error::DuplicateSession);
        }
        self.sessions.insert(id, session);
        Ok(ConnectResponse { session: id })
    }

    /// The session with the given number.
    pub fn get(&self, id: usize) -> (r: Result<&H, Error>)
        ensures
            match self@.found(id) {
                Ok(session) => r == Ok::<&H, Error>(&session),
                Err(err) => r == Err::<&H, Error>(err),
            },
    {
        match self.sessions.get(&id) {
            Some(session) => Ok(session),
            None => Err(Error::NoSession),
        }
    }

    /// Forgets a session, which is to be closed with the code and the reason of the request, or
    /// without a reason if it has none.
    pub fn close(&mut self, payload: CloseRequest) -> (r: Result<
        (Close<H>, CloseResponse),
        Error,
    >)
        ensures
            match old(self)@.found(payload.session) {
                Ok(session) => r matches Ok((close, _)) && close.session == session && close.code
                    == payload.code && close.reason@ == match payload.reason {
                    Some(reason) => reason@,
                    None => ""@,
                },
                Err(err) => r == Err::<(Close<H>, CloseResponse), Error>(err),
            },
            final(self)@ == old(self)@.closed(payload.session),
    {
        match self.sessions.remove(&payload.session) {
            Some(session) => {
                assert(self@.sessions =~= old(self)@.sessions.remove(payload.session));
                let reason = match payload.reason {
                    Some(reason) => reason,
                    None => "".to_owned(),
                };
                Ok((Close { session, code: payload.code, reason }, CloseResponse {}))
            },
            None => {
                assert(self@.sessions =~= old(self)@.sessions.remove(payload.session));
                Err(Error::NoSession)
            },
        }
    }
}

/// The streams of a session, by number.
///
/// `S` and `R` are the sending and the receiving side of a stream.
pub struct Session<S, R> {
    send: HashMap<usize, S>,
    recv: HashMap<usize, R>,
    streams: usize,
}

/// What a [`Session`] holds.
#[verifier::ext_equal]
pub ghost struct SessionView<S, R> {
    pub send: Map<usize, S>,
    pub recv: Map<usize, R>,
    /// The number of the next stream.
    pub streams: usize,
}

impl<S, R> View for Session<S, R> {
    type V = SessionView<S, R>;

    closed spec fn view(&self) -> SessionView<S, R> {
        SessionView { send: self.send@, recv: self.recv@, streams: self.streams }
    }
}

/// What becomes of data that is written to a stream.
pub enum SendPlan<S> {
    /// No data: finish the stream, for good.
    Finish(S),
    /// Write all of the data, and put the stream back.
    Write(S),
}

impl<S, R> SessionView<S, R> {
    /// A session without streams.
    pub open spec fn new() -> SessionView<S, R> {
        SessionView { send: Map::empty(), recv: Map::empty(), streams: 0 }
    }

    /// A bidirectional stream under the next number.
    pub open spec fn bi_added(self, send: S, recv: R) -> SessionView<S, R> {
        SessionView {
            send: self.send.insert(self.streams, send),
            recv: self.recv.insert(self.streams, recv),
            streams: following(self.streams),
        }
    }

    /// A receiving side under the next number.
    pub open spec fn recv_added(self, recv: R) -> SessionView<S, R> {
        SessionView {
            recv: self.recv.insert(self.streams, recv),
            streams: following(self.streams),
            ..self
        }
    }

    /// A sending side under the next number.
    pub open spec fn send_added(self, send: S) -> SessionView<S, R> {
        SessionView {
            send: self.send.insert(self.streams, send),
            streams: following(self.streams),
            ..self
        }
    }
}

impl<S, R> Session<S, R> {
    /// No streams yet.
    pub fn new() -> (r: Session<S, R>)
        ensures
            r@ == SessionView::<S, R>::new(),
    {
        let r = Session { send: HashMap::new(), recv: HashMap::new(), streams: 0 };
        assert(r@ =~= SessionView::<S, R>::new());
        r
    }

    fn add_bi(&mut self, send: S, recv: R) -> (r: usize)
        ensures
            r == old(self)@.streams,
            final(self)@ == old(self)@.bi_added(send, recv),
    {
        let id: usize = self.streams;
        self.streams = next_number(id);
        self.send.insert(id, send);
        self.recv.insert(id, recv);
        id
    }

    /// Keeps a bidirectional stream that the peer opened, and returns its number.
    pub fn accept_bi(&mut self, send: S, recv: R) -> (r: usize)
        ensures
            r == old(self)@.streams,
            final(self)@ == old(self)@.bi_added(send, recv),
    {
        self.add_bi(send, recv)
    }

    /// Keeps a unidirectional stream that the peer opened, and returns its number.
    pub fn accept_uni(&mut self, recv: R) -> (r: usize)
        ensures
            r == old(self)@.streams,
            final(self)@ == old(self)@.recv_added(recv),
    {
        let id: usize = self.streams;
        self.streams = next_number(id);
        self.recv.insert(id, recv);
        id
    }

    /// Keeps a bidirectional stream that was opened, and returns its number.
    pub fn create_bi(&mut self, send: S, recv: R) -> (r: usize)
        ensures
            r == old(self)@.streams,
            final(self)@ == old(self)@.bi_added(send, recv),
    {
        self.add_bi(send, recv)
    }

    /// Keeps a unidirectional stream that was opened, and returns its number.
    pub fn create_uni(&mut self, send: S) -> (r: usize)
        ensures
            r == old(self)@.streams,
            final(self)@ == old(self)@.send_added(send),
    {
        let id: usize = self.streams;
        self.streams = next_number(id);
        self.send.insert(id, send);
        id
    }

    /// Takes the receiving side of a stream, in order to read from it.
    pub fn recv(&mut self, id: usize) -> (r: Result<R, Error>)
        ensures
            r == if old(self)@.recv.contains_key(id) {
                Ok::<R, Error>(old(self)@.recv[id])
            } else {
                Err(Error::NoStream)
            },
            final(self)@ == (SessionView { recv: old(self)@.recv.remove(id), ..old(self)@ }),
    {
        let recv = self.recv.remove(&id);
        assert(self@.recv =~= old(self)@.recv.remove(id));
        match recv {
            Some(recv) => Ok(recv),
            None => Err(Error::NoStream),
        }
    }

    /// Puts the receiving side of a stream back after something was read from it. At its end the
    /// stream is forgotten.
    pub fn received(&mut self, id: usize, recv: R, data: &Option<Bytes>)
        ensures
            final(self)@ == if *data is Some {
                SessionView { recv: old(self)@.recv.insert(id, recv), ..old(self)@ }
            } else {
                old(self)@
            },
    {
        if data.is_some() {
            self.recv.insert(id, recv);
        }
    }

    /// Takes the sending side of a stream, in order to write the data to it; no data finishes the
    /// stream.
    pub fn send(&mut self, id: usize, data: &Bytes) -> (r: Result<SendPlan<S>, Error>)
        ensures
            r == if !old(self)@.send.contains_key(id) {
                Err(Error::NoStream)
            } else if crate::buffer::bytes_of(*data).len() == 0 {
                Ok::<SendPlan<S>, Error>(SendPlan::Finish(old(self)@.send[id]))
            } else {
                Ok::<SendPlan<S>, Error>(SendPlan::Write(old(self)@.send[id]))
            },
            final(self)@ == (SessionView { send: old(self)@.send.remove(id), ..old(self)@ }),
    {
        let send = self.send.remove(&id);
        assert(self@.send =~= old(self)@.send.remove(id));
        match send {
            Some(send) => if crate::buffer::bytes_len(data) == 0 {
                Ok(SendPlan::Finish(send))
            } else {
                Ok(SendPlan::Write(send))
            },
            None => Err(Error::NoStream),
        }
    }

    /// Puts the sending side of a stream back after all of the data was written to it.
    pub fn sent(&mut self, id: usize, send: S)
        ensures
            final(self)@ == (SessionView {
                send: old(self)@.send.insert(id, send),
                ..old(self)@
            }),
    {
        self.send.insert(id, send);
    }

    /// Forgets a stream; those of its sides that there are, and that are not in use, are to be
    /// reset.
    pub fn reset(&mut self, id: usize) -> (r: (Option<S>, Option<R>))
        ensures
            r.0 == old(self)@.send.get(id),
            r.1 == old(self)@.recv.get(id),
            final(self)@ == (SessionView {
                send: old(self)@.send.remove(id),
                recv: old(self)@.recv.remove(id),
                ..old(self)@
            }),
    {
        let send = self.send.remove(&id);
        let recv = self.recv.remove(&id);
        assert(self@.send =~= old(self)@.send.remove(id));
        assert(self@.recv =~= old(self)@.recv.remove(id));
        (send, recv)
    }
}

/// A session that was made is found under its number until it is closed, and under no other; the
/// sessions that were there before are found as before.
pub proof fn session_is_found<H>(state: WebTransportView<H>, session: H, other: usize)
    ensures
        state.connected(session).1 matches Ok(made) ==> {
            let next = state.connected(session).0;
            &&& state.found(made.session) is Err
            &&& next.found(made.session) == Ok::<H, Error>(session)
            &&& other != made.session ==> next.found(other) == state.found(other)
            &&& next.closed(made.session).found(made.session) == Err::<H, Error>(Error::NoSession)
        },
{
}

/// No two sessions that are open have the same number: as long as a session is there, no new one
/// gets its number.
pub proof fn session_numbers_differ<H>(state: WebTransportView<H>, id: usize, session: H)
    requires
        state.found(id) is Ok,
    ensures
        state.connected(session).1 != Ok::<ConnectResponse, Error>(ConnectResponse { session: id }),
        state.connected(session).0.found(id) == state.found(id),
{
}

/// What happens to the sessions of the plugin.
pub ghost enum SessionStep<H> {
    /// A session is made.
    Connect(H),
    /// The session with the given number is closed.
    Close(usize),
}

impl<H> WebTransportView<H> {
    /// The sessions after some steps, one after the other, and the numbers that were given.
    pub open spec fn steps(self, steps: Seq<SessionStep<H>>) -> (WebTransportView<H>, Seq<usize>)
        decreases steps.len(),
    {
        if steps.len() == 0 {
            (self, Seq::empty())
        } else {
            let (before, numbers) = self.steps(steps.drop_last());
            match steps.last() {
                SessionStep::Connect(session) => match before.connected(session) {
                    (next, Ok(made)) => (next, numbers.push(made.session)),
                    (next, Err(_)) => (next, numbers),
                },
                SessionStep::Close(id) => (before.closed(id), numbers),
            }
        }
    }
}

/// How many sessions are made in some steps.
pub open spec fn connects<H>(steps: Seq<SessionStep<H>>) -> nat
    decreases steps.len(),
{
    if steps.len() == 0 {
        0
    } else {
        connects(steps.drop_last()) + if steps.last() is Connect {
            1nat
        } else {
            0
        }
    }
}

proof fn numbers_count_up<H>(steps: Seq<SessionStep<H>>)
    requires
        connects(steps) <= usize::MAX,
    ensures
        ({
            let start = WebTransportView::<H> { sessions: Map::empty(), next_session: 0 };
            let (next, numbers) = start.steps(steps);
            &&& next.next_session == connects(steps)
            &&& numbers.len() == connects(steps)
            &&& forall|i: int| 0 <= i < numbers.len() ==> #[trigger] numbers[i] == i
            &&& forall|id: usize| #[trigger] next.sessions.contains_key(id) ==> id
                < next.next_session
        }),
    decreases steps.len(),
{
    if steps.len() > 0 {
        numbers_count_up(steps.drop_last());
    }
}

/// Over any sequence of at most `usize::MAX` sessions, of which any may be closed at any time, each
/// gets a number, and no number is given twice.
pub proof fn session_numbers_are_given_once<H>(steps: Seq<SessionStep<H>>)
    requires
        connects(steps) <= usize::MAX,
    ensures
        ({
            let start = WebTransportView::<H> { sessions: Map::empty(), next_session: 0 };
            &&& start.steps(steps).1.no_duplicates()
            &&& start.steps(steps).1.len() == connects(steps)
        }),
{
    numbers_count_up(steps);
}

/// A stream that was accepted is found under its number, and the next one gets another number.
pub proof fn stream_is_found<S, R>(state: SessionView<S, R>, send: S, recv: R)
    ensures
        ({
            let next = state.bi_added(send, recv);
            &&& next.send.get(state.streams) == Some(send)
            &&& next.recv.get(state.streams) == Some(recv)
            &&& next.streams != state.streams
        }),
        state.recv_added(recv).recv.get(state.streams) == Some(recv),
        state.recv_added(recv).streams != state.streams,
        state.send_added(send).send.get(state.streams) == Some(send),
        state.send_added(send).streams != state.streams,
{
}

/// What happens to the streams of a session.
pub ghost enum StreamStep<S, R> {
    /// A bidirectional stream is accepted or created.
    AddBi(S, R),
    /// A unidirectional stream is accepted.
    AddRecv(R),
    /// A unidirectional stream is created.
    AddSend(S),
    /// The receiving side of a stream is taken.
    TakeRecv(usize),
    /// The receiving side of a stream is put back.
    PutRecv(usize, R),
    /// The sending side of a stream is taken.
    TakeSend(usize),
    /// The sending side of a stream is put back.
    PutSend(usize, S),
    /// A stream is reset.
    Reset(usize),
}

impl<S, R> StreamStep<S, R> {
    /// Whether the step gives a number to a stream.
    pub open spec fn adds(self) -> bool {
        self is AddBi || self is AddRecv || self is AddSend
    }
}

impl<S, R> SessionView<S, R> {
    /// The streams after a step.
    pub open spec fn step(self, step: StreamStep<S, R>) -> SessionView<S, R> {
        match step {
            StreamStep::AddBi(send, recv) => self.bi_added(send, recv),
            StreamStep::AddRecv(recv) => self.recv_added(recv),
            StreamStep::AddSend(send) => self.send_added(send),
            StreamStep::TakeRecv(id) => SessionView { recv: self.recv.remove(id), ..self },
            StreamStep::PutRecv(id, recv) => SessionView {
                recv: self.recv.insert(id, recv),
                ..self
            },
            StreamStep::TakeSend(id) => SessionView { send: self.send.remove(id), ..self },
            StreamStep::PutSend(id, send) => SessionView {
                send: self.send.insert(id, send),
                ..self
            },
            StreamStep::Reset(id) => SessionView {
                send: self.send.remove(id),
                recv: self.recv.remove(id),
                ..self
            },
        }
    }

    /// The streams after some steps, one after the other, and the numbers that were given.
    pub open spec fn steps(self, steps: Seq<StreamStep<S, R>>) -> (SessionView<S, R>, Seq<usize>)
        decreases steps.len(),
    {
        if steps.len() == 0 {
            (self, Seq::empty())
        } else {
            let (before, numbers) = self.steps(steps.drop_last());
            let next = before.step(steps.last());
            if steps.last().adds() {
                (next, numbers.push(before.streams))
            } else {
                (next, numbers)
            }
        }
    }
}

proof fn stream_numbers_count_up<S, R>(steps: Seq<StreamStep<S, R>>)
    requires
        SessionView::<S, R>::new().steps(steps).1.len() <= usize::MAX,
    ensures
        ({
            let (next, numbers) = SessionView::<S, R>::new().steps(steps);
            &&& next.streams == numbers.len()
            &&& forall|i: int| 0 <= i < numbers.len() ==> #[trigger] numbers[i] == i
        }),
    decreases steps.len(),
{
    if steps.len() > 0 {
        stream_numbers_count_up(steps.drop_last());
    }
}

/// Over any sequence of at most `usize::MAX` streams of a session, whatever happens to them in
/// between, no number is given twice.
pub proof fn stream_numbers_are_given_once<S, R>(steps: Seq<StreamStep<S, R>>)
    requires
        SessionView::<S, R>::new().steps(steps).1.len() <= usize::MAX,
    ensures
        SessionView::<S, R>::new().steps(steps).1.no_duplicates(),
{
    stream_numbers_count_up(steps);
}

} // verus!
