//! Wakes the tasks that wait for the streams of a session.

use std::task::Waker;

use url::Url;
use vstd::prelude::*;

use crate::state;
use crate::state::{ConnectionState, ConnectionStateView};

verus! {

/// The driver of a WebTransport session. It does nothing before the handshake is complete.
///
/// The state of the session, which the driver shares with the session, is handed to each step.
pub struct WebTransportDriver {
    handshake_complete: bool,
    // The address in the CONNECT request, on a server.
    url: Option<Url>,
    is_client: bool,
}

/// What a [`WebTransportDriver`] holds.
#[verifier::ext_equal]
pub ghost struct WebTransportDriverView {
    pub handshake_complete: bool,
    pub url: Option<Url>,
    pub is_client: bool,
}

impl View for WebTransportDriver {
    type V = WebTransportDriverView;

    closed spec fn view(&self) -> WebTransportDriverView {
        WebTransportDriverView {
            handshake_complete: self.handshake_complete,
            url: self.url,
            is_client: self.is_client,
        }
    }
}

impl WebTransportDriver {
    /// The driver of a client.
    pub fn new_client() -> (r: WebTransportDriver)
        ensures
            r@ == (WebTransportDriverView {
                handshake_complete: false,
                url: None,
                is_client: true,
            }),
    {
        WebTransportDriver { handshake_complete: false, url: None, is_client: true }
    }

    /// The driver of a server.
    pub fn new_server() -> (r: WebTransportDriver)
        ensures
            r@ == (WebTransportDriverView {
                handshake_complete: false,
                url: None,
                is_client: false,
            }),
    {
        WebTransportDriver { handshake_complete: false, url: None, is_client: false }
    }

    /// The connection is established, and with it the session.
    pub fn on_conn_established(&mut self)
        ensures
            final(self)@ == (WebTransportDriverView { handshake_complete: true, ..old(self)@ }),
    {
        self.handshake_complete = true;
    }

    /// Whether reads and writes are processed: once the handshake is complete.
    pub fn should_act(&self) -> (r: bool)
        ensures
            r == self@.handshake_complete,
    {
        self.handshake_complete
    }

    /// The tasks that wait to read from the given streams, one stream after the other; they are to
    /// be woken.
    pub fn process_readable_streams(&self, state: &mut ConnectionState, ids: &Vec<u64>) -> (r: Vec<
        Waker,
    >)
        ensures
            ({
                let (recv_wakers, out) = state::woken(old(state)@.recv_wakers, ids@);
                r@ == out && final(state)@ == (ConnectionStateView { recv_wakers, ..old(state)@ })
            }),
            old(state).wf() ==> final(state).wf(),
    {
        state.wake_recv_streams(ids)
    }

    /// The tasks that wait to write to the given streams, one stream after the other; they are to
    /// be woken.
    pub fn process_writable_streams(&self, state: &mut ConnectionState, ids: &Vec<u64>) -> (r: Vec<
        Waker,
    >)
        ensures
            ({
                let (send_wakers, out) = state::woken(old(state)@.send_wakers, ids@);
                r@ == out && final(state)@ == (ConnectionStateView { send_wakers, ..old(state)@ })
            }),
            old(state).wf() ==> final(state).wf(),
    {
        state.wake_send_streams(ids)
    }

    /// The tasks that wait for a datagram, which are to be woken if there is one.
    pub fn process_datagrams(&self, state: &mut ConnectionState, available: bool) -> (r: Vec<Waker>)
        ensures
            (final(state)@, r@) == if available {
                (
                    ConnectionStateView { datagram_wakers: Seq::empty(), ..old(state)@ },
                    old(state)@.datagram_wakers,
                )
            } else {
                (old(state)@, Seq::<Waker>::empty())
            },
            old(state).wf() ==> final(state).wf(),
    {
        if available {
            state.wake_datagram()
        } else {
            Vec::new()
        }
    }

    /// The connection is closing: all tasks that wait, those that write, those that read and those
    /// that wait for a datagram; they are to be woken.
    pub fn on_conn_close(&self, state: &mut ConnectionState) -> (r: (
        Vec<Waker>,
        Vec<Waker>,
        Vec<Waker>,
    ))
        ensures
            state::all_woken(old(state)@.send_wakers, r.0@),
            state::all_woken(old(state)@.recv_wakers, r.1@),
            r.2@ == old(state)@.datagram_wakers,
            final(state)@ == (ConnectionStateView {
                send_wakers: Map::empty(),
                recv_wakers: Map::empty(),
                datagram_wakers: Seq::empty(),
                ..old(state)@
            }),
            old(state).wf() ==> final(state).wf(),
    {
        let send = state.wake_all_send();
        let recv = state.wake_all_recv();
        let datagram = state.wake_datagram();
        (send, recv, datagram)
    }
}

} // verus!
