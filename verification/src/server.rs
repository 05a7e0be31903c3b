//! The builder of a WebTransport server, and the choice among its incoming requests.

use vstd::prelude::*;

use crate::connect::ConnectError;
use crate::error::IoError;
use crate::ez::server::{QuicListener, ServerInit, ServerWithListener};
use crate::ez::settings::{DefaultMetrics, Settings};

verus! {

/// An error returned when accepting a WebTransport session.
#[derive(Debug)]
pub enum ServerError {
    /// The operating system failed.
    Io(IoError),
    /// The HTTP/3 settings were not understood, with the reason.
    Settings(String),
    /// The CONNECT request failed.
    Connect(ConnectError),
}

impl From<IoError> for ServerError {
    fn from(err: IoError) -> (r: ServerError) {
        ServerError::Io(err)
    }
}

impl vstd::std_specs::convert::FromSpecImpl<IoError> for ServerError {
    open spec fn obeys_from_spec() -> bool {
        true
    }

    open spec fn from_spec(err: IoError) -> ServerError {
        ServerError::Io(err)
    }
}

impl From<ConnectError> for ServerError {
    fn from(err: ConnectError) -> (r: ServerError) {
        ServerError::Connect(err)
    }
}

impl vstd::std_specs::convert::FromSpecImpl<ConnectError> for ServerError {
    open spec fn obeys_from_spec() -> bool {
        true
    }

    open spec fn from_spec(err: ConnectError) -> ServerError {
        ServerError::Connect(err)
    }
}

/// Builds a WebTransport server on top of a QUIC server.
pub struct ServerBuilder<Q, M = DefaultMetrics, S = ServerInit>(
    pub crate::ez::server::ServerBuilder<Q, M, S>,
);

impl<Q> Default for ServerBuilder<Q, DefaultMetrics> {
    /// A builder with default settings and default metrics.
    fn default() -> (r: ServerBuilder<Q, DefaultMetrics>)
        ensures
            r.0 == crate::ez::server::ServerBuilder::<Q, DefaultMetrics>::made(DefaultMetrics),
    {
        ServerBuilder(crate::ez::server::ServerBuilder::default())
    }
}

impl<Q, M> ServerBuilder<Q, M> {
    /// A builder with default settings and the given metrics.
    pub fn new(m: M) -> (r: ServerBuilder<Q, M>)
        ensures
            r.0 == crate::ez::server::ServerBuilder::<Q, M>::made(m),
    {
        ServerBuilder(crate::ez::server::ServerBuilder::with_metrics(m))
    }
}

/// With default metrics, [`ServerBuilder::new`] is [`ServerBuilder::default`].
pub proof fn default_has_default_metrics<Q>(
    with_metrics: ServerBuilder<Q, DefaultMetrics>,
    default: ServerBuilder<Q, DefaultMetrics>,
)
    requires
        call_ensures(ServerBuilder::<Q, DefaultMetrics>::new, (DefaultMetrics,), with_metrics),
        call_ensures(<ServerBuilder::<Q, DefaultMetrics> as Default>::default, (), default),
    ensures
        with_metrics == default,
{
}

impl<Q, M> ServerBuilder<Q, M> {
    /// Listens with the given listener.
    pub fn with_listener<K>(self, listener: QuicListener<K>) -> (r: ServerBuilder<
        Q,
        M,
        ServerWithListener<K>,
    >)
        ensures
            r.0.settings == self.0.settings,
            r.0.metrics == self.0.metrics,
            r.0.state.listeners@ == seq![listener],
    {
        ServerBuilder(self.0.with_listener(listener))
    }

    /// Listens for packets on the given socket.
    pub fn with_socket<K>(self, socket: K) -> (r: ServerBuilder<Q, M, ServerWithListener<K>>)
        ensures
            r.0.settings == self.0.settings,
            r.0.metrics == self.0.metrics,
            r.0.state.listeners@ == seq![QuicListener { socket, socket_cookie: 0 }],
    {
        ServerBuilder(self.0.with_socket(socket))
    }

    /// Uses the given settings instead of the defaults.
    pub fn with_settings(self, settings: Settings<Q>) -> (r: Self)
        ensures
            r.0.settings == settings,
            r.0.metrics == self.0.metrics,
            r.0.state == self.0.state,
    {
        ServerBuilder(self.0.with_settings(settings))
    }
}

impl<Q, M, K> ServerBuilder<Q, M, ServerWithListener<K>> {
    /// Listens with the given listener too.
    pub fn with_listener(self, listener: QuicListener<K>) -> (r: Self)
        ensures
            r.0.settings == self.0.settings,
            r.0.metrics == self.0.metrics,
            r.0.state.listeners@ == self.0.state.listeners@.push(listener),
    {
        ServerBuilder(self.0.with_listener(listener))
    }

    /// Listens for packets on the given socket too.
    pub fn with_socket(self, socket: K) -> (r: Self)
        ensures
            r.0.settings == self.0.settings,
            r.0.metrics == self.0.metrics,
            r.0.state.listeners@ == self.0.state.listeners@.push(
                QuicListener { socket, socket_cookie: self.0.state.listeners@.len() as u64 },
            ),
    {
        ServerBuilder(self.0.with_socket(socket))
    }

    /// Uses the given settings instead of the defaults.
    pub fn with_settings(self, settings: Settings<Q>) -> (r: Self)
        ensures
            r.0.settings == settings,
            r.0.metrics == self.0.metrics,
            r.0.state == self.0.state,
    {
        ServerBuilder(self.0.with_settings(settings))
    }
}

/// What happens next while a server waits for a request.
pub enum AcceptEvent<C, R, E> {
    /// A client connected.
    Connected(C),
    /// The HTTP/3 handshake of a connection ended.
    Handshake(Result<R, E>),
    /// The server shuts down and no handshake is under way.
    Exhausted,
}

/// What a server does about it.
pub enum AcceptAction<C, R, E> {
    /// Start the HTTP/3 handshake on this connection, and go on waiting.
    Start(C),
    /// Leave the failed handshake aside, and go on waiting.
    Ignore(E),
    /// Stop waiting, with a request or because there is none left.
    Return(Option<R>),
}

/// A request is accepted once its handshake succeeds; a handshake that fails is ignored.
pub fn accept<C, R, E>(event: AcceptEvent<C, R, E>) -> (r: AcceptAction<C, R, E>)
    ensures
        r == match event {
            AcceptEvent::Connected(conn) => AcceptAction::<C, R, E>::Start(conn),
            AcceptEvent::Handshake(Ok(request)) => AcceptAction::Return(Some(request)),
            AcceptEvent::Handshake(Err(err)) => AcceptAction::Ignore(err),
            AcceptEvent::Exhausted => AcceptAction::Return(None),
        },
{
    match event {
        AcceptEvent::Connected(conn) => AcceptAction::Start(conn),
        AcceptEvent::Handshake(Ok(request)) => AcceptAction::Return(Some(request)),
        AcceptEvent::Handshake(Err(err)) => AcceptAction::Ignore(err),
        AcceptEvent::Exhausted => AcceptAction::Return(None),
    }
}

} // verus!
