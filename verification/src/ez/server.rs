//! The builder of a QUIC server.

use vstd::prelude::*;

use super::settings::{DefaultMetrics, Settings};

verus! {

/// Used with [`ServerBuilder`] while it has no listener.
pub struct ServerInit {}

impl Default for ServerInit {
    fn default() -> (r: ServerInit)
        ensures
            r == (ServerInit {}),
    {
        ServerInit {}
    }
}

/// A socket on which the server listens. The cookie tells the listeners of a server apart.
pub struct QuicListener<K> {
    pub socket: K,
    pub socket_cookie: u64,
}

/// Used with [`ServerBuilder`] once it has listeners.
pub struct ServerWithListener<K> {
    pub listeners: Vec<QuicListener<K>>,
}

impl<K> Default for ServerWithListener<K> {
    fn default() -> (r: ServerWithListener<K>)
        ensures
            r.listeners@ == Seq::<QuicListener<K>>::empty(),
    {
        ServerWithListener { listeners: Vec::new() }
    }
}

/// Builds a QUIC server with sane defaults.
///
/// `Q` holds the QUIC settings, `M` the metrics and `S` says whether there is a listener yet.
pub struct ServerBuilder<Q, M = DefaultMetrics, S = ServerInit> {
    pub settings: Settings<Q>,
    pub metrics: M,
    pub state: S,
}

impl<Q> Default for ServerBuilder<Q, DefaultMetrics> {
    /// A builder with default settings and default metrics.
    fn default() -> (r: ServerBuilder<Q, DefaultMetrics>)
        ensures
            r == ServerBuilder::<Q, DefaultMetrics>::made(DefaultMetrics),
    {
        ServerBuilder::with_metrics(DefaultMetrics)
    }
}

impl<Q, M> ServerBuilder<Q, M> {
    /// The builder with default settings and the given metrics, and without a listener.
    pub open spec fn made(m: M) -> ServerBuilder<Q, M> {
        ServerBuilder {
            settings: Settings { verify_peer: false, quic: None },
            metrics: m,
            state: ServerInit {  },
        }
    }

    /// A builder with default settings and the given metrics.
    ///
    /// Where metrics do not matter, use [`ServerBuilder::default`].
    pub fn with_metrics(m: M) -> (r: ServerBuilder<Q, M>)
        ensures
            r == Self::made(m),
    {
        ServerBuilder { settings: Settings::default(), metrics: m, state: ServerInit {} }
    }
}

/// With default metrics, [`ServerBuilder::with_metrics`] is [`ServerBuilder::default`].
pub proof fn default_has_default_metrics<Q>(
    with_metrics: ServerBuilder<Q, DefaultMetrics>,
    default: ServerBuilder<Q, DefaultMetrics>,
)
    requires
        call_ensures(
            ServerBuilder::<Q, DefaultMetrics>::with_metrics,
            (DefaultMetrics,),
            with_metrics,
        ),
        call_ensures(<ServerBuilder::<Q, DefaultMetrics> as Default>::default, (), default),
    ensures
        with_metrics == default,
{
}

impl<Q, M> ServerBuilder<Q, M> {
    /// The same builder, ready for listeners.
    pub(crate) fn next<K>(self) -> (r: ServerBuilder<Q, M, ServerWithListener<K>>)
        ensures
            r.settings == self.settings,
            r.metrics == self.metrics,
            r.state.listeners@ == Seq::<QuicListener<K>>::empty(),
    {
        ServerBuilder {
            settings: self.settings,
            metrics: self.metrics,
            state: ServerWithListener { listeners: Vec::new() },
        }
    }

    /// Listens with the given listener.
    pub fn with_listener<K>(self, listener: QuicListener<K>) -> (r: ServerBuilder<
        Q,
        M,
        ServerWithListener<K>,
    >)
        ensures
            r.settings == self.settings,
            r.metrics == self.metrics,
            r.state.listeners@ == seq![listener],
    {
        self.next().with_listener(listener)
    }

    /// Listens for packets on the given socket.
    pub fn with_socket<K>(self, socket: K) -> (r: ServerBuilder<Q, M, ServerWithListener<K>>)
        ensures
            r.settings == self.settings,
            r.metrics == self.metrics,
            r.state.listeners@ == seq![QuicListener { socket, socket_cookie: 0 }],
    {
        self.next().with_socket(socket)
    }

    /// Uses the given settings instead of the defaults.
    pub fn with_settings(self, settings: Settings<Q>) -> (r: Self)
        ensures
            r.settings == settings,
            r.metrics == self.metrics,
            r.state == self.state,
    {
        ServerBuilder { settings, metrics: self.metrics, state: self.state }
    }
}

impl<Q, M, K> ServerBuilder<Q, M, ServerWithListener<K>> {
    /// Listens with the given listener too.
    pub fn with_listener(self, listener: QuicListener<K>) -> (r: Self)
        ensures
            r.settings == self.settings,
            r.metrics == self.metrics,
            r.state.listeners@ == self.state.listeners@.push(listener),
    {
        let mut listeners = self.state.listeners;
        listeners.push(listener);
        ServerBuilder {
            settings: self.settings,
            metrics: self.metrics,
            state: ServerWithListener { listeners },
        }
    }

    /// Listens for packets on the given socket too. The cookie of a listener is the number of
    /// listeners before it.
    pub fn with_socket(self, socket: K) -> (r: Self)
        ensures
            r.settings == self.settings,
            r.metrics == self.metrics,
            r.state.listeners@ == self.state.listeners@.push(
                QuicListener { socket, socket_cookie: self.state.listeners@.len() as u64 },
            ),
    {
        let cookie: u64 = self.state.listeners.len() as u64;
        self.with_listener(QuicListener { socket, socket_cookie: cookie })
    }

    /// Uses the given settings instead of the defaults.
    pub fn with_settings(self, settings: Settings<Q>) -> (r: Self)
        ensures
            r.settings == settings,
            r.metrics == self.metrics,
            r.state == self.state,
    {
        ServerBuilder { settings, metrics: self.metrics, state: self.state }
    }
}

/// What happens next on a socket of a server.
pub enum SocketEvent<C, E> {
    /// The answer to [`SocketAction::Next`]: a client connects, or fails to; nothing once the
    /// socket is closed.
    Initial(Option<Result<C, E>>),
    /// The answer to [`SocketAction::Start`]: whether the server still accepts connections.
    Delivered(bool),
}

/// What a server does about it.
pub enum SocketAction<C, E> {
    /// Wait for the next client.
    Next,
    /// Start this connection and hand it to the server.
    Start(C),
    /// Stop listening on the socket.
    Return(Result<(), E>),
}

/// Each connection that a client makes on a socket is started and handed to the server, until the
/// socket is closed or fails or the server does not accept any more.
pub fn run_socket<C, E>(event: SocketEvent<C, E>) -> (r: SocketAction<C, E>)
    ensures
        r == match event {
            SocketEvent::Initial(None) => SocketAction::<C, E>::Return(Ok(())),
            SocketEvent::Initial(Some(Err(err))) => SocketAction::Return(Err(err)),
            SocketEvent::Initial(Some(Ok(conn))) => SocketAction::Start(conn),
            SocketEvent::Delivered(true) => SocketAction::Next,
            SocketEvent::Delivered(false) => SocketAction::Return(Ok(())),
        },
{
    match event {
        SocketEvent::Initial(None) => SocketAction::Return(Ok(())),
        SocketEvent::Initial(Some(Err(err))) => SocketAction::Return(Err(err)),
        SocketEvent::Initial(Some(Ok(conn))) => SocketAction::Start(conn),
        SocketEvent::Delivered(accepted) => if accepted {
            SocketAction::Next
        } else {
            SocketAction::Return(Ok(()))
        },
    }
}

} // verus!
