//! The builder of a WebTransport client.

use vstd::prelude::*;

use crate::connect::ConnectError;
use crate::error::IoError;
use crate::ez;
use crate::ez::client::Dial;
use crate::ez::settings::{CertificatePath, DefaultMetrics, Settings};

verus! {

/// An error returned when connecting to a WebTransport server.
#[derive(Debug)]
pub enum ClientError {
    /// The operating system failed.
    Io(IoError),
    /// The HTTP/3 settings were not understood, with the reason.
    Settings(String),
    /// The CONNECT request failed.
    Connect(ConnectError),
}

impl From<IoError> for ClientError {
    fn from(err: IoError) -> (r: ClientError) {
        ClientError::Io(err)
    }
}

impl vstd::std_specs::convert::FromSpecImpl<IoError> for ClientError {
    open spec fn obeys_from_spec() -> bool {
        true
    }

    open spec fn from_spec(err: IoError) -> ClientError {
        ClientError::Io(err)
    }
}

impl From<ConnectError> for ClientError {
    fn from(err: ConnectError) -> (r: ClientError) {
        ClientError::Connect(err)
    }
}

impl vstd::std_specs::convert::FromSpecImpl<ConnectError> for ClientError {
    open spec fn obeys_from_spec() -> bool {
        true
    }

    open spec fn from_spec(err: ConnectError) -> ClientError {
        ClientError::Connect(err)
    }
}

/// Builds a WebTransport client on top of a QUIC client.
pub struct ClientBuilder<Q, M, K>(pub ez::client::ClientBuilder<Q, M, K>);

impl<Q, K> Default for ClientBuilder<Q, DefaultMetrics, K> {
    /// A builder with default metrics; see [`ClientBuilder::with_metrics`].
    fn default() -> (r: ClientBuilder<Q, DefaultMetrics, K>)
        ensures
            r.0 == ez::client::ClientBuilder::<Q, DefaultMetrics, K>::made(DefaultMetrics),
    {
        ClientBuilder(ez::client::ClientBuilder::default())
    }
}

impl<Q, M, K> ClientBuilder<Q, M, K> {
    /// A builder with the given metrics, and with default settings but that the certificate of the
    /// peer is verified.
    pub fn with_metrics(m: M) -> (r: ClientBuilder<Q, M, K>)
        ensures
            r.0 == ez::client::ClientBuilder::<Q, M, K>::made(m),
    {
        ClientBuilder(ez::client::ClientBuilder::with_metrics(m))
    }
}

/// With default metrics, [`ClientBuilder::with_metrics`] is [`ClientBuilder::default`].
pub proof fn default_has_default_metrics<Q, K>(
    with_metrics: ClientBuilder<Q, DefaultMetrics, K>,
    default: ClientBuilder<Q, DefaultMetrics, K>,
)
    requires
        call_ensures(
            ClientBuilder::<Q, DefaultMetrics, K>::with_metrics,
            (DefaultMetrics,),
            with_metrics,
        ),
        call_ensures(<ClientBuilder::<Q, DefaultMetrics, K> as Default>::default, (), default),
    ensures
        with_metrics == default,
{
}

impl<Q, M, K> ClientBuilder<Q, M, K> {
    /// Sends and receives packets on the given socket instead of one on an ephemeral port.
    pub fn with_socket(self, socket: K) -> (r: Self)
        ensures
            r.0 == (ez::client::ClientBuilder { socket: Some(socket), ..self.0 }),
    {
        ClientBuilder(self.0.with_socket(socket))
    }

    /// Uses the given settings instead of the defaults.
    ///
    /// The default [`Settings`] do not verify the certificate of the peer, which is not
    /// recommended.
    pub fn with_settings(self, settings: Settings<Q>) -> (r: Self)
        ensures
            r.0 == (ez::client::ClientBuilder { settings, ..self.0 }),
    {
        ClientBuilder(self.0.with_settings(settings))
    }

    /// Authenticates with the given certificate.
    pub fn with_cert(self, tls: CertificatePath<'_>) -> (r: Self)
        ensures
            r.0.tls matches Some((cert, private_key, kind)) && cert@ == tls.cert@ && private_key@
                == tls.private_key@ && kind == tls.kind,
            r.0 == (ez::client::ClientBuilder { tls: r.0.tls, ..self.0 }),
    {
        ClientBuilder(self.0.with_cert(tls))
    }

    /// What is needed to connect to the first of the addresses that a lookup of the host gave; see
    /// [`crate::address::connect_target`] for the host.
    pub fn connect<A>(self, lookup: Result<Vec<A>, String>) -> (r: Result<
        Dial<Q, M, K, A>,
        ClientError,
    >)
        requires
            self.0.socket is Some,
        ensures
            match r {
                Ok(dial) => {
                    &&& ez::client::is_first_remote(lookup, Ok(dial.remote))
                    &&& Some(dial.socket) == self.0.socket
                    &&& dial.settings == self.0.settings
                    &&& dial.tls == self.0.tls
                    &&& dial.metrics == self.0.metrics
                    &&& dial.warn == !self.0.settings.verify_peer
                },
                Err(ClientError::Io(err)) => ez::client::is_first_remote(lookup, Err(err)),
                Err(_) => false,
            },
    {
        match self.0.connect(lookup) {
            Ok(dial) => Ok(dial),
            Err(err) => Err(ClientError::from(err)),
        }
    }
}

} // verus!
