//! The builder of a QUIC client, and what it decides while it connects.

use vstd::prelude::*;

use super::settings::{CertificateKind, CertificatePath, DefaultMetrics, Settings};
use crate::error::IoError;

verus! {

/// Builds a QUIC client.
///
/// `Q` holds the QUIC settings, `M` the metrics and `K` is the type of a socket.
pub struct ClientBuilder<Q, M, K> {
    pub settings: Settings<Q>,
    pub socket: Option<K>,
    /// The paths of the certificate and of its private key, and its kind.
    pub tls: Option<(String, String, CertificateKind)>,
    pub metrics: M,
}

/// What a client needs in order to connect.
pub struct Dial<Q, M, K, A> {
    /// The socket to connect.
    pub socket: K,
    /// The address to connect to.
    pub remote: A,
    pub settings: Settings<Q>,
    /// The paths of the certificate and of its private key, and its kind.
    pub tls: Option<(String, String, CertificateKind)>,
    pub metrics: M,
    /// Whether to warn that the certificate of the peer is not verified.
    pub warn: bool,
}

impl<Q, K> Default for ClientBuilder<Q, DefaultMetrics, K> {
    /// A builder with default metrics; see [`ClientBuilder::with_metrics`].
    fn default() -> (r: ClientBuilder<Q, DefaultMetrics, K>)
        ensures
            r == ClientBuilder::<Q, DefaultMetrics, K>::made(DefaultMetrics),
    {
        ClientBuilder::with_metrics(DefaultMetrics)
    }
}

impl<Q, M, K> ClientBuilder<Q, M, K> {
    /// The builder with the given metrics, with default settings but that the certificate of the
    /// peer is verified, and without a socket and a certificate.
    pub open spec fn made(m: M) -> ClientBuilder<Q, M, K> {
        ClientBuilder {
            settings: Settings { verify_peer: true, quic: None },
            metrics: m,
            socket: None,
            tls: None,
        }
    }

    /// A builder with the given metrics, and with default settings but that the certificate of the
    /// peer is verified.
    pub fn with_metrics(m: M) -> (r: ClientBuilder<Q, M, K>)
        ensures
            r == Self::made(m),
    {
        let mut settings: Settings<Q> = Settings::default();
        settings.verify_peer = true;
        ClientBuilder { settings, metrics: m, socket: None, tls: None }
    }
}

/// With default metrics, [`ClientBuilder::with_metrics`] is [`ClientBuilder::default`].
pub proof fn default_has_default_metrics<Q, K>(
    with_metrics: ClientBuilder<Q, DefaultMetrics, K>,
    default: ClientBuilder<Q, DefaultMetrics, K>,
)
    requires
        call_ensures(
            ClientBuilder::<Q, DefaultMetrics, K>::with_metrics,
            (DefaultMetrics,),
            with_metrics,
        ),
        call_ensures(<ClientBuilder::<Q, DefaultMetrics, K> as Default>::default, (), default),
    ensures
        with_metrics == default,
{
}

/// The first address of a host, in a contract: that none is found is an error of its own.
pub open spec fn is_first_remote<A>(
    lookup: Result<Vec<A>, String>,
    res: Result<A, IoError>,
) -> bool {
    match lookup {
        Err(text) => res == Err::<A, IoError>(IoError::HostUnreachable(text)),
        Ok(remotes) => if remotes@.len() > 0 {
            res == Ok::<A, IoError>(remotes@[0])
        } else {
            res matches Err(IoError::HostUnreachable(text)) && text@
                == "no addresses found for host"@
        },
    }
}

/// The first of the addresses that a lookup of the host gave.
pub fn first_remote<A>(lookup: Result<Vec<A>, String>) -> (r: Result<A, IoError>)
    ensures
        is_first_remote(lookup, r),
{
    match lookup {
        Ok(mut remotes) => {
            if remotes.len() == 0 {
                return Err(IoError::HostUnreachable("no addresses found for host".to_owned()));
            }
            Ok(remotes.remove(0))
        },
        Err(text) => Err(IoError::HostUnreachable(text)),
    }
}

impl<Q, M, K> ClientBuilder<Q, M, K> {
    /// Sends and receives packets on the given socket instead of one on an ephemeral port.
    pub fn with_socket(self, socket: K) -> (r: Self)
        ensures
            r == (ClientBuilder { socket: Some(socket), ..self }),
    {
        ClientBuilder {
            socket: Some(socket),
            settings: self.settings,
            metrics: self.metrics,
            tls: self.tls,
        }
    }

    /// Uses the given settings instead of the defaults.
    ///
    /// The default [`Settings`] do not verify the certificate of the peer, which is not
    /// recommended.
    pub fn with_settings(self, settings: Settings<Q>) -> (r: Self)
        ensures
            r == (ClientBuilder { settings, ..self }),
    {
        ClientBuilder {
            settings,
            socket: self.socket,
            metrics: self.metrics,
            tls: self.tls,
        }
    }

    /// Authenticates with the given certificate.
    pub fn with_cert(self, tls: CertificatePath<'_>) -> (r: Self)
        ensures
            r.tls matches Some((cert, private_key, kind)) && cert@ == tls.cert@ && private_key@
                == tls.private_key@ && kind == tls.kind,
            r == (ClientBuilder { tls: r.tls, ..self }),
    {
        ClientBuilder {
            tls: Some((tls.cert.to_owned(), tls.private_key.to_owned(), tls.kind)),
            settings: self.settings,
            metrics: self.metrics,
            socket: self.socket,
        }
    }

    /// The address to bind a socket to before connecting: that of an ephemeral port, unless there
    /// is a socket already.
    pub fn bind(&self) -> (r: Option<&'static str>)
        ensures
            match r {
                Some(addr) => self.socket is None && addr@ == "[::]:0"@,
                None => self.socket is Some,
            },
    {
        match &self.socket {
            Some(_) => None,
            None => Some("[::]:0"),
        }
    }

    /// What is needed to connect to the first of the addresses that a lookup of the host gave.
    pub fn connect<A>(self, lookup: Result<Vec<A>, String>) -> (r: Result<
        Dial<Q, M, K, A>,
        IoError,
    >)
        requires
            self.socket is Some,
        ensures
            match r {
                Ok(dial) => {
                    &&& is_first_remote(lookup, Ok(dial.remote))
                    &&& Some(dial.socket) == self.socket
                    &&& dial.settings == self.settings
                    &&& dial.tls == self.tls
                    &&& dial.metrics == self.metrics
                    &&& dial.warn == !self.settings.verify_peer
                },
                Err(err) => is_first_remote(lookup, Err(err)),
            },
    {
        let remote = match first_remote(lookup) {
            Ok(remote) => remote,
            Err(err) => return Err(err),
        };
        let warn = !self.settings.verify_peer;
        Ok(
            Dial {
                socket: self.socket.unwrap(),
                remote,
                settings: self.settings,
                tls: self.tls,
                metrics: self.metrics,
                warn,
            },
        )
    }
}

} // verus!
