//! Settings of a connection.

use vstd::prelude::*;

verus! {

/// The settings of a connection.
pub struct Settings<Q> {
    /// Whether the certificate of the peer is verified.
    pub verify_peer: bool,
    /// The other QUIC settings, which are handed on as they are; nothing stands for the defaults.
    pub quic: Option<Q>,
}

impl<Q> Default for Settings<Q> {
    /// The default settings, which do not verify the peer.
    fn default() -> (r: Settings<Q>)
        ensures
            r == (Settings::<Q> { verify_peer: false, quic: None }),
    {
        Settings { verify_peer: false, quic: None }
    }
}

/// The metrics of a connection of which none are wanted.
#[derive(Clone, Copy, Debug, PartialEq, Eq, Structural)]
pub struct DefaultMetrics;

/// The kind of a certificate.
#[derive(Clone, Copy, Debug, PartialEq, Eq, Structural)]
pub enum CertificateKind {
    X509,
    RawPublicKey,
}

/// Where a certificate and its private key are found.
pub struct CertificatePath<'a> {
    pub cert: &'a str,
    pub private_key: &'a str,
    pub kind: CertificateKind,
}

} // verus!
