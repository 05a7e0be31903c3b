//! Addresses of sessions.

use url::Url;
use vstd::prelude::*;

verus! {

/// `url::Url`, a parsed address that is carried through.
#[verifier::external_type_specification]
#[verifier::external_body]
pub struct ExUrl(Url);

/// The port of an address that names none.
pub const DEFAULT_PORT: u16 = 443;

/// The host and the port that `Url::parse` finds in a text, each if the text names one; nothing if
/// the text is not an address. A port that is the default of the scheme counts as not named.
pub uninterp spec fn url_parts(text: Seq<char>) -> Option<(Option<Seq<char>>, Option<u16>)>;

/// `Url::parse`, and of its result `Url::host`, as text, and `Url::port`.
#[verifier::external_body]
pub(crate) fn parse_parts(text: &str) -> (r: Option<(Option<String>, Option<u16>)>)
    ensures
        url_parts(text@) == match r {
            Some((Some(host), port)) => Some((Some(host@), port)),
            Some((None, port)) => Some((None, port)),
            None => None,
        },
{
    let url = Url::parse(text).ok()?;
    Some((url.host().map(|host| host.to_string()), url.port()))
}

/// Where to connect for an address: its host, and its port or the default one. An address without
/// a host is nowhere.
pub fn target(host: Option<String>, port: Option<u16>) -> (r: Option<(String, u16)>)
    ensures
        r == match host {
            Some(host) => Some(
                (
                    host,
                    match port {
                        Some(port) => port,
                        None => DEFAULT_PORT,
                    },
                ),
            ),
            None => None,
        },
{
    match host {
        Some(host) => Some((host, port.unwrap_or(DEFAULT_PORT))),
        None => None,
    }
}

/// Where to connect for the text of an address.
pub fn connect_target(text: &str) -> (r: Option<(String, u16)>)
    ensures
        match url_parts(text@) {
            Some((Some(host), port)) => r matches Some((h, p)) && h@ == host && p == (match port {
                Some(port) => port,
                None => DEFAULT_PORT,
            }),
            _ => r is None,
        },
{
    match parse_parts(text) {
        Some((host, port)) => target(host, port),
        None => None,
    }
}

} // verus!
