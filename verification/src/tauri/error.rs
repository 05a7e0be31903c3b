//! Errors of the plugin.

use vstd::prelude::*;

use crate::text::HexError;

verus! {

/// Why a request to the plugin failed.
#[derive(Debug)]
pub enum Error {
    /// There is no session with this number.
    NoSession,
    /// There is no stream with this number, or it is in use.
    NoStream,
    /// The number of a new session is taken.
    DuplicateSession,
    /// A certificate hash is not hexadecimal.
    Hex(HexError),
    /// The session or one of its streams failed, with the reason.
    Transport(String),
}

impl From<HexError> for Error {
    fn from(err: HexError) -> (r: Error) {
        Error::Hex(err)
    }
}

impl vstd::std_specs::convert::FromSpecImpl<HexError> for Error {
    open spec fn obeys_from_spec() -> bool {
        true
    }

    open spec fn from_spec(err: HexError) -> Error {
        Error::Hex(err)
    }
}

} // verus!
