//! Errors of a session over Quinn.

use vstd::prelude::*;

use crate::error::{ClientError, ReadError, SessionError, WriteError};

verus! {

/// An error of a session or of one of its streams.
#[derive(Debug)]
pub enum Error {
    /// The session failed.
    Session(SessionError),
    /// The client could not connect.
    Client(ClientError),
    /// A write failed.
    Write(WriteError),
    /// A read failed.
    Read(ReadError),
}

impl From<SessionError> for Error {
    fn from(err: SessionError) -> (r: Error) {
        Error::Session(err)
    }
}

impl vstd::std_specs::convert::FromSpecImpl<SessionError> for Error {
    open spec fn obeys_from_spec() -> bool {
        true
    }

    open spec fn from_spec(err: SessionError) -> Error {
        Error::Session(err)
    }
}

impl From<ClientError> for Error {
    fn from(err: ClientError) -> (r: Error) {
        Error::Client(err)
    }
}

impl vstd::std_specs::convert::FromSpecImpl<ClientError> for Error {
    open spec fn obeys_from_spec() -> bool {
        true
    }

    open spec fn from_spec(err: ClientError) -> Error {
        Error::Client(err)
    }
}

impl From<WriteError> for Error {
    /// A write that failed with its session is an error of the session.
    fn from(err: WriteError) -> (r: Error) {
        match err {
            WriteError::SessionError(err) => Error::Session(err),
            err => Error::Write(err),
        }
    }
}

impl vstd::std_specs::convert::FromSpecImpl<WriteError> for Error {
    open spec fn obeys_from_spec() -> bool {
        true
    }

    open spec fn from_spec(err: WriteError) -> Error {
        match err {
            WriteError::SessionError(err) => Error::Session(err),
            err => Error::Write(err),
        }
    }
}

impl From<ReadError> for Error {
    /// A read that failed with its session is an error of the session.
    fn from(err: ReadError) -> (r: Error) {
        match err {
            ReadError::SessionError(err) => Error::Session(err),
            err => Error::Read(err),
        }
    }
}

impl vstd::std_specs::convert::FromSpecImpl<ReadError> for Error {
    open spec fn obeys_from_spec() -> bool {
        true
    }

    open spec fn from_spec(err: ReadError) -> Error {
        match err {
            ReadError::SessionError(err) => Error::Session(err),
            err => Error::Read(err),
        }
    }
}

} // verus!
