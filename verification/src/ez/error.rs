//! Errors of the QUIC connection.

use crate::error::IoError;
use crate::text;
use vstd::prelude::*;
use vstd::string::StringExecFns;

verus! {

/// An error of the QUIC connection.
#[derive(Debug)]
pub enum QuicheError {
    /// There is no more work to do.
    Done,
    /// The operation cannot be completed in the state that the stream is in.
    InvalidStreamState(u64),
    /// The peer asked to stop sending, with this code.
    StreamStopped(u64),
    /// The peer reset the stream, with this code.
    StreamReset(u64),
    /// The stream limit of the peer was reached.
    StreamLimit,
    /// Any other error, by its text.
    Other(String),
}

impl Clone for QuicheError {
    fn clone(&self) -> (r: QuicheError)
        ensures
            r == *self,
    {
        match self {
            QuicheError::Done => QuicheError::Done,
            QuicheError::InvalidStreamState(id) => QuicheError::InvalidStreamState(*id),
            QuicheError::StreamStopped(code) => QuicheError::StreamStopped(*code),
            QuicheError::StreamReset(code) => QuicheError::StreamReset(*code),
            QuicheError::StreamLimit => QuicheError::StreamLimit,
            QuicheError::Other(text) => QuicheError::Other(text.clone()),
        }
    }
}

/// A name with a number in round brackets.
pub open spec fn numbered(name: Seq<char>, n: u64) -> Seq<char> {
    name + "("@ + text::decimal(n as nat) + ")"@
}

fn numbered_text(name: &str, n: u64) -> (r: String)
    ensures
        r@ == numbered(name@, n),
{
    let mut out: String = name.to_owned();
    out.append("(");
    out.append(text::u64_text(n).as_str());
    out.append(")");
    out
}

impl QuicheError {
    /// The text of the error, in a contract.
    pub open spec fn text_view(self) -> Seq<char> {
        match self {
            QuicheError::Done => "Done"@,
            QuicheError::InvalidStreamState(id) => numbered("InvalidStreamState"@, id),
            QuicheError::StreamStopped(code) => numbered("StreamStopped"@, code),
            QuicheError::StreamReset(code) => numbered("StreamReset"@, code),
            QuicheError::StreamLimit => "StreamLimit"@,
            QuicheError::Other(text) => text@,
        }
    }

    /// The text of the error.
    pub fn text(&self) -> (r: String)
        ensures
            r@ == self.text_view(),
    {
        match self {
            QuicheError::Done => "Done".to_owned(),
            QuicheError::InvalidStreamState(id) => numbered_text("InvalidStreamState", *id),
            QuicheError::StreamStopped(code) => numbered_text("StreamStopped", *code),
            QuicheError::StreamReset(code) => numbered_text("StreamReset", *code),
            QuicheError::StreamLimit => "StreamLimit".to_owned(),
            QuicheError::Other(text) => text.clone(),
        }
    }
}

/// Why a connection ended, split by the side that ended it.
#[derive(Debug)]
pub enum ConnectionError {
    /// The QUIC connection failed.
    Quiche(QuicheError),
    /// The peer closed the connection, with a code and a reason.
    Remote(u64, String),
    /// The application closed the connection, with a code and a reason.
    Local(u64, String),
    /// All references to the connection were dropped without an explicit close.
    Dropped,
    /// The connection ended for an unknown reason.
    Unknown(String),
}

impl Clone for ConnectionError {
    fn clone(&self) -> (r: ConnectionError)
        ensures
            r == *self,
    {
        match self {
            ConnectionError::Quiche(e) => ConnectionError::Quiche(e.clone()),
            ConnectionError::Remote(code, reason) => ConnectionError::Remote(*code, reason.clone()),
            ConnectionError::Local(code, reason) => ConnectionError::Local(*code, reason.clone()),
            ConnectionError::Dropped => ConnectionError::Dropped,
            ConnectionError::Unknown(reason) => ConnectionError::Unknown(reason.clone()),
        }
    }
}

impl From<QuicheError> for ConnectionError {
    fn from(e: QuicheError) -> (r: ConnectionError) {
        ConnectionError::Quiche(e)
    }
}

impl vstd::std_specs::convert::FromSpecImpl<QuicheError> for ConnectionError {
    open spec fn obeys_from_spec() -> bool {
        true
    }

    open spec fn from_spec(e: QuicheError) -> ConnectionError {
        ConnectionError::Quiche(e)
    }
}

/// An error when writing to a QUIC stream.
#[derive(Debug)]
pub enum SendError {
    /// The connection ended.
    Connection(ConnectionError),
    /// The peer asked to stop, with this code.
    Stop(u64),
}

/// An error when reading from a QUIC stream.
#[derive(Debug)]
pub enum RecvError {
    /// The connection ended.
    Connection(ConnectionError),
    /// The peer reset the stream, with this code.
    Reset(u64),
    /// The stream is closed.
    Closed,
}

/// An error when accepting a QUIC connection.
#[derive(Debug)]
pub enum ServerError {
    /// The QUIC connection failed.
    Quiche(QuicheError),
    /// The operating system failed.
    IoError(IoError),
}

/// The text of an error names it, with its number in full; an error that is known by its text alone
/// has that text.
pub proof fn error_is_named(err: QuicheError, name: String, n: u64)
    requires
        call_ensures(QuicheError::text, (&err,), name),
    ensures
        err == QuicheError::Done ==> name@ == "Done"@,
        err == QuicheError::StreamLimit ==> name@ == "StreamLimit"@,
        err == QuicheError::InvalidStreamState(n) ==> name@ == "InvalidStreamState("@
            + text::decimal(n as nat) + ")"@,
        err == QuicheError::StreamStopped(n) ==> name@ == "StreamStopped("@ + text::decimal(
            n as nat,
        ) + ")"@,
        err == QuicheError::StreamReset(n) ==> name@ == "StreamReset("@ + text::decimal(n as nat)
            + ")"@,
        err matches QuicheError::Other(text) ==> name@ == text@,
{
    reveal_strlit("(");
    reveal_strlit("InvalidStreamState");
    reveal_strlit("InvalidStreamState(");
    reveal_strlit("StreamStopped");
    reveal_strlit("StreamStopped(");
    reveal_strlit("StreamReset");
    reveal_strlit("StreamReset(");
    assert("InvalidStreamState"@ + "("@ =~= "InvalidStreamState("@);
    assert("StreamStopped"@ + "("@ =~= "StreamStopped("@);
    assert("StreamReset"@ + "("@ =~= "StreamReset("@);
}

} // verus!
