//! Stream identifiers and the ways in which a stream ends.

use vstd::prelude::*;

verus! {

/// Identifies a stream on its connection.
///
/// The two low bits say who opened the stream and whether it is bidirectional.
#[derive(Clone, Copy, Debug, PartialEq, Eq, Structural, Hash)]
pub struct StreamId(pub u64);

impl StreamId {
    /// Whether the stream is bidirectional, in a contract.
    pub open spec fn bi(self) -> bool {
        self.0 % 4 < 2
    }

    /// Whether the stream is bidirectional.
    pub fn is_bi(&self) -> (r: bool)
        ensures
            r == self.bi(),
    {
        self.0 % 4 < 2
    }
}

impl From<u64> for StreamId {
    fn from(id: u64) -> (r: StreamId) {
        StreamId(id)
    }
}

impl vstd::std_specs::convert::FromSpecImpl<u64> for StreamId {
    open spec fn obeys_from_spec() -> bool {
        true
    }

    open spec fn from_spec(id: u64) -> StreamId {
        StreamId(id)
    }
}

impl From<StreamId> for u64 {
    fn from(id: StreamId) -> (r: u64) {
        id.0
    }
}

impl vstd::std_specs::convert::FromSpecImpl<StreamId> for u64 {
    open spec fn obeys_from_spec() -> bool {
        true
    }

    open spec fn from_spec(id: StreamId) -> u64 {
        id.0
    }
}

/// Why a stream refuses to read or write.
#[derive(Clone, Copy, Debug, PartialEq, Eq, Structural)]
pub enum StreamError {
    /// RESET_STREAM, with its code.
    Reset(u64),
    /// STOP_SENDING, with its code.
    Stop(u64),
    /// The stream was finished before.
    Closed,
}

} // verus!
