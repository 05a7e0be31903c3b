//! Task handles and the result of a poll.

use std::task::Waker;
use vstd::prelude::*;

verus! {

/// `std::task::Waker`, carried through the state machines without being read.
#[verifier::external_type_specification]
#[verifier::external_body]
pub struct ExWaker(Waker);

/// What a poll gives: a result, or the promise that the registered waker is called later.
pub enum Poll<T> {
    Ready(T),
    Pending,
}

} // verus!
