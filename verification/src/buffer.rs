//! Byte buffers of the `bytes` crate.

use bytes::{Buf, Bytes, BytesMut};
use vstd::prelude::*;

verus! {

/// `bytes::Bytes`, a shared slice of bytes.
#[verifier::external_type_specification]
#[verifier::external_body]
pub struct ExBytes(Bytes);

/// `bytes::BytesMut`, a growable buffer of bytes.
#[verifier::external_type_specification]
#[verifier::external_body]
pub struct ExBytesMut(BytesMut);

/// The bytes that a `Bytes` holds.
pub uninterp spec fn bytes_of(b: Bytes) -> Seq<u8>;

/// The bytes that a `BytesMut` holds, from its start to its length.
pub uninterp spec fn bytes_mut_of(b: BytesMut) -> Seq<u8>;

/// What each buffer of a queue holds.
pub open spec fn chunks_of(queue: Seq<Bytes>) -> Seq<Seq<u8>> {
    Seq::new(queue.len(), |i: int| bytes_of(queue[i]))
}

/// `Bytes::new`: an empty buffer.
#[verifier::external_body]
pub(crate) fn bytes_new() -> (r: Bytes)
    ensures
        bytes_of(r) == Seq::<u8>::empty(),
{
    Bytes::new()
}

/// `BytesMut::new`: an empty buffer.
#[verifier::external_body]
pub(crate) fn bytes_mut_new() -> (r: BytesMut)
    ensures
        bytes_mut_of(r) == Seq::<u8>::empty(),
{
    BytesMut::new()
}

/// `Bytes::len`: the number of bytes held, which are a slice and so `isize::MAX` at the most.
#[verifier::external_body]
pub(crate) fn bytes_len(b: &Bytes) -> (r: usize)
    ensures
        r == bytes_of(*b).len(),
        r <= isize::MAX,
{
    b.len()
}

/// `Bytes::split_off`: keeps the first `at` bytes and returns the others.
#[verifier::external_body]
pub(crate) fn bytes_split_off(b: &mut Bytes, at: usize) -> (r: Bytes)
    requires
        at <= bytes_of(*old(b)).len(),
    ensures
        bytes_of(*final(b)) == bytes_of(*old(b)).take(at as int),
        bytes_of(r) == bytes_of(*old(b)).skip(at as int),
{
    b.split_off(at)
}

/// `Buf::copy_to_bytes` on a `Bytes`: takes the first `n` bytes off the front.
#[verifier::external_body]
pub(crate) fn bytes_copy_to(b: &mut Bytes, n: usize) -> (r: Bytes)
    requires
        n <= bytes_of(*old(b)).len(),
    ensures
        bytes_of(r) == bytes_of(*old(b)).take(n as int),
        bytes_of(*final(b)) == bytes_of(*old(b)).skip(n as int),
{
    b.copy_to_bytes(n)
}

/// `Bytes::copy_from_slice`: a buffer with the bytes of the slice.
#[verifier::external_body]
pub(crate) fn bytes_copy_from(data: &[u8]) -> (r: Bytes)
    ensures
        bytes_of(r) == data@,
{
    Bytes::copy_from_slice(data)
}

/// `Bytes::from` on a vector: a buffer with the bytes of the vector.
#[verifier::external_body]
pub(crate) fn bytes_from_vec(data: Vec<u8>) -> (r: Bytes)
    ensures
        bytes_of(r) == data@,
{
    Bytes::from(data)
}

/// `Bytes::deref`: the bytes held, as a slice.
#[verifier::external_body]
pub(crate) fn bytes_slice(b: &Bytes) -> (r: &[u8])
    ensures
        r@ == bytes_of(*b),
{
    b
}

/// `BytesMut::with_capacity`: an empty buffer with room for `capacity` bytes.
///
/// How much room there is in fact is left to the allocator, and nothing is said of it.
#[verifier::external_body]
pub(crate) fn bytes_mut_with_capacity(capacity: usize) -> (r: BytesMut)
    requires
        capacity <= isize::MAX,
    ensures
        bytes_mut_of(r) == Seq::<u8>::empty(),
{
    BytesMut::with_capacity(capacity)
}

/// `BytesMut::len`: the number of bytes held.
#[verifier::external_body]
pub(crate) fn bytes_mut_len(b: &BytesMut) -> (r: usize)
    ensures
        r == bytes_mut_of(*b).len(),
{
    b.len()
}

/// `BytesMut::capacity`: how many bytes fit without allocating, those held included; no allocation
/// exceeds `isize::MAX` bytes.
///
/// How much fits in fact is left to the allocator, and nothing more is said of it.
#[verifier::external_body]
pub(crate) fn bytes_mut_capacity(b: &BytesMut) -> (r: usize)
    ensures
        bytes_mut_of(*b).len() <= r <= isize::MAX,
{
    b.capacity()
}

/// `BytesMut::reserve`, and then `BytesMut::capacity`: makes room for more bytes, leaves those held
/// as they are, and tells how many bytes fit now, those held included. There may be more room than
/// was asked for, and nothing is said of how much.
#[verifier::external_body]
pub(crate) fn bytes_mut_reserve(b: &mut BytesMut, additional: usize) -> (r: usize)
    requires
        bytes_mut_of(*old(b)).len() + additional <= isize::MAX,
    ensures
        bytes_mut_of(*final(b)) == bytes_mut_of(*old(b)),
        bytes_mut_of(*old(b)).len() + additional <= r <= isize::MAX,
{
    b.reserve(additional);
    b.capacity()
}

/// `BytesMut::resize`: cuts the buffer to `len` bytes, or fills it up with `value`.
#[verifier::external_body]
pub(crate) fn bytes_mut_resize(b: &mut BytesMut, len: usize, value: u8)
    requires
        len <= isize::MAX,
    ensures
        bytes_mut_of(*final(b)) == Seq::new(
            len as nat,
            |i: int|
                if i < bytes_mut_of(*old(b)).len() {
                    bytes_mut_of(*old(b))[i]
                } else {
                    value
                },
        ),
{
    b.resize(len, value)
}

/// `BytesMut::split_to`: takes the first `at` bytes off the front.
#[verifier::external_body]
pub(crate) fn bytes_mut_split_to(b: &mut BytesMut, at: usize) -> (r: BytesMut)
    requires
        at <= bytes_mut_of(*old(b)).len(),
    ensures
        bytes_mut_of(r) == bytes_mut_of(*old(b)).take(at as int),
        bytes_mut_of(*final(b)) == bytes_mut_of(*old(b)).skip(at as int),
{
    b.split_to(at)
}

/// `BytesMut::freeze`: the same bytes, for good.
#[verifier::external_body]
pub(crate) fn bytes_mut_freeze(b: BytesMut) -> (r: Bytes)
    ensures
        bytes_of(r) == bytes_mut_of(b),
{
    b.freeze()
}

/// `BytesMut::clear`: drops all bytes held.
#[verifier::external_body]
pub(crate) fn bytes_mut_clear(b: &mut BytesMut)
    ensures
        bytes_mut_of(*final(b)) == Seq::<u8>::empty(),
{
    b.clear()
}

/// `BytesMut::extend_from_slice`: puts the bytes of the slice at the end.
#[verifier::external_body]
pub(crate) fn bytes_mut_extend(b: &mut BytesMut, data: &[u8])
    requires
        bytes_mut_of(*old(b)).len() + data@.len() <= isize::MAX,
    ensures
        bytes_mut_of(*final(b)) == bytes_mut_of(*old(b)) + data@,
{
    b.extend_from_slice(data)
}

/// `BytesMut::deref_mut`: the bytes held, as a slice to write to.
#[verifier::external_body]
pub(crate) fn bytes_mut_slice(b: &mut BytesMut) -> (r: &mut [u8])
    ensures
        r@ == bytes_mut_of(*old(b)),
        bytes_mut_of(*final(b)) == final(r)@,
{
    b
}

} // verus!
