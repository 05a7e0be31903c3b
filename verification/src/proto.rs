//! The WebTransport wire format: error codes, variable-length integers and headers.

use vstd::prelude::*;

verus! {

/// The first HTTP/3 error code that stands for a WebTransport error code.
pub const ERROR_FIRST: u64 = 0x52e4a40fa8db;

/// The last HTTP/3 error code that stands for a WebTransport error code.
pub const ERROR_LAST: u64 = 0x52e5ac983162;

/// One more than the largest value of a variable-length integer.
pub const VARINT_LIMIT: u64 = 0x4000_0000_0000_0000;

/// The type of a unidirectional WebTransport stream.
pub const STREAM_UNI: u64 = 0x54;

/// The type of the frame that opens a bidirectional WebTransport stream.
pub const FRAME_BI: u64 = 0x41;

/// The HTTP/3 error code that stands for a WebTransport error code: one of every 31 codes is
/// reserved.
pub open spec fn to_http3(code: u32) -> u64 {
    (ERROR_FIRST + code + code / 0x1e) as u64
}

/// The WebTransport error code that an HTTP/3 error code stands for, if it stands for one.
pub open spec fn from_http3(code: u64) -> Option<u32> {
    if code < ERROR_FIRST || code > ERROR_LAST {
        None
    } else {
        let offset = code - ERROR_FIRST;
        Some((offset - offset / 0x1f) as u32)
    }
}

/// `web_transport_proto::error_to_http3`.
#[verifier::external_body]
pub(crate) fn error_to_http3(code: u32) -> (r: u64)
    ensures
        r == to_http3(code),
{
    web_transport_proto::error_to_http3(code)
}

/// `web_transport_proto::error_from_http3`.
#[verifier::external_body]
pub(crate) fn error_from_http3(code: u64) -> (r: Option<u32>)
    ensures
        r == from_http3(code),
{
    web_transport_proto::error_from_http3(code)
}

/// An error code survives the way through HTTP/3.
pub proof fn error_code_survives(code: u32)
    ensures
        ERROR_FIRST <= to_http3(code) <= ERROR_LAST,
        from_http3(to_http3(code)) == Some(code),
{
    let c = code as int;
    assert(0 <= c <= 0xffff_ffff);
    let offset = c + c / 0x1e;
    let q = c / 0x1e;
    let m = c % 0x1e;
    assert(c == 0x1e * q + m);
    assert(offset == 0x1f * q + m);
    assert(offset / 0x1f == q);
}

/// Two error codes never stand for the same HTTP/3 error code, and their order is kept.
pub proof fn error_codes_stay_apart(a: u32, b: u32)
    ensures
        a < b ==> to_http3(a) < to_http3(b),
{
}

/// The `len` low bytes of a number, the most significant one first.
pub open spec fn big_endian(value: nat, len: nat) -> Seq<u8>
    decreases len,
{
    if len == 0 {
        Seq::empty()
    } else {
        big_endian(value / 256, (len - 1) as nat).push((value % 256) as u8)
    }
}

/// The bytes of a variable-length integer: the two high bits say how many there are.
pub open spec fn varint(value: u64) -> Seq<u8> {
    if value < 0x40 {
        big_endian(value as nat, 1)
    } else if value < 0x4000 {
        big_endian((0x4000 + value) as nat, 2)
    } else if value < 0x4000_0000 {
        big_endian((0x8000_0000 + value) as nat, 4)
    } else {
        big_endian((0xC000_0000_0000_0000 + value) as nat, 8)
    }
}

proof fn big_endian_len(value: nat, len: nat)
    ensures
        big_endian(value, len).len() == len,
    decreases len,
{
    if len > 0 {
        big_endian_len(value / 256, (len - 1) as nat);
    }
}

/// A variable-length integer takes at most eight bytes.
pub(crate) proof fn varint_short(value: u64)
    ensures
        varint(value).len() <= 8,
{
    big_endian_len(value as nat, 1);
    big_endian_len((0x4000 + value) as nat, 2);
    big_endian_len((0x8000_0000 + value) as nat, 4);
    big_endian_len((0xC000_0000_0000_0000 + value) as nat, 8);
}

/// The first byte of a variable-length integer says how long it is.
pub proof fn varint_len(value: u64)
    requires
        value < VARINT_LIMIT,
    ensures
        varint(value).len() > 0,
        varint(value).len() == (if varint(value)[0] < 0x40 {
            1nat
        } else if varint(value)[0] < 0x80 {
            2nat
        } else if varint(value)[0] < 0xC0 {
            4nat
        } else {
            8nat
        }),
{
    reveal_with_fuel(big_endian, 9);
    big_endian_len(value as nat, 1);
    big_endian_len((0x4000 + value) as nat, 2);
    big_endian_len((0x8000_0000 + value) as nat, 4);
    big_endian_len((0xC000_0000_0000_0000 + value) as nat, 8);
}

spec fn number(bytes: Seq<u8>) -> nat
    decreases bytes.len(),
{
    if bytes.len() == 0 {
        0
    } else {
        number(bytes.drop_last()) * 256 + bytes.last() as nat
    }
}

spec fn power256(len: nat) -> nat
    decreases len,
{
    if len == 0 {
        1
    } else {
        256 * power256((len - 1) as nat)
    }
}

proof fn big_endian_number(value: nat, len: nat)
    requires
        value < power256(len),
    ensures
        number(big_endian(value, len)) == value,
    decreases len,
{
    if len > 0 {
        big_endian_number(value / 256, (len - 1) as nat);
        assert(big_endian(value, len).drop_last() =~= big_endian(value / 256, (len - 1) as nat));
    }
}

/// Two numbers have the same bytes only if they are the same.
pub proof fn varint_injective(a: u64, b: u64)
    requires
        a < VARINT_LIMIT,
        b < VARINT_LIMIT,
        varint(a) == varint(b),
    ensures
        a == b,
{
    varint_number(a);
    varint_number(b);
    varint_len(a);
    varint_len(b);
}

proof fn varint_number(value: u64)
    requires
        value < VARINT_LIMIT,
    ensures
        number(varint(value)) == value + (if value < 0x40 {
            0int
        } else if value < 0x4000 {
            0x4000
        } else if value < 0x4000_0000 {
            0x8000_0000
        } else {
            0xC000_0000_0000_0000
        }),
{
    reveal_with_fuel(power256, 9);
    if value < 0x40 {
        big_endian_number(value as nat, 1);
    } else if value < 0x4000 {
        big_endian_number((0x4000 + value) as nat, 2);
    } else if value < 0x4000_0000 {
        big_endian_number((0x8000_0000 + value) as nat, 4);
    } else {
        big_endian_number((0xC000_0000_0000_0000 + value) as nat, 8);
    }
}

/// `VarInt::encode` on the `VarInt` of a number: puts the bytes of the number at the end.
#[verifier::external_body]
pub(crate) fn varint_encode(value: u64, buf: &mut Vec<u8>)
    requires
        value < VARINT_LIMIT,
    ensures
        final(buf)@ == old(buf)@ + varint(value),
{
    web_transport_proto::VarInt::try_from(value).unwrap().encode(buf)
}

/// `StreamUni::encode` on `StreamUni::WEBTRANSPORT`: puts the stream type at the end.
#[verifier::external_body]
pub(crate) fn stream_uni_encode(buf: &mut Vec<u8>)
    ensures
        final(buf)@ == old(buf)@ + varint(STREAM_UNI),
{
    web_transport_proto::StreamUni::WEBTRANSPORT.encode(buf)
}

/// `Frame::encode` on `Frame::WEBTRANSPORT`: puts the frame type at the end.
#[verifier::external_body]
pub(crate) fn frame_bi_encode(buf: &mut Vec<u8>)
    ensures
        final(buf)@ == old(buf)@ + varint(FRAME_BI),
{
    web_transport_proto::Frame::WEBTRANSPORT.encode(buf)
}

/// The bytes that `ConnectResponse::encode` makes of a status.
pub uninterp spec fn connect_response(status: u16) -> Seq<u8>;

/// `ConnectResponse::encode` on the response with a status: puts its bytes at the end.
#[verifier::external_body]
pub(crate) fn connect_response_encode(status: u16, buf: &mut Vec<u8>)
    requires
        100 <= status <= 999,
    ensures
        final(buf)@ == old(buf)@ + connect_response(status),
{
    let status = http::StatusCode::from_u16(status).unwrap();
    web_transport_proto::ConnectResponse { status }.encode(buf)
}

} // verus!
