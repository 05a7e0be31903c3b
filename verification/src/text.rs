//! Text of numbers and of bytes.

use vstd::prelude::*;

verus! {

/// The decimal digit `d`.
pub open spec fn digit(d: nat) -> char
    recommends
        d < 10,
{
    (('0' as u32) + d) as char
}

/// The decimal digits of `n`, without leading zeros.
pub open spec fn decimal(n: nat) -> Seq<char>
    decreases n,
{
    if n < 10 {
        seq![digit(n)]
    } else {
        decimal(n / 10).push(digit(n % 10))
    }
}

/// `u64::to_string`: the number in decimal.
#[verifier::external_body]
pub(crate) fn u64_text(n: u64) -> (r: String)
    ensures
        r@ == decimal(n as nat),
{
    n.to_string()
}

/// The text that `String::from_utf8_lossy` makes of some bytes.
pub uninterp spec fn utf8_lossy(bytes: Seq<u8>) -> Seq<char>;

/// `String::from_utf8_lossy`: valid UTF-8 is decoded as it stands; each invalid sequence becomes
/// the replacement character.
#[verifier::external_body]
pub(crate) fn lossy_text(bytes: &[u8]) -> (r: String)
    ensures
        r@ == utf8_lossy(bytes@),
        vstd::utf8::valid_utf8(bytes@) ==> r@ == vstd::utf8::decode_utf8(bytes@),
{
    String::from_utf8_lossy(bytes).to_string()
}

/// The bytes of a text, in UTF-8.
pub fn text_bytes(text: &str) -> (r: Vec<u8>)
    ensures
        r@ == vstd::utf8::encode_utf8(text@),
{
    let mut out: Vec<u8> = Vec::new();
    out.extend_from_slice(text.as_bytes());
    assert(out@ =~= vstd::utf8::encode_utf8(text@));
    out
}

/// The value of a hexadecimal digit, in either case.
pub open spec fn hex_digit(c: u8) -> Option<u8> {
    if 0x30 <= c <= 0x39 {
        Some((c - 0x30) as u8)
    } else if 0x41 <= c <= 0x46 {
        Some((c - 0x41 + 10) as u8)
    } else if 0x61 <= c <= 0x66 {
        Some((c - 0x61 + 10) as u8)
    } else {
        None
    }
}

/// Why a text is not hexadecimal.
#[derive(Clone, Copy, Debug, PartialEq, Eq, Structural)]
pub enum HexError {
    /// A character that is not a hexadecimal digit.
    InvalidHexCharacter { c: char, index: usize },
    /// An odd number of digits.
    OddLength,
    /// Not as many digits as wanted.
    InvalidStringLength,
}

/// Whether some characters are pairs of hexadecimal digits.
pub open spec fn is_hex(digits: Seq<u8>) -> bool {
    &&& digits.len() % 2 == 0
    &&& forall|i: int| 0 <= i < digits.len() ==> hex_digit(#[trigger] digits[i]) is Some
}

/// Whether `res` is what some hexadecimal digits stand for: two digits make a byte. The first
/// character that is not a digit is an error, unless their number is odd.
pub open spec fn is_unhex(digits: Seq<u8>, res: Result<Seq<u8>, HexError>) -> bool {
    if digits.len() % 2 != 0 {
        res == Err::<Seq<u8>, HexError>(HexError::OddLength)
    } else {
        match res {
            Ok(bytes) => {
                &&& bytes.len() == digits.len() / 2
                &&& is_hex(digits)
                &&& forall|i: int|
                    0 <= i < bytes.len() ==> #[trigger] bytes[i] == hex_digit(digits[2 * i])->0 * 16
                        + hex_digit(digits[2 * i + 1])->0
            },
            Err(HexError::InvalidHexCharacter { c, index }) => {
                &&& index < digits.len()
                &&& hex_digit(digits[index as int]) is None
                &&& c as int == digits[index as int]
                &&& forall|i: int| 0 <= i < index ==> hex_digit(#[trigger] digits[i]) is Some
            },
            Err(_) => false,
        }
    }
}

/// The bytes of a decoded text, in a contract.
pub open spec fn unhex_view(res: Result<Vec<u8>, HexError>) -> Result<Seq<u8>, HexError> {
    match res {
        Ok(bytes) => Ok(bytes@),
        Err(err) => Err(err),
    }
}

/// `hex::decode` on the UTF-8 bytes of a text.
#[verifier::external_body]
pub(crate) fn decode_hex(text: &str) -> (r: Result<Vec<u8>, HexError>)
    ensures
        is_unhex(vstd::utf8::encode_utf8(text@), unhex_view(r)),
{
    match hex::decode(text) {
        Ok(bytes) => Ok(bytes),
        Err(hex::FromHexError::InvalidHexCharacter { c, index }) => {
            Err(HexError::InvalidHexCharacter { c, index })
        },
        Err(hex::FromHexError::OddLength) => Err(HexError::OddLength),
        Err(hex::FromHexError::InvalidStringLength) => Err(HexError::InvalidStringLength),
    }
}

} // verus!
