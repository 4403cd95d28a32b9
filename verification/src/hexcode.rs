//! Hexadecimal text, through the `hex` crate.
use vstd::prelude::*;
use vstd::string::StringSliceAdditionalSpecFns;

verus! {

/// The value of an ASCII hexadecimal digit, either case.
pub open spec fn hex_digit_value(b: u8) -> Option<u8> {
    if 0x30 <= b <= 0x39 {
        Some((b - 0x30) as u8)
    } else if 0x41 <= b <= 0x46 {
        Some((b - 0x41 + 10) as u8)
    } else if 0x61 <= b <= 0x66 {
        Some((b - 0x61 + 10) as u8)
    } else {
        None
    }
}

/// What `hex::decode` returns for `text`: refused for an odd length or any byte
/// that is not a hexadecimal digit, otherwise one byte per pair of digits, high
/// digit first.
pub open spec fn hex_decoded(text: Seq<u8>) -> Option<Seq<u8>> {
    if text.len() % 2 != 0 {
        None
    } else if exists|i: int| 0 <= i < text.len() && #[trigger] hex_digit_value(text[i]) is None {
        None
    } else {
        Some(Seq::new(
            (text.len() / 2) as nat,
            |i: int| (hex_digit_value(text[2 * i])->0 * 16 + hex_digit_value(text[2 * i + 1])->0) as u8,
        ))
    }
}

/// The lower-case hexadecimal digit for a value below 16.
pub open spec fn lower_hex_digit(v: int) -> char {
    if v < 10 {
        (v + 0x30) as char
    } else {
        (v - 10 + 0x61) as char
    }
}

/// What `hex::encode` returns: two lower-case digits per byte, high digit first.
pub open spec fn hex_encoded(bytes: Seq<u8>) -> Seq<char> {
    Seq::new(
        2 * bytes.len(),
        |i: int| if i % 2 == 0 {
            lower_hex_digit((bytes[i / 2] / 16) as int)
        } else {
            lower_hex_digit((bytes[i / 2] % 16) as int)
        },
    )
}

/// `hex::decode` of the bytes of `text`, as `hex_decoded` states it.
#[verifier::external_body]
pub(crate) fn decode_hex(text: &str) -> (r: Option<Vec<u8>>)
    ensures
        match r {
            Some(v) => hex_decoded(text.spec_bytes()) == Some(v@),
            None => hex_decoded(text.spec_bytes()) is None,
        },
{
    hex::decode(text).ok()
}

/// `hex::encode`, as `hex_encoded` states it.
#[verifier::external_body]
pub(crate) fn encode_hex(bytes: &[u8]) -> (r: String)
    ensures
        r@ == hex_encoded(bytes@),
{
    hex::encode(bytes)
}

} // verus!
