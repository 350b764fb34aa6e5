//! Hex text as the attestation evidence and the measurement registers carry it.
use crate::error::GatewayError;
use vstd::prelude::*;
use vstd::string::StringSliceAdditionalSpecFns;

verus! {

/// The error that `hex::decode` reports.
#[verifier::external_type_specification]
#[verifier::external_body]
pub struct ExFromHexError(hex::FromHexError);

/// An ASCII hex digit, of either case.
pub open spec fn is_hex_digit(c: u8) -> bool {
    (0x30 <= c <= 0x39) || (0x41 <= c <= 0x46) || (0x61 <= c <= 0x66)
}

/// The value of a hex digit.
pub open spec fn hex_digit_value(c: u8) -> int {
    if 0x30 <= c <= 0x39 {
        c - 0x30
    } else if 0x41 <= c <= 0x46 {
        c - 0x41 + 10
    } else {
        c - 0x61 + 10
    }
}

/// Text that decodes: an even number of hex digits.
pub open spec fn is_hex(s: Seq<u8>) -> bool {
    &&& s.len() % 2 == 0
    &&& forall|i: int| 0 <= i < s.len() ==> is_hex_digit(#[trigger] s[i])
}

/// The bytes that hex text stands for: one per pair of digits, high nibble first.
pub open spec fn hex_decoded(s: Seq<u8>) -> Seq<u8> {
    Seq::new(
        s.len() / 2,
        |i: int| (16 * hex_digit_value(s[2 * i]) + hex_digit_value(s[2 * i + 1])) as u8,
    )
}

pub open spec fn lower_hex_digits() -> Seq<char> {
    seq!['0', '1', '2', '3', '4', '5', '6', '7', '8', '9', 'a', 'b', 'c', 'd', 'e', 'f']
}

/// Lowercase hex text of some bytes: two digits per byte, high nibble first.
pub open spec fn hex_encoded(b: Seq<u8>) -> Seq<char> {
    Seq::new(
        2 * b.len(),
        |i: int|
            if i % 2 == 0 {
                lower_hex_digits()[b[i / 2] as int / 16]
            } else {
                lower_hex_digits()[b[i / 2] as int % 16]
            },
    )
}

/// Relies on `hex::decode`: it accepts exactly the even-length inputs made of
/// hex digits of either case, and returns one byte per pair, high nibble first.
#[verifier::external_body]
fn hex_decode(data: &[u8]) -> (r: Result<Vec<u8>, hex::FromHexError>)
    ensures
        r is Ok <==> is_hex(data@),
        r is Ok ==> r->Ok_0@ == hex_decoded(data@),
{
    hex::decode(data)
}

/// Relies on `hex::encode`: two lowercase digits per byte, high nibble first.
#[verifier::external_body]
pub(crate) fn hex_encode(data: &[u8]) -> (r: String)
    ensures
        r@ == hex_encoded(data@),
{
    hex::encode(data)
}

/// Decodes hex-encoded attestation evidence into the binary quote.
pub fn decode_quote(quote_hex: &str) -> (r: Result<Vec<u8>, GatewayError>)
    ensures
        match r {
            Ok(quote) => is_hex(quote_hex.spec_bytes()) && quote@ == hex_decoded(
                quote_hex.spec_bytes(),
            ),
            Err(e) => !is_hex(quote_hex.spec_bytes()) && e == GatewayError::MalformedEvidence,
        },
{
    match hex_decode(quote_hex.as_bytes()) {
        Ok(quote) => Ok(quote),
        Err(_) => Err(GatewayError::MalformedEvidence),
    }
}

} // verus!
