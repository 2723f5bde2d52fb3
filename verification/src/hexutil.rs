//! Hexadecimal payload handling for transaction data.
//!
//! Transaction data arrives as a hex string, possibly carrying one or more
//! leading `0x` markers. The markers are stripped and the rest decoded; any
//! input that is not well-formed hex counts as an empty payload.

use vstd::prelude::*;
use vstd::string::StringSliceAdditionalSpecFns;

verus! {

/// True of an ASCII byte that is a hexadecimal digit.
pub open spec fn is_hex_digit(b: u8) -> bool {
    (0x30 <= b <= 0x39) || (0x41 <= b <= 0x46) || (0x61 <= b <= 0x66)
}

/// The numeric value of a hexadecimal digit byte.
pub open spec fn hex_digit_val(b: u8) -> u8
    recommends
        is_hex_digit(b),
{
    if 0x30 <= b <= 0x39 {
        (b - 0x30) as u8
    } else if 0x41 <= b <= 0x46 {
        (b - 0x41 + 10) as u8
    } else {
        (b - 0x61 + 10) as u8
    }
}

/// A well-formed hexadecimal input: even length, hexadecimal digits only.
pub open spec fn is_hex_input(s: Seq<u8>) -> bool {
    s.len() % 2 == 0 && forall|i: int| 0 <= i < s.len() ==> is_hex_digit(#[trigger] s[i])
}

/// The bytes a well-formed hexadecimal input encodes, two digits a byte,
/// most significant nibble first.
pub open spec fn hex_decoded(s: Seq<u8>) -> Seq<u8> {
    Seq::new(s.len() / 2, |i: int| (hex_digit_val(s[2 * i]) * 16 + hex_digit_val(s[2 * i + 1])) as u8)
}

/// Relies on hex::decode (hex 0.4): an even-length input of hexadecimal
/// digits decodes pairwise; odd length or any other byte is refused.
#[verifier::external_body]
fn hex_decode_bytes(s: &[u8]) -> (r: Option<Vec<u8>>)
    ensures
        r is Some <==> is_hex_input(s@),
        r matches Some(v) ==> v@ == hex_decoded(s@),
{
    hex::decode(s).ok()
}

/// What remains of a byte string after every leading `0x` marker is removed
/// (0x30 is the ASCII digit zero, 0x78 the ASCII letter x).
pub open spec fn strip_hex_markers(s: Seq<u8>) -> Seq<u8>
    decreases s.len(),
{
    if s.len() >= 2 && s[0] == 0x30 && s[1] == 0x78 {
        strip_hex_markers(s.skip(2))
    } else {
        s
    }
}

/// Drops every leading `0x` marker from `bytes`.
fn strip_marker_prefix(bytes: &[u8]) -> (r: &[u8])
    ensures
        r@ == strip_hex_markers(bytes@),
{
    let n: usize = bytes.len();
    let mut i: usize = 0;
    proof {
        assert(bytes@.skip(0) =~= bytes@);
    }
    while n - i >= 2 && *vstd::slice::slice_index_get(bytes, i) == 0x30
        && *vstd::slice::slice_index_get(bytes, i + 1) == 0x78
        invariant
            i <= n,
            n == bytes@.len(),
            strip_hex_markers(bytes@) == strip_hex_markers(bytes@.skip(i as int)),
        decreases n - i,
    {
        proof {
            assert(bytes@.skip(i as int).skip(2) =~= bytes@.skip(i + 2));
        }
        i = i + 2;
    }
    proof {
        assert(strip_hex_markers(bytes@.skip(i as int)) == bytes@.skip(i as int));
    }
    vstd::slice::slice_subrange(bytes, i, n)
}

/// The payload a transaction data string denotes: leading `0x` markers are
/// dropped, well-formed hex decodes, anything else counts as empty.
pub open spec fn spec_payload(data: Seq<u8>) -> Seq<u8> {
    if is_hex_input(strip_hex_markers(data)) {
        hex_decoded(strip_hex_markers(data))
    } else {
        Seq::empty()
    }
}

/// Decodes a transaction data string into its byte payload; malformed hex
/// yields an empty payload rather than an error.
pub fn decode_payload(data: &str) -> (r: Vec<u8>)
    ensures
        r@ == spec_payload(data.spec_bytes()),
{
    let bytes: &[u8] = data.as_bytes();
    let stripped = strip_marker_prefix(bytes);
    match hex_decode_bytes(stripped) {
        Some(v) => v,
        None => Vec::new(),
    }
}

} // verus!
