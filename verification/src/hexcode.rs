//! Hexadecimal codec for byte strings.
//!
//! Decoding follows the conventions of the `rustc_serialize` hex codec it is
//! built on: pairs of hex digits (either case) become bytes, the four ASCII
//! whitespace characters are skipped, any other character is reported with its
//! position, and an odd count of digits is a length error of its own.

use vstd::prelude::*;

verus! {

/// A hex decoding failure.
#[derive(Clone, Copy, Debug, PartialEq, Eq, Structural)]
pub enum HexError {
    /// A character that is neither a hex digit nor skipped whitespace,
    /// with its position in the input.
    InvalidChar(char, usize),
    /// The input held an odd number of hex digits.
    OddLength,
}

/// Whitespace that the decoder skips.
pub open spec fn is_hex_ws(c: char) -> bool {
    c == ' ' || c == '\r' || c == '\n' || c == '\t'
}

/// A hex digit, in either case.
pub open spec fn is_hex_digit(c: char) -> bool {
    let v = c as u32;
    (48 <= v && v <= 57) || (97 <= v && v <= 102) || (65 <= v && v <= 70)
}

/// The value of a hex digit.
pub open spec fn hex_digit_value(c: char) -> u8 {
    let v = c as u32;
    if 48 <= v && v <= 57 {
        (v - 48) as u8
    } else if 97 <= v && v <= 102 {
        (v - 87) as u8
    } else {
        (v - 55) as u8
    }
}

/// The input with the skipped whitespace removed.
pub open spec fn strip_hex_ws(s: Seq<char>) -> Seq<char>
    decreases s.len(),
{
    if s.len() == 0 {
        Seq::empty()
    } else if is_hex_ws(s[0]) {
        strip_hex_ws(s.drop_first())
    } else {
        seq![s[0]] + strip_hex_ws(s.drop_first())
    }
}

/// The position of the first character that is neither a hex digit nor
/// skipped whitespace, if any.
pub open spec fn hex_first_bad(s: Seq<char>) -> Option<int>
    decreases s.len(),
{
    if s.len() == 0 {
        None
    } else if !is_hex_digit(s[0]) && !is_hex_ws(s[0]) {
        Some(0int)
    } else {
        match hex_first_bad(s.drop_first()) {
            None => None,
            Some(i) => Some(i + 1),
        }
    }
}

/// The bytes that a sequence of hex digits encodes, two digits per byte.
pub open spec fn hex_pair_bytes(d: Seq<char>) -> Seq<u8>
    decreases d.len(),
{
    if d.len() < 2 {
        Seq::empty()
    } else {
        seq![(hex_digit_value(d[0]) * 16 + hex_digit_value(d[1])) as u8] + hex_pair_bytes(
            d.skip(2),
        )
    }
}

/// The bytes that a hex string decodes to, once whitespace is stripped.
pub open spec fn hex_bytes(s: Seq<char>) -> Seq<u8> {
    hex_pair_bytes(strip_hex_ws(s))
}

/// What decoding a hex string yields: the bytes, or the failure.
pub open spec fn spec_hex_decode(s: Seq<char>) -> Result<Seq<u8>, HexError> {
    match hex_first_bad(s) {
        Some(i) => Err(HexError::InvalidChar(s[i], i as usize)),
        None => if strip_hex_ws(s).len() % 2 == 1 {
            Err(HexError::OddLength)
        } else {
            Ok(hex_bytes(s))
        },
    }
}

/// The view of a decode result.
pub open spec fn hex_result_view(r: Result<Vec<u8>, HexError>) -> Result<Seq<u8>, HexError> {
    match r {
        Ok(v) => Ok(v@),
        Err(e) => Err(e),
    }
}

/// Relies on `rustc_serialize::hex::FromHex` for `str`: pairs of hex digits in
/// either case become bytes, the characters ' ', '\r', '\n' and '\t' are
/// skipped, the first other non-digit is reported with its byte position (which
/// equals its character position, every character before it being a one-byte
/// digit or whitespace), and an odd digit count is a length error.
#[verifier::external_body]
pub(crate) fn hex_decode(s: &str) -> (r: Result<Vec<u8>, HexError>)
    ensures
        hex_result_view(r) == spec_hex_decode(s@),
{
    match rustc_serialize::hex::FromHex::from_hex(s) {
        Ok(v) => Ok(v),
        Err(rustc_serialize::hex::FromHexError::InvalidHexCharacter(c, i)) => Err(
            HexError::InvalidChar(c, i),
        ),
        Err(rustc_serialize::hex::FromHexError::InvalidHexLength) => Err(HexError::OddLength),
    }
}

/// The lowercase hex digit for a value below 16.
pub open spec fn hex_char_of(v: u8) -> char {
    if v <= 9 {
        (v + 48) as char
    } else {
        (v + 87) as char
    }
}

/// The lowercase hex encoding of a byte string, two digits per byte.
pub open spec fn hex_encode_chars(b: Seq<u8>) -> Seq<char>
    decreases b.len(),
{
    if b.len() == 0 {
        Seq::empty()
    } else {
        seq![hex_char_of(b[0] / 16), hex_char_of(b[0] % 16)] + hex_encode_chars(b.drop_first())
    }
}

/// Relies on `rustc_serialize::hex::ToHex` for `[u8]`: two lowercase hex
/// digits for each byte, high nibble first, nothing else.
#[verifier::external_body]
pub(crate) fn hex_encode(b: &[u8]) -> (r: String)
    ensures
        r@ == hex_encode_chars(b@),
{
    rustc_serialize::hex::ToHex::to_hex(b)
}

/// An encoded digit decodes to the value it encodes.
proof fn lemma_hex_char_of_value(v: u8)
    requires
        v < 16,
    ensures
        is_hex_digit(hex_char_of(v)),
        !is_hex_ws(hex_char_of(v)),
        hex_digit_value(hex_char_of(v)) == v,
{
}

/// An encoding holds twice as many characters as bytes, all of them hex
/// digits and none of them whitespace.
pub proof fn lemma_hex_encode_chars_digits(b: Seq<u8>)
    ensures
        hex_encode_chars(b).len() == 2 * b.len(),
        forall|i: int|
            0 <= i < hex_encode_chars(b).len() ==> is_hex_digit(#[trigger] hex_encode_chars(b)[i])
                && !is_hex_ws(hex_encode_chars(b)[i]),
    decreases b.len(),
{
    if b.len() > 0 {
        lemma_hex_encode_chars_digits(b.drop_first());
        lemma_hex_char_of_value(b[0] / 16);
        lemma_hex_char_of_value(b[0] % 16);
    }
}

/// Stripping whitespace from a sequence without any is the identity.
proof fn lemma_strip_hex_ws_identity(s: Seq<char>)
    requires
        forall|i: int| 0 <= i < s.len() ==> !is_hex_ws(#[trigger] s[i]),
    ensures
        strip_hex_ws(s) == s,
    decreases s.len(),
{
    if s.len() == 0 {
        assert(strip_hex_ws(s) =~= s);
    } else {
        lemma_strip_hex_ws_identity(s.drop_first());
        assert(strip_hex_ws(s) =~= s);
    }
}

/// A sequence of digits and whitespace has no bad character.
proof fn lemma_hex_first_bad_none(s: Seq<char>)
    requires
        forall|i: int| 0 <= i < s.len() ==> is_hex_digit(#[trigger] s[i]) || is_hex_ws(s[i]),
    ensures
        hex_first_bad(s) is None,
    decreases s.len(),
{
    if s.len() > 0 {
        lemma_hex_first_bad_none(s.drop_first());
    }
}

/// Reading back the digit pairs of an encoding yields the encoded bytes.
proof fn lemma_hex_pair_bytes_inverse(b: Seq<u8>)
    ensures
        hex_pair_bytes(hex_encode_chars(b)) == b,
    decreases b.len(),
{
    if b.len() == 0 {
        assert(hex_pair_bytes(hex_encode_chars(b)) =~= b);
    } else {
        let e = hex_encode_chars(b);
        let tail = hex_encode_chars(b.drop_first());
        lemma_hex_pair_bytes_inverse(b.drop_first());
        lemma_hex_char_of_value(b[0] / 16);
        lemma_hex_char_of_value(b[0] % 16);
        assert(e.skip(2) =~= tail);
        assert(hex_digit_value(e[0]) * 16 + hex_digit_value(e[1]) == (b[0] / 16) * 16 + b[0]
            % 16);
        assert((b[0] / 16) * 16 + b[0] % 16 == b[0]) by {
            vstd::arithmetic::div_mod::lemma_fundamental_div_mod(b[0] as int, 16);
        }
        assert(hex_pair_bytes(e) =~= b);
    }
}

/// Round trip: the hex encoding of any byte string decodes back to it.
pub proof fn lemma_hex_round_trip(b: Seq<u8>)
    ensures
        spec_hex_decode(hex_encode_chars(b)) == Ok::<Seq<u8>, HexError>(b),
{
    let e = hex_encode_chars(b);
    lemma_hex_encode_chars_digits(b);
    lemma_hex_first_bad_none(e);
    lemma_strip_hex_ws_identity(e);
    lemma_hex_pair_bytes_inverse(b);
}

} // verus!
