//! Hex encoding and decoding of byte strings, as the persisted records and
//! addresses use them: lowercase on the way out, either case accepted on the
//! way in.

use vstd::prelude::*;

use crate::errors::WalletError;

verus! {

/// True of the sixteen lowercase digits, the ten decimal ones and `a`..`f`,
/// and of the uppercase `A`..`F`.
pub open spec fn is_hex_digit(c: char) -> bool {
    (48 <= c as u32 <= 57) || (97 <= c as u32 <= 102) || (65 <= c as u32 <= 70)
}

/// The numeric value of one hex digit, zero for any other character.
pub open spec fn hex_digit_val(c: char) -> u8 {
    if 48 <= c as u32 <= 57 {
        (c as u32 - 48) as u8
    } else if 97 <= c as u32 <= 102 {
        (c as u32 - 87) as u8
    } else if 65 <= c as u32 <= 70 {
        (c as u32 - 55) as u8
    } else {
        0
    }
}

/// The lowercase hex digit for a value below sixteen.
pub open spec fn hex_char_lower(v: u8) -> char
    recommends
        v < 16,
{
    if v == 0 { '0' } else if v == 1 { '1' } else if v == 2 { '2' } else if v == 3 { '3' }
    else if v == 4 { '4' } else if v == 5 { '5' } else if v == 6 { '6' } else if v == 7 { '7' }
    else if v == 8 { '8' } else if v == 9 { '9' } else if v == 10 { 'a' } else if v == 11 { 'b' }
    else if v == 12 { 'c' } else if v == 13 { 'd' } else if v == 14 { 'e' } else { 'f' }
}

/// A string that decodes to bytes: even length, hex digits throughout.
pub open spec fn valid_hex(s: Seq<char>) -> bool {
    s.len() % 2 == 0 && (forall|i: int| 0 <= i < s.len() ==> is_hex_digit(#[trigger] s[i]))
}

/// The lowercase hex spelling of a byte string, two digits per byte,
/// high nibble first.
pub open spec fn hex_encode_seq(b: Seq<u8>) -> Seq<char> {
    Seq::new(b.len() * 2, |i: int| if i % 2 == 0 {
        hex_char_lower((b[i / 2] / 16) as u8)
    } else {
        hex_char_lower((b[i / 2] % 16) as u8)
    })
}

/// The bytes a hex string spells, one byte per digit pair.
pub open spec fn hex_decode_seq(s: Seq<char>) -> Seq<u8> {
    Seq::new(s.len() / 2, |i: int| (hex_digit_val(s[2 * i]) * 16 + hex_digit_val(s[2 * i + 1])) as u8)
}

/// Relies on `hex::encode`: each byte becomes two lowercase hex digits,
/// high nibble first, in input order.
#[verifier::external_body]
pub fn hex_encode(data: &[u8]) -> (r: String)
    ensures
        r@ == hex_encode_seq(data@),
{
    hex::encode(data)
}

/// Relies on `hex::decode`: it succeeds exactly on strings of hex digits
/// (either case) of even length, and pairs digits into bytes in order.
/// A string with a character outside ASCII is refused either way: its
/// UTF-8 bytes are no hex digits.
#[verifier::external_body]
pub fn hex_decode(s: &str) -> (r: Option<Vec<u8>>)
    ensures
        r is Some <==> valid_hex(s@),
        r is Some ==> r->0@ == hex_decode_seq(s@),
{
    hex::decode(s).ok()
}

/// What a byte string encodes to is itself a valid hex string.
pub proof fn lemma_hex_encode_valid(b: Seq<u8>)
    ensures
        valid_hex(hex_encode_seq(b)),
{
    assert forall|i: int| 0 <= i < hex_encode_seq(b).len() implies is_hex_digit(
        #[trigger] hex_encode_seq(b)[i],
    ) by {
        if i % 2 == 0 {
            assert(hex_encode_seq(b)[i] == hex_char_lower((b[i / 2] / 16) as u8));
        } else {
            assert(hex_encode_seq(b)[i] == hex_char_lower((b[i / 2] % 16) as u8));
        }
    }
}

/// Encoding a byte string and decoding the result gives the bytes back.
pub proof fn lemma_hex_roundtrip(b: Seq<u8>)
    ensures
        hex_decode_seq(hex_encode_seq(b)) == b,
{
    let enc = hex_encode_seq(b);
    assert forall|i: int| 0 <= i < b.len() implies hex_decode_seq(enc)[i] == b[i] by {
        assert(enc[2 * i] == hex_char_lower((b[i] / 16) as u8));
        assert(enc[2 * i + 1] == hex_char_lower((b[i] % 16) as u8));
        assert(hex_digit_val(hex_char_lower((b[i] / 16) as u8)) == b[i] / 16);
        assert(hex_digit_val(hex_char_lower((b[i] % 16) as u8)) == b[i] % 16);
        assert(b[i] / 16 * 16 + b[i] % 16 == b[i]) by {
            vstd::arithmetic::div_mod::lemma_fundamental_div_mod(b[i] as int, 16);
        }
    }
    assert(hex_decode_seq(enc) =~= b);
}

/// Decode a destination address given as bare hex: exactly 20 bytes,
/// anything else is `InvalidDestination`.
pub fn parse_destination(to: &str) -> (r: Result<Vec<u8>, WalletError>)
    ensures
        r is Ok <==> (valid_hex(to@) && to@.len() == 40),
        r is Ok ==> r->Ok_0@ == hex_decode_seq(to@),
        r is Err ==> r->Err_0 == WalletError::InvalidDestination,
{
    match hex_decode(to) {
        Some(bytes) => {
            if bytes.len() == 20 {
                Ok(bytes)
            } else {
                Err(WalletError::InvalidDestination)
            }
        },
        None => Err(WalletError::InvalidDestination),
    }
}

} // verus!
