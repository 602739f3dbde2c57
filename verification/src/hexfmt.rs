//! Hexadecimal encoding and decoding of byte strings, with an exact
//! mathematical description of both directions.

use vstd::prelude::*;

verus! {

/// The lowercase hexadecimal digit character for a value below 16.
pub open spec fn spec_hex_digit(n: u8) -> char
    recommends
        n < 16,
{
    if n < 10 {
        ((n + 48) as u8) as char
    } else {
        ((n + 87) as u8) as char
    }
}

/// The lowercase hexadecimal encoding of a byte sequence: two digits per
/// byte, high nibble first.
pub open spec fn spec_hex(bytes: Seq<u8>) -> Seq<char> {
    Seq::new(
        bytes.len() * 2,
        |i: int|
            if i % 2 == 0 {
                spec_hex_digit(bytes[i / 2] / 16)
            } else {
                spec_hex_digit(bytes[i / 2] % 16)
            },
    )
}

/// Whether the character is a hexadecimal digit, upper or lower case.
pub open spec fn spec_is_hex_char(c: char) -> bool {
    ||| (48 <= c as int && c as int <= 57)  // '0' ..= '9'
    ||| (97 <= c as int && c as int <= 102)  // 'a' ..= 'f'
    ||| (65 <= c as int && c as int <= 70)  // 'A' ..= 'F'
}

/// The value of a hexadecimal digit character.
pub open spec fn spec_hex_val(c: char) -> u8
    recommends
        spec_is_hex_char(c),
{
    if 48 <= c as int && c as int <= 57 {
        (c as int - 48) as u8
    } else if 97 <= c as int && c as int <= 102 {
        (c as int - 87) as u8
    } else {
        (c as int - 55) as u8
    }
}

/// The byte sequence denoted by a sequence of hexadecimal digit characters,
/// two characters per byte.
pub open spec fn spec_unhex(s: Seq<char>) -> Seq<u8> {
    Seq::new(
        s.len() / 2,
        |i: int| (spec_hex_val(s[2 * i]) * 16 + spec_hex_val(s[2 * i + 1])) as u8,
    )
}

/// Relies on `hex::encode`: lowercase hexadecimal, two digits per byte, high
/// nibble first.
#[verifier::external_body]
pub fn hex_encode(bytes: &Vec<u8>) -> (r: String)
    ensures
        r@ == spec_hex(bytes@),
{
    hex::encode(bytes)
}

/// Relies on `hex::decode`: succeeds exactly on an even number of
/// hexadecimal digit characters (either case) and yields the denoted bytes.
#[verifier::external_body]
pub fn hex_decode(s: &str) -> (r: Option<Vec<u8>>)
    ensures
        r is Some <==> (s@.len() % 2 == 0 && forall|i: int|
            0 <= i < s@.len() ==> spec_is_hex_char(#[trigger] s@[i])),
        r matches Some(v) ==> v@ == spec_unhex(s@),
{
    hex::decode(s).ok()
}

/// Decoding inverts encoding: the digits produced for any byte sequence are
/// hexadecimal characters, even in number, and decode to exactly those
/// bytes.
pub proof fn lemma_hex_round_trip(bytes: Seq<u8>)
    ensures
        spec_hex(bytes).len() == bytes.len() * 2,
        spec_hex(bytes).len() % 2 == 0,
        forall|i: int|
            0 <= i < spec_hex(bytes).len() ==> spec_is_hex_char(#[trigger] spec_hex(bytes)[i]),
        spec_unhex(spec_hex(bytes)) == bytes,
{
    assert forall|i: int|
        0 <= i < spec_hex(bytes).len() implies spec_is_hex_char(
        #[trigger] spec_hex(bytes)[i],
    ) by {
        let b = bytes[i / 2];
        assert(b / 16 < 16);
        assert(b % 16 < 16);
    }
    assert forall|i: int|
        0 <= i < bytes.len() implies spec_unhex(spec_hex(bytes))[i] == bytes[i] by {
        let b = bytes[i];
        let s = spec_hex(bytes);
        assert(s[2 * i] == spec_hex_digit(b / 16));
        assert(s[2 * i + 1] == spec_hex_digit(b % 16));
        assert(spec_hex_val(spec_hex_digit(b / 16)) == b / 16);
        assert(spec_hex_val(spec_hex_digit(b % 16)) == b % 16);
        assert(b / 16 * 16 + b % 16 == b);
    }
    assert(spec_unhex(spec_hex(bytes)) =~= bytes);
}

} // verus!
