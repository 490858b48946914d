use vstd::prelude::*;

verus! {

/// A character is a hexadecimal digit: `0`-`9`, `a`-`f` or `A`-`F`.
pub open spec fn is_hex_digit(c: char) -> bool {
    (48 <= c as int && c as int <= 57)  // '0' ..= '9'
    || (97 <= c as int && c as int <= 102)  // 'a' ..= 'f'
    || (65 <= c as int && c as int <= 70)  // 'A' ..= 'F'
}

/// A character is a lowercase hexadecimal digit: `0`-`9` or `a`-`f`;
/// exactly the characters that encoding produces.
pub open spec fn is_lower_hex_digit(c: char) -> bool {
    (48 <= c as int && c as int <= 57)  // '0' ..= '9'
    || (97 <= c as int && c as int <= 102)  // 'a' ..= 'f'
}

/// The numeric value of a hexadecimal digit.
pub open spec fn hex_digit_value(c: char) -> u8
    recommends
        is_hex_digit(c),
{
    if 48 <= c as int && c as int <= 57 {
        (c as int - 48) as u8
    } else if 97 <= c as int && c as int <= 102 {
        (c as int - 87) as u8
    } else {
        (c as int - 55) as u8
    }
}

/// A string decodes to bytes: an even number of characters, all of them
/// hexadecimal digits.
pub open spec fn valid_hex_string(s: Seq<char>) -> bool {
    s.len() % 2 == 0 && (forall|i: int| 0 <= i < s.len() ==> is_hex_digit(#[trigger] s[i]))
}

/// The bytes a hexadecimal string stands for: one byte per digit pair,
/// high digit first.
pub open spec fn hex_bytes(s: Seq<char>) -> Seq<u8>
    recommends
        valid_hex_string(s),
{
    Seq::new(
        s.len() / 2,
        |i: int| (16 * hex_digit_value(s[2 * i]) as int + hex_digit_value(s[2 * i + 1]) as int) as u8,
    )
}

/// The lowercase hexadecimal digit for a value below 16.
pub open spec fn hex_digit_char(v: u8) -> char
    recommends
        v < 16,
{
    if v == 0 { '0' }
    else if v == 1 { '1' }
    else if v == 2 { '2' }
    else if v == 3 { '3' }
    else if v == 4 { '4' }
    else if v == 5 { '5' }
    else if v == 6 { '6' }
    else if v == 7 { '7' }
    else if v == 8 { '8' }
    else if v == 9 { '9' }
    else if v == 10 { 'a' }
    else if v == 11 { 'b' }
    else if v == 12 { 'c' }
    else if v == 13 { 'd' }
    else if v == 14 { 'e' }
    else { 'f' }
}

/// The lowercase hexadecimal text for a byte sequence: two digits per
/// byte, high digit first.
pub open spec fn hex_encoding(b: Seq<u8>) -> Seq<char> {
    Seq::new(
        b.len() * 2,
        |i: int| if i % 2 == 0 { hex_digit_char(b[i / 2] >> 4) } else { hex_digit_char(b[i / 2] & 0x0f) },
    )
}

/// Every character of a hexadecimal encoding is a lowercase
/// hexadecimal digit.
pub proof fn lemma_hex_encoding_digits(b: Seq<u8>)
    ensures
        forall|i: int|
            0 <= i < hex_encoding(b).len() ==> is_lower_hex_digit(#[trigger] hex_encoding(b)[i]),
{
    assert forall|i: int| 0 <= i < hex_encoding(b).len() implies is_lower_hex_digit(
        #[trigger] hex_encoding(b)[i],
    ) by {
        let x = b[i / 2];
        assert(x >> 4 < 16 && x & 0x0f < 16) by (bit_vector);
    }
}

/// Relies on hex::decode (hex 0.4.3): an even-length string of
/// hexadecimal digits (upper or lower case) decodes to one byte per digit
/// pair, high digit first; any other string is rejected with an error.
#[verifier::external_body]
pub(crate) fn hex_decode(s: &str) -> (r: Result<Vec<u8>, hex::FromHexError>)
    ensures
        r is Ok <==> valid_hex_string(s@),
        r matches Ok(v) ==> v@ == hex_bytes(s@),
{
    hex::decode(s)
}

/// Relies on hex::encode (hex 0.4.3): two lowercase hexadecimal digits
/// per input byte, in byte order.
#[verifier::external_body]
pub(crate) fn hex_encode(b: &Vec<u8>) -> (r: String)
    ensures
        r@ == hex_encoding(b@),
{
    hex::encode(b.as_slice())
}

} // verus!
