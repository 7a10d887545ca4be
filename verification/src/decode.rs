//! Turning bytes into text.

use vstd::prelude::*;
use vstd::utf8::{
    char_u32_cast, decode_utf8, encode_scalar, encode_utf8, has_width_1_encoding,
    last_continuation_byte, leading_byte_width_1, leading_byte_width_2, leading_byte_width_3,
    leading_byte_width_4, second_last_continuation_byte, third_last_continuation_byte,
    valid_utf8,
};

verus! {

/// The text that lossy decoding makes of `bytes`: the decoded characters,
/// with a replacement character wherever the bytes are not UTF-8.
pub uninterp spec fn lossy_text(bytes: Seq<u8>) -> Seq<char>;

/// Calls `std::str::from_utf8`. The contract claims what its documentation
/// says: the call succeeds exactly on well-formed UTF-8, and the string it
/// gives holds the characters that the bytes encode.
#[verifier::external_body]
pub(crate) fn strict_text(bytes: &[u8]) -> (r: Option<&str>)
    ensures
        r is Some <==> valid_utf8(bytes@),
        r matches Some(s) ==> s@ == decode_utf8(bytes@),
{
    match std::str::from_utf8(bytes) {
        Ok(s) => Some(s),
        Err(_) => None,
    }
}

/// Calls `String::from_utf8_lossy`. The contract names its result, which
/// depends on the bytes alone, and claims of it what the documentation
/// says: well-formed UTF-8 is decoded as it stands.
#[verifier::external_body]
pub(crate) fn decode_lossy(bytes: &[u8]) -> (r: String)
    ensures
        r@ == lossy_text(bytes@),
        valid_utf8(bytes@) ==> r@ == decode_utf8(bytes@),
{
    String::from_utf8_lossy(bytes).into_owned()
}

/// Of the bytes that encode a scalar value, only the single byte of an
/// ASCII character is below `0x80`, and that byte is the character itself.
proof fn lemma_scalar_bytes(scalar: u32)
    ensures
        has_width_1_encoding(scalar) ==> leading_byte_width_1(scalar) == scalar,
        leading_byte_width_2(scalar) >= 0x80,
        leading_byte_width_3(scalar) >= 0x80,
        leading_byte_width_4(scalar) >= 0x80,
        last_continuation_byte(scalar) >= 0x80,
        second_last_continuation_byte(scalar) >= 0x80,
        third_last_continuation_byte(scalar) >= 0x80,
{
    assert(scalar <= 0x7F ==> ((scalar & 0x7F) as u8) as u32 == scalar) by (bit_vector);
    assert((0xC0u8 | (((scalar >> 6) & 0x1F) as u8)) >= 0x80) by (bit_vector);
    assert((0xE0u8 | (((scalar >> 12) & 0x0F) as u8)) >= 0x80) by (bit_vector);
    assert((0xF0u8 | (((scalar >> 18) & 0x7) as u8)) >= 0x80) by (bit_vector);
    assert((0x80u8 | ((scalar & 0x3F) as u8)) >= 0x80) by (bit_vector);
    assert((0x80u8 | (((scalar >> 6) & 0x3F) as u8)) >= 0x80) by (bit_vector);
    assert((0x80u8 | (((scalar >> 12) & 0x3F) as u8)) >= 0x80) by (bit_vector);
}

/// An ASCII byte stands in the encoding of a text only where the text holds
/// that ASCII character.
pub proof fn lemma_encoded_ascii(chars: Seq<char>, byte: u8)
    requires
        byte < 0x80,
    ensures
        encode_utf8(chars).contains(byte) ==> chars.contains(byte as char),
    decreases chars.len(),
{
    if chars.len() > 0 {
        let scalar = chars[0] as u32;
        let head = encode_scalar(scalar);
        let rest = chars.drop_first();
        let tail = encode_utf8(rest);
        let all = encode_utf8(chars);
        assert(all == head + tail);
        lemma_encoded_ascii(rest, byte);
        lemma_scalar_bytes(scalar);
        if all.contains(byte) {
            let i = choose|i: int| 0 <= i < all.len() && all[i] == byte;
            if i < head.len() {
                // Only a one-byte encoding holds a byte below 0x80, and that
                // byte is the character.
                assert(head[i] == byte);
                assert(byte as u32 == scalar);
                char_u32_cast(chars[0], scalar);
                assert(chars[0] == byte as char);
            } else {
                assert(tail[i - head.len()] == byte);
                let k = choose|k: int| 0 <= k < rest.len() && rest[k] == byte as char;
                assert(chars[k + 1] == byte as char);
            }
        }
    }
}

} // verus!
