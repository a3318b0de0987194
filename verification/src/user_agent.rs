//! The user agent a probe announces, and which texts can serve as one.

use vstd::prelude::*;
use vstd::utf8::{encode_scalar, encode_utf8};
use crate::client::{header_byte, header_bytes};

verus! {

/// The user agent a probe announces when the caller names none.
pub const DEFAULT_USER_AGENT: &'static str = "Gargoyle/0.1";

/// A character that may stand in an HTTP header value: anything but the
/// ASCII control characters, the horizontal tab excepted.
pub open spec fn header_char(c: char) -> bool {
    (c as u32 >= 32 && c as u32 != 127) || c == '\t'
}

/// A text that an HTTP header can carry as its value.
pub open spec fn header_value(text: Seq<char>) -> bool {
    forall|i: int| 0 <= i < text.len() ==> header_char(#[trigger] text[i])
}

/// The one byte that encodes an ASCII character is the character's number.
proof fn lemma_ascii_byte(scalar: u32)
    by (bit_vector)
    requires
        scalar <= 0x7F,
    ensures
        (scalar & 0x7F) as u8 == scalar,
{
}

/// Every byte of an encoding of two or more bytes is 128 or above.
proof fn lemma_high_bytes(bits: u8)
    by (bit_vector)
    ensures
        0x80u8 | bits >= 0x80,
        0xC0u8 | bits >= 0x80,
        0xE0u8 | bits >= 0x80,
        0xF0u8 | bits >= 0x80,
{
}

/// The bytes that encode one character may all stand in a header value
/// exactly when the character may.
proof fn lemma_header_bytes_of_char(c: char)
    ensures
        header_bytes(encode_scalar(c as u32)) <==> header_char(c),
{
    let scalar: u32 = c as u32;
    let bytes = encode_scalar(scalar);
    if scalar <= 0x7F {
        lemma_ascii_byte(scalar);
        assert(bytes[0] == scalar);
    } else {
        assert forall|i: int| 0 <= i < bytes.len() implies header_byte(#[trigger] bytes[i]) by {
            lemma_high_bytes(((scalar >> 6) & 0x1F) as u8);
            lemma_high_bytes(((scalar >> 12) & 0x0F) as u8);
            lemma_high_bytes(((scalar >> 18) & 0x7) as u8);
            lemma_high_bytes((scalar & 0x3F) as u8);
            lemma_high_bytes(((scalar >> 6) & 0x3F) as u8);
            lemma_high_bytes(((scalar >> 12) & 0x3F) as u8);
        }
    }
}

/// Two runs of bytes put together may stand in a header value exactly when
/// each of them may.
proof fn lemma_header_bytes_joined(head: Seq<u8>, tail: Seq<u8>)
    ensures
        header_bytes(head + tail) <==> header_bytes(head) && header_bytes(tail),
{
    let whole = head + tail;
    if header_bytes(whole) {
        assert forall|i: int| 0 <= i < head.len() implies header_byte(#[trigger] head[i]) by {
            assert(whole[i] == head[i]);
        }
        assert forall|i: int| 0 <= i < tail.len() implies header_byte(#[trigger] tail[i]) by {
            assert(whole[head.len() + i] == tail[i]);
        }
    }
}

/// A text is a header value, character by character, exactly when its UTF-8
/// encoding is one, byte by byte.
pub proof fn lemma_header_value_bytes(text: Seq<char>)
    ensures
        header_bytes(encode_utf8(text)) <==> header_value(text),
    decreases text.len(),
{
    if text.len() > 0 {
        let rest = text.drop_first();
        lemma_header_bytes_of_char(text[0]);
        lemma_header_value_bytes(rest);
        lemma_header_bytes_joined(encode_scalar(text[0] as u32), encode_utf8(rest));
        if header_value(rest) && header_char(text[0]) {
            assert forall|i: int| 0 <= i < text.len() implies header_char(#[trigger] text[i]) by {
                if i > 0 {
                    assert(text[i] == rest[i - 1]);
                }
            }
        }
        if header_value(text) {
            assert forall|i: int| 0 <= i < rest.len() implies header_char(#[trigger] rest[i]) by {
                assert(rest[i] == text[i + 1]);
            }
        }
    }
}

/// The default user agent is a text that an HTTP header can carry.
pub proof fn default_user_agent_is_header_value()
    ensures
        header_value(DEFAULT_USER_AGENT@),
{
    reveal_strlit("Gargoyle/0.1");
}

} // verus!
