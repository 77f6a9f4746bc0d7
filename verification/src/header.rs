//! Which texts can travel as the value of an HTTP header.

use crate::outside::parse_header_value;
use vstd::prelude::*;
use vstd::utf8::{
    encode_scalar, encode_utf8, has_width_1_encoding, has_width_2_encoding, has_width_3_encoding,
    leading_byte_width_1, leading_byte_width_2, leading_byte_width_3, leading_byte_width_4,
    last_continuation_byte, second_last_continuation_byte, third_last_continuation_byte,
};

verus! {

/// A byte that may occur in a header value: anything but the control
/// characters, with the horizontal tab let through.
pub open spec fn header_byte_ok(byte: u8) -> bool {
    (byte >= 32 && byte != 127) || byte == 9
}

/// Every byte of `bytes` may occur in a header value.
pub open spec fn header_bytes_ok(bytes: Seq<u8>) -> bool {
    forall|i: int| 0 <= i < bytes.len() ==> header_byte_ok(#[trigger] bytes[i])
}

/// A character that may occur in a header value.
pub open spec fn header_char_ok(c: char) -> bool {
    (c as u32 >= 32 && c as u32 != 127) || c as u32 == 9
}

/// Every character of `text` may occur in a header value.
pub open spec fn header_text_ok(text: Seq<char>) -> bool {
    forall|i: int| 0 <= i < text.len() ==> header_char_ok(#[trigger] text[i])
}

/// The bytes that encode one character are fit for a header exactly when
/// the character is.
pub proof fn lemma_header_scalar(c: char)
    ensures
        header_bytes_ok(encode_scalar(c as u32)) <==> header_char_ok(c),
{
    let s = c as u32;
    let bytes = encode_scalar(s);
    if has_width_1_encoding(s) {
        assert(leading_byte_width_1(s) == s) by (bit_vector)
            requires
                s <= 0x7f,
        ;
        assert(bytes[0] == s);
    } else if has_width_2_encoding(s) {
        assert(leading_byte_width_2(s) >= 0x80 && last_continuation_byte(s) >= 0x80)
            by (bit_vector);
    } else if has_width_3_encoding(s) {
        assert(leading_byte_width_3(s) >= 0x80 && second_last_continuation_byte(s) >= 0x80
            && last_continuation_byte(s) >= 0x80) by (bit_vector);
    } else {
        assert(leading_byte_width_4(s) >= 0x80 && third_last_continuation_byte(s) >= 0x80
            && second_last_continuation_byte(s) >= 0x80 && last_continuation_byte(s) >= 0x80)
            by (bit_vector);
    }
}

/// A text is fit for a header, byte by byte, exactly when it is character
/// by character.
pub proof fn lemma_header_text(text: Seq<char>)
    ensures
        header_bytes_ok(encode_utf8(text)) <==> header_text_ok(text),
    decreases text.len(),
{
    if text.len() > 0 {
        let head = encode_scalar(text[0] as u32);
        let rest = text.drop_first();
        let tail = encode_utf8(rest);
        lemma_header_scalar(text[0]);
        lemma_header_text(rest);
        assert(encode_utf8(text) == head + tail);
        if header_bytes_ok(head + tail) {
            assert forall|i: int| 0 <= i < head.len() implies header_byte_ok(#[trigger] head[i]) by {
                assert((head + tail)[i] == head[i]);
            }
            assert forall|i: int| 0 <= i < tail.len() implies header_byte_ok(#[trigger] tail[i]) by {
                assert((head + tail)[head.len() + i] == tail[i]);
            }
            assert forall|i: int| 0 <= i < text.len() implies header_char_ok(#[trigger] text[i]) by {
                if i > 0 {
                    assert(rest[i - 1] == text[i]);
                }
            }
        }
        if header_text_ok(text) {
            assert forall|i: int| 0 <= i < rest.len() implies header_char_ok(#[trigger] rest[i]) by {
                assert(rest[i] == text[i + 1]);
            }
            assert(header_char_ok(text[0]));
        }
    }
}

/// Joining two texts keeps them fit for a header, and only then.
pub proof fn lemma_header_text_concat(a: Seq<char>, b: Seq<char>)
    ensures
        header_text_ok(a + b) <==> header_text_ok(a) && header_text_ok(b),
{
    if header_text_ok(a + b) {
        assert forall|i: int| 0 <= i < a.len() implies header_char_ok(#[trigger] a[i]) by {
            assert((a + b)[i] == a[i]);
        }
        assert forall|i: int| 0 <= i < b.len() implies header_char_ok(#[trigger] b[i]) by {
            assert((a + b)[a.len() + i] == b[i]);
        }
    }
}

/// Whether `text` can be the value of a header.
pub fn is_header_text(text: &str) -> (fit: bool)
    ensures
        fit == header_text_ok(text@),
{
    proof {
        lemma_header_text(text@);
    }
    parse_header_value(text).is_ok()
}

} // verus!
