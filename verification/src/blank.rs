//! Blank expressions: text that holds white space and nothing else.
//!
//! The expression grammar skips white space around every token, so a blank
//! expression holds no token at all. It is recognised here, on the bytes of
//! the text, and the result is stated over its characters.
use vstd::prelude::*;
use vstd::utf8::*;

verus! {

/// The four characters that the expression grammar skips between tokens:
/// space, tab, line feed and carriage return.
pub open spec fn is_space(c: char) -> bool {
    c == ' ' || c == '\t' || c == '\n' || c == '\r'
}

/// The bytes that encode the four characters of [`is_space`].
pub open spec fn is_space_byte(b: u8) -> bool {
    b == 0x20 || b == 0x09 || b == 0x0a || b == 0x0d
}

/// Every character of `s` is white space. Holds of the empty text.
pub open spec fn all_spaces(s: Seq<char>) -> bool {
    forall|i: int| 0 <= i < s.len() ==> is_space(#[trigger] s[i])
}

/// Every byte of `bytes` encodes a white space character.
pub open spec fn all_space_bytes(bytes: Seq<u8>) -> bool {
    forall|i: int| 0 <= i < bytes.len() ==> is_space_byte(#[trigger] bytes[i])
}

/// A blank expression: at least one character, and all of them white space.
pub open spec fn blank(s: Seq<char>) -> bool {
    s.len() > 0 && all_spaces(s)
}

/// The first byte of a character's encoding is a white space byte exactly
/// when the character is white space, and then it is the whole encoding.
proof fn lemma_first_byte(c: char)
    ensures
        encode_scalar(c as u32).len() >= 1,
        is_space_byte(encode_scalar(c as u32)[0]) <==> is_space(c),
        is_space(c) ==> encode_scalar(c as u32).len() == 1,
{
    let v = c as u32;
    char_is_scalar(c);
    if has_width_1_encoding(v) {
        assert(leading_byte_width_1(v) == v) by (bit_vector)
            requires
                v <= 0x7f,
        ;
    } else if has_width_2_encoding(v) {
        assert(leading_byte_width_2(v) >= 0xc0) by (bit_vector);
    } else if has_width_3_encoding(v) {
        assert(leading_byte_width_3(v) >= 0xe0) by (bit_vector);
    } else {
        assert(leading_byte_width_4(v) >= 0xf0) by (bit_vector);
    }
}

/// A text is all white space exactly when its UTF-8 encoding is, and it is
/// empty exactly when its encoding is.
pub proof fn lemma_spaces_encoded(s: Seq<char>)
    ensures
        all_spaces(s) <==> all_space_bytes(encode_utf8(s)),
        s.len() == 0 <==> encode_utf8(s).len() == 0,
    decreases s.len(),
{
    if s.len() > 0 {
        let head = encode_scalar(s[0] as u32);
        let rest = s.drop_first();
        let tail = encode_utf8(rest);
        let bytes = encode_utf8(s);
        assert(bytes == head + tail);
        lemma_first_byte(s[0]);
        lemma_spaces_encoded(rest);
        assert(bytes[0] == head[0]);
        if all_spaces(s) {
            assert(is_space(s[0]));
            assert forall|i: int| 0 <= i < rest.len() implies is_space(#[trigger] rest[i]) by {
                assert(rest[i] == s[i + 1]);
            }
            assert forall|i: int| 0 <= i < bytes.len() implies is_space_byte(
                #[trigger] bytes[i],
            ) by {
                if i > 0 {
                    assert(bytes[i] == tail[i - 1]);
                }
            }
        }
        if all_space_bytes(bytes) {
            assert(is_space_byte(bytes[0]));
            assert forall|i: int| 0 <= i < tail.len() implies is_space_byte(
                #[trigger] tail[i],
            ) by {
                assert(tail[i] == bytes[i + 1]);
            }
            assert forall|i: int| 0 <= i < s.len() implies is_space(#[trigger] s[i]) by {
                if i > 0 {
                    assert(s[i] == rest[i - 1]);
                }
            }
        }
    }
}

/// Whether `expression` is blank.
pub fn is_blank(expression: &str) -> (b: bool)
    ensures
        b == blank(expression@),
{
    let bytes = expression.as_bytes();
    let n = bytes.len();
    proof {
        lemma_spaces_encoded(expression@);
    }
    let mut i: usize = 0;
    while i < n
        invariant
            i <= n,
            n == bytes@.len(),
            bytes@ == encode_utf8(expression@),
            all_spaces(expression@) <==> all_space_bytes(bytes@),
            forall|j: int| 0 <= j < i ==> is_space_byte(#[trigger] bytes@[j]),
        decreases n - i,
    {
        let b = bytes[i];
        if !(b == 0x20 || b == 0x09 || b == 0x0a || b == 0x0d) {
            assert(!is_space_byte(bytes@[i as int]));
            return false;
        }
        i += 1;
    }
    n > 0
}

} // verus!
