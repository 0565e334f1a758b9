//! Reading host byte spans as text.

use vstd::prelude::*;
use vstd::string::*;
use vstd::utf8::*;

verus! {

/// The error of `core::str::from_utf8`, carried through unread.
#[verifier::external_type_specification]
#[verifier::external_body]
pub struct ExUtf8Error(core::str::Utf8Error);

/// `core::str::from_utf8` succeeds exactly on well-formed UTF-8, and the text
/// it hands back is encoded by the very bytes it was given.
pub assume_specification[ core::str::from_utf8 ](v: &[u8]) -> (res: Result<
    &str,
    core::str::Utf8Error,
>)
    ensures
        res is Ok <==> valid_utf8(v@),
        res is Ok ==> res->Ok_0.spec_bytes() == v@,
;

/// What a span of bytes reads as: the text it encodes where it is well-formed
/// UTF-8, the empty text otherwise.
pub open spec fn text_of_bytes(bytes: Seq<u8>) -> Seq<char> {
    if valid_utf8(bytes) {
        decode_utf8(bytes)
    } else {
        Seq::empty()
    }
}

/// The text with one leading `':'` removed, where it has one.
pub open spec fn without_leading_colon(text: Seq<char>) -> Seq<char> {
    if text.len() > 0 && text[0] == ':' {
        text.drop_first()
    } else {
        text
    }
}

/// Reads a span of bytes as text. Malformed UTF-8 reads as the empty text.
pub fn str_from_bytes<'a>(bytes: &'a [u8]) -> (res: &'a str)
    ensures
        res@ == text_of_bytes(bytes@),
        valid_utf8(bytes@) ==> res.spec_bytes() == bytes@,
{
    match core::str::from_utf8(bytes) {
        Ok(s) => {
            proof {
                encode_utf8_decode_utf8(s@);
            }
            s
        },
        Err(_) => {
            proof {
                reveal_strlit("");
            }
            ""
        },
    }
}

/// The byte that encodes `':'`.
pub const COLON: u8 = 0x3A;

/// The first byte of the encoding of a scalar is the scalar itself where the
/// encoding is one byte long, and at least `0xC0` where it is longer.
proof fn lemma_first_byte_of_scalar(s: u32)
    by (bit_vector)
    requires
        is_scalar(s),
    ensures
        has_width_1_encoding(s) ==> leading_byte_width_1(s) == s,
        has_width_2_encoding(s) ==> leading_byte_width_2(s) >= 0xC0,
        has_width_3_encoding(s) ==> leading_byte_width_3(s) >= 0xE0,
        has_width_4_encoding(s) ==> leading_byte_width_4(s) >= 0xF0,
{
}

/// How a leading `':'` shows in the encoding of a text: as a first byte
/// `COLON`, which is all of the first character.
pub proof fn lemma_leading_colon(chars: Seq<char>)
    requires
        chars.len() > 0,
    ensures
        encode_utf8(chars).len() > 0,
        encode_utf8(chars)[0] == COLON <==> chars[0] == ':',
        chars[0] == ':' ==> encode_utf8(chars).subrange(1, encode_utf8(chars).len() as int)
            == encode_utf8(chars.drop_first()),
        chars[0] == ':' ==> is_char_boundary(encode_utf8(chars), 1),
{
    let s = chars[0] as u32;
    let bytes = encode_utf8(chars);
    let rest = encode_utf8(chars.drop_first());
    char_is_scalar(chars[0]);
    lemma_first_byte_of_scalar(s);
    assert(bytes == encode_scalar(s) + rest);
    assert(bytes[0] == encode_scalar(s)[0]);
    if bytes[0] == COLON {
        assert(s == 0x3A);
        char_u32_cast(chars[0], s);
        char_u32_cast(':', s);
    }
    if chars[0] == ':' {
        assert(encode_scalar(s) == seq![COLON]);
        assert(bytes.subrange(1, bytes.len() as int) =~= rest);
        encode_utf8_valid_utf8(chars);
        encode_utf8_first_scalar(chars);
        assert(pop_first_scalar(bytes) =~= rest);
        encode_utf8_valid_utf8(chars.drop_first());
        assert(is_char_boundary(rest, 0));
        assert(is_char_boundary(bytes, 1));
    }
}

/// Removes one leading `':'` from an account name, where it has one. A second
/// one stays.
pub fn strip_leading_colon<'a>(name: &'a str) -> (res: &'a str)
    ensures
        res@ == without_leading_colon(name@),
{
    let bytes = name.as_bytes();
    proof {
        if name@.len() > 0 {
            lemma_leading_colon(name@);
        }
    }
    if bytes.len() > 0 && bytes[0] == COLON {
        let (_, rest) = name.split_at(1);
        proof {
            encode_utf8_decode_utf8(rest@);
            encode_utf8_decode_utf8(name@.drop_first());
        }
        rest
    } else {
        name
    }
}

/// Whether two texts are the same, found by comparing their bytes.
pub fn str_eq(a: &str, b: &str) -> (same: bool)
    ensures
        same == (a@ == b@),
{
    let left = a.as_bytes();
    let right = b.as_bytes();
    proof {
        encode_utf8_decode_utf8(a@);
        encode_utf8_decode_utf8(b@);
    }
    if left.len() != right.len() {
        return false;
    }
    let mut i: usize = 0;
    while i < left.len()
        invariant
            left@ == encode_utf8(a@),
            right@ == encode_utf8(b@),
            left@.len() == right@.len(),
            i <= left@.len(),
            forall|j: int| 0 <= j < i ==> left@[j] == right@[j],
        decreases left@.len() - i,
    {
        if left[i] != right[i] {
            return false;
        }
        i += 1;
    }
    assert(left@ =~= right@);
    true
}

} // verus!
