//! Text at the byte level: the terminator character, UTF-8 decoding of
//! foreign bytes, and the fixed texts the bridge reports.

use vstd::prelude::*;
use vstd::string::*;
use vstd::utf8::*;

verus! {

/// The text substituted for a value that cannot be handed across the boundary.
pub open spec fn interior_null_text() -> Seq<char> {
    "ffi string contains interior null"@
}

/// True when `text` holds the terminator character, U+0000.
pub open spec fn has_terminator(text: Seq<char>) -> bool {
    text.contains('\0')
}

/// The text that crosses the boundary for `text`: the text itself, or the
/// fixed diagnostic where the text holds the terminator.
pub open spec fn wire_text(text: Seq<char>) -> Seq<char> {
    if has_terminator(text) {
        interior_null_text()
    } else {
        text
    }
}

/// The bytes of the buffer that carries `text` across the boundary, without
/// the terminator that follows them.
pub open spec fn wire_bytes(text: Seq<char>) -> Seq<u8> {
    encode_utf8(wire_text(text))
}

proof fn lemma_narrow_scalar_byte(v: u32)
    by (bit_vector)
    requires
        has_width_1_encoding(v),
    ensures
        leading_byte_width_1(v) == 0 <==> v == 0,
{
}

proof fn lemma_wide_scalar_bytes(v: u32)
    by (bit_vector)
    ensures
        leading_byte_width_2(v) != 0,
        leading_byte_width_3(v) != 0,
        leading_byte_width_4(v) != 0,
        last_continuation_byte(v) != 0,
        second_last_continuation_byte(v) != 0,
        third_last_continuation_byte(v) != 0,
{
}

/// The encoding of one character holds a zero byte exactly when the
/// character is U+0000.
pub proof fn lemma_scalar_terminator(c: char)
    ensures
        encode_scalar(c as u32).contains(0u8) <==> c == '\0',
{
    let v = c as u32;
    let bytes = encode_scalar(v);
    char_is_scalar(c);
    lemma_wide_scalar_bytes(v);
    if has_width_1_encoding(v) {
        lemma_narrow_scalar_byte(v);
        assert(bytes[0] == leading_byte_width_1(v));
        if c == '\0' {
            assert(bytes[0] == 0u8);
        }
    }
}

/// The UTF-8 encoding of a text holds a zero byte exactly when the text
/// holds the terminator character.
pub proof fn lemma_encoded_terminator(text: Seq<char>)
    ensures
        encode_utf8(text).contains(0u8) <==> has_terminator(text),
    decreases text.len(),
{
    if text.len() > 0 {
        let head = encode_scalar(text[0] as u32);
        let rest = text.drop_first();
        let tail = encode_utf8(rest);
        lemma_encoded_terminator(rest);
        lemma_scalar_terminator(text[0]);
        assert(encode_utf8(text) == head + tail);
        if head.contains(0u8) {
            let i = choose|i: int| 0 <= i < head.len() && head[i] == 0u8;
            assert((head + tail)[i] == 0u8);
        }
        if tail.contains(0u8) {
            let i = choose|i: int| 0 <= i < tail.len() && tail[i] == 0u8;
            assert((head + tail)[head.len() + i] == 0u8);
            let j = choose|j: int| 0 <= j < rest.len() && rest[j] == '\0';
            assert(text[j + 1] == '\0');
        }
        if (head + tail).contains(0u8) {
            let i = choose|i: int| 0 <= i < (head + tail).len() && (head + tail)[i] == 0u8;
            if i < head.len() {
                assert(head[i] == 0u8);
            } else {
                assert(tail[i - head.len()] == 0u8);
            }
        }
        if has_terminator(text) {
            let j = choose|j: int| 0 <= j < text.len() && text[j] == '\0';
            if j > 0 {
                assert(rest[j - 1] == '\0');
            }
        }
    }
}

proof fn lemma_interior_null_text()
    ensures
        !has_terminator(interior_null_text()),
{
    reveal_strlit("ffi string contains interior null");
}

/// Whatever the text, the bytes that cross the boundary for it are UTF-8 and
/// hold no zero byte: a terminator can follow them.
pub proof fn lemma_wire_bytes(text: Seq<char>)
    ensures
        valid_utf8(wire_bytes(text)),
        !wire_bytes(text).contains(0u8),
{
    encode_utf8_valid_utf8(wire_text(text));
    lemma_interior_null_text();
    lemma_encoded_terminator(wire_text(text));
}

/// The description that `std` prints for the error `std::str::from_utf8`
/// returns on `bytes`. It is a function of the bytes alone and is left
/// unstated: the bridge only forwards it.
pub uninterp spec fn utf8_error_text(bytes: Seq<u8>) -> Seq<char>;

/// Validates `bytes` with `std::str::from_utf8`.
///
/// Trusted: the call succeeds exactly on well-formed UTF-8 and then yields
/// the text those bytes encode; otherwise the error is handed back as the
/// description `std` prints for it, named `utf8_error_text`.
#[verifier::external_body]
pub(crate) fn text_from_utf8(bytes: &[u8]) -> (r: Result<&str, String>)
    ensures
        r is Ok <==> valid_utf8(bytes@),
        r matches Ok(text) ==> text@ == decode_utf8(bytes@),
        r matches Err(detail) ==> detail@ == utf8_error_text(bytes@),
{
    match std::str::from_utf8(bytes) {
        Ok(text) => Ok(text),
        Err(err) => Err(err.to_string()),
    }
}

/// Tells whether `bytes` holds a zero byte.
pub fn has_zero_byte(bytes: &[u8]) -> (found: bool)
    ensures
        found == bytes@.contains(0u8),
{
    let mut i: usize = 0;
    while i < bytes.len()
        invariant
            i <= bytes@.len(),
            forall|k: int| 0 <= k < i ==> bytes@[k] != 0u8,
        decreases bytes@.len() - i,
    {
        if bytes[i] == 0 {
            return true;
        }
        i += 1;
    }
    false
}

} // verus!
