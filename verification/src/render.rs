//! Rendering byte sequences for diagnostics: as text where the bytes are
//! valid UTF-8, as a listing of hexadecimal values where they are not.

use vstd::prelude::*;
use vstd::slice::slice_to_vec;
use vstd::utf8::decode_utf8;
use vstd::utf8::encode_utf8;
use vstd::utf8::encode_utf8_decode_utf8;
use vstd::utf8::encode_utf8_valid_utf8;
use vstd::utf8::is_ascii_chars;
use vstd::utf8::is_ascii_chars_encode_utf8;
use vstd::utf8::valid_utf8;

verus! {

/// The sixteen hexadecimal digits, in upper case.
pub open spec fn hex_digits() -> Seq<char> {
    "0123456789ABCDEF"@
}

/// One byte in hexadecimal: upper case, without prefix and without a leading
/// zero, so one digit below sixteen and two digits from there on.
pub open spec fn hex_of_byte(byte: u8) -> Seq<char> {
    if byte < 16 {
        seq![hex_digits()[byte as int]]
    } else {
        seq![hex_digits()[byte as int / 16], hex_digits()[byte as int % 16]]
    }
}

/// The hexadecimal forms of `bytes`, joined by a comma and a space.
pub open spec fn hex_joined(bytes: Seq<u8>) -> Seq<char>
    decreases bytes.len(),
{
    if bytes.len() == 0 {
        Seq::empty()
    } else if bytes.len() == 1 {
        hex_of_byte(bytes[0])
    } else {
        hex_joined(bytes.drop_last()) + ", "@ + hex_of_byte(bytes.last())
    }
}

/// `bytes` as a bracketed listing of hexadecimal values, such as `[4E, 0, FF]`.
pub open spec fn hex_listing(bytes: Seq<u8>) -> Seq<char> {
    "["@ + hex_joined(bytes) + "]"@
}

/// How `bytes` are shown in a diagnostic: their text where they are valid
/// UTF-8, their hexadecimal listing where they are not.
pub open spec fn rendered(bytes: Seq<u8>) -> Seq<char> {
    if valid_utf8(bytes) {
        decode_utf8(bytes)
    } else {
        hex_listing(bytes)
    }
}

/// True where every byte is an ASCII code, below 128.
pub open spec fn is_ascii_bytes(bytes: Seq<u8>) -> bool {
    forall|i: int| 0 <= i < bytes.len() ==> #[trigger] bytes[i] < 0x80
}

/// The characters whose codes are `bytes`, one for each byte.
pub open spec fn ascii_text(bytes: Seq<u8>) -> Seq<char> {
    Seq::new(bytes.len(), |i: int| bytes[i] as char)
}

/// ASCII is text: bytes below 128 are valid UTF-8 and are rendered as the
/// characters with those codes.
pub proof fn lemma_ascii_renders_as_text(bytes: Seq<u8>)
    requires
        is_ascii_bytes(bytes),
    ensures
        valid_utf8(bytes),
        rendered(bytes) == ascii_text(bytes),
{
    let text = ascii_text(bytes);
    is_ascii_chars_encode_utf8(text);
    assert(encode_utf8(text) =~= bytes);
    encode_utf8_valid_utf8(text);
    encode_utf8_decode_utf8(text);
}

/// No text begins with a continuation byte or with a byte above `0xF7`:
/// such bytes are rendered as their hexadecimal listing.
pub proof fn lemma_stray_first_byte_renders_as_hex(bytes: Seq<u8>)
    requires
        bytes.len() > 0,
        0x80 <= bytes[0] <= 0xBF || 0xF8 <= bytes[0],
    ensures
        !valid_utf8(bytes),
        rendered(bytes) == hex_listing(bytes),
{
}

/// Decodes `bytes` as UTF-8 text with `String::from_utf8` of the standard
/// library. Assumed, not proved: the call succeeds exactly on the byte
/// sequences that are valid UTF-8, and the string it then returns holds the
/// characters that those bytes encode.
#[verifier::external_body]
fn text_from_utf8(bytes: Vec<u8>) -> (text: Option<String>)
    ensures
        text is Some <==> valid_utf8(bytes@),
        text matches Some(decoded) ==> decoded@ == decode_utf8(bytes@),
{
    match String::from_utf8(bytes) {
        Ok(decoded) => Some(decoded),
        Err(_) => None,
    }
}

/// Appends the hexadecimal digit of `nibble` to `text`.
fn push_hex_digit(text: &mut String, nibble: u8)
    requires
        nibble < 16,
    ensures
        final(text)@ == old(text)@.push(hex_digits()[nibble as int]),
{
    let digits: &'static str = "0123456789ABCDEF";
    proof {
        reveal_strlit("0123456789ABCDEF");
    }
    let index: usize = nibble as usize;
    text.append(digits.substring_ascii(index, index + 1));
}

/// Appends the hexadecimal form of `byte` to `text`.
fn push_hex_byte(text: &mut String, byte: u8)
    ensures
        final(text)@ == old(text)@ + hex_of_byte(byte),
{
    if byte >= 16 {
        push_hex_digit(text, byte / 16);
    }
    push_hex_digit(text, byte % 16);
}

/// Renders `bytes` as a bracketed listing of hexadecimal values, separated by
/// a comma and a space, with no separator after the last.
pub fn hex_listing_of(bytes: &[u8]) -> (text: String)
    ensures
        text@ == hex_listing(bytes@),
{
    let mut text: String = String::from_str("[");
    let mut index: usize = 0;
    while index < bytes.len()
        invariant
            index <= bytes@.len(),
            text@ == "["@ + hex_joined(bytes@.take(index as int)),
        decreases bytes@.len() - index,
    {
        if index > 0 {
            text.append(", ");
        }
        push_hex_byte(&mut text, bytes[index]);
        proof {
            assert(bytes@.take(index as int + 1).drop_last() =~= bytes@.take(index as int));
        }
        index += 1;
    }
    proof {
        assert(bytes@.take(index as int) =~= bytes@);
    }
    text.append("]");
    text
}

/// Renders `bytes` for a diagnostic: as text where they are valid UTF-8,
/// otherwise as their hexadecimal listing. The bytes themselves are left as
/// they are.
pub fn render_bytes(bytes: &[u8]) -> (text: String)
    ensures
        text@ == rendered(bytes@),
{
    match text_from_utf8(slice_to_vec(bytes)) {
        Some(decoded) => decoded,
        None => hex_listing_of(bytes),
    }
}

} // verus!
