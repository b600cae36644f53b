//! Text fields of the emulated RAM: decoding and trimming of NUL padding.

use vstd::prelude::*;
use vstd::utf8::{decode_utf8, valid_utf8};

verus! {

/// Character encoding of a text field.
#[derive(Clone, Copy, Debug, PartialEq, Eq, Structural)]
pub enum TextEncoding {
    Utf8,
    ShiftJis,
}

/// The characters that `bytes` spell in Shift-JIS, or `None` where they hold a
/// malformed sequence. Stands for the result of `encoding_rs`'s decoder.
pub uninterp spec fn shift_jis_text(bytes: Seq<u8>) -> Option<Seq<char>>;

/// `chars` without the NUL characters at its end.
pub open spec fn without_trailing_nul(chars: Seq<char>) -> Seq<char>
    decreases chars.len(),
{
    if chars.len() > 0 && chars.last() == '\0' {
        without_trailing_nul(chars.drop_last())
    } else {
        chars
    }
}

/// Whether a buffer of `len` bytes is short enough for the Shift-JIS decoder,
/// which allocates three bytes of output for each byte of input.
pub open spec fn shift_jis_decodable_len(len: nat) -> bool {
    3 * len <= isize::MAX
}

/// What decoding `bytes` in `encoding` gives before trimming.
pub open spec fn decoded_text(bytes: Seq<u8>, encoding: TextEncoding) -> Option<Seq<char>> {
    match encoding {
        TextEncoding::Utf8 => if valid_utf8(bytes) {
            Some(decode_utf8(bytes))
        } else {
            None
        },
        TextEncoding::ShiftJis => if shift_jis_decodable_len(bytes.len()) {
            shift_jis_text(bytes)
        } else {
            None
        },
    }
}

/// The text of a field: its bytes decoded, then the NUL padding trimmed.
pub open spec fn field_text(bytes: Seq<u8>, encoding: TextEncoding) -> Option<Seq<char>> {
    match decoded_text(bytes, encoding) {
        Some(chars) => Some(without_trailing_nul(chars)),
        None => None,
    }
}

/// Calls `String::from_utf8`. Trusted: the call succeeds exactly on well-formed
/// UTF-8, and the string then holds the characters that the bytes encode.
#[verifier::external_body]
fn utf8_to_string(bytes: Vec<u8>) -> (text: Option<String>)
    ensures
        text is Some <==> valid_utf8(bytes@),
        text matches Some(s) ==> s@ == decode_utf8(bytes@),
{
    match String::from_utf8(bytes) {
        Ok(s) => Some(s),
        Err(_) => None,
    }
}

/// Calls `encoding_rs::Encoding::decode_without_bom_handling_and_without_replacement`
/// on `encoding_rs::SHIFT_JIS`. Trusted: the result is a function of the bytes
/// alone, `None` meaning a malformed sequence. The length bound keeps the
/// decoder's buffer size computation from overflowing.
#[verifier::external_body]
fn shift_jis_to_string(bytes: &Vec<u8>) -> (text: Option<String>)
    requires
        shift_jis_decodable_len(bytes@.len()),
    ensures
        text is Some <==> shift_jis_text(bytes@) is Some,
        text matches Some(s) ==> shift_jis_text(bytes@) == Some(s@),
{
    match encoding_rs::SHIFT_JIS.decode_without_bom_handling_and_without_replacement(bytes) {
        Some(s) => Some(s.into_owned()),
        None => None,
    }
}

/// Calls `str::trim_end_matches` with the NUL character. Trusted: the result is
/// the text without the NUL characters at its end.
#[verifier::external_body]
fn trim_nul_padding<'a>(text: &'a str) -> (trimmed: &'a str)
    ensures
        trimmed@ == without_trailing_nul(text@),
{
    text.trim_end_matches('\0')
}

/// Trims the NUL padding off a decoded field; an absent field stays absent.
pub fn finish_text(decoded: Option<String>) -> (text: Option<String>)
    ensures
        text is Some <==> decoded is Some,
        text matches Some(s) ==> s@ == without_trailing_nul(decoded->Some_0@),
{
    match decoded {
        Some(s) => {
            let trimmed = trim_nul_padding(s.as_str());
            Some(trimmed.to_owned())
        },
        None => None,
    }
}

/// Decodes the raw bytes of a text field and trims its NUL padding.
/// Returns `None` where the bytes are not valid in `encoding`.
pub fn decode_text(bytes: Vec<u8>, encoding: TextEncoding) -> (text: Option<String>)
    ensures
        text is Some <==> field_text(bytes@, encoding) is Some,
        text matches Some(s) ==> field_text(bytes@, encoding) == Some(s@),
{
    let decoded = match encoding {
        TextEncoding::Utf8 => utf8_to_string(bytes),
        TextEncoding::ShiftJis => {
            if bytes.len() <= (isize::MAX as usize) / 3 {
                shift_jis_to_string(&bytes)
            } else {
                None
            }
        },
    };
    finish_text(decoded)
}

} // verus!
