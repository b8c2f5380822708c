//! Payload text projection: a non-failing rendering of payload bytes as
//! text, substituting the replacement character for invalid sequences.

use vstd::prelude::*;

verus! {

/// The character sequence that lossy UTF-8 decoding yields for a byte
/// sequence: the decoded text where the bytes are valid UTF-8, with each
/// invalid sequence replaced by the replacement character.
pub uninterp spec fn lossy_text_of(bytes: Seq<u8>) -> Seq<char>;

/// Whether every byte of the sequence is in the ASCII range.
pub open spec fn all_ascii(bytes: Seq<u8>) -> bool {
    forall|i: int| 0 <= i < bytes.len() ==> bytes[i] < 0x80
}

/// The characters that a sequence of ASCII bytes spells, one per byte.
pub open spec fn ascii_chars_of(bytes: Seq<u8>) -> Seq<char> {
    bytes.map_values(|b: u8| b as char)
}

/// Relies on `String::from_utf8_lossy`: the result depends on the bytes
/// alone; valid UTF-8 decodes to itself and every ASCII byte is valid UTF-8
/// for the character of the same value, while invalid sequences become
/// replacement characters.
#[verifier::external_body]
fn utf8_lossy(bytes: &[u8]) -> (r: String)
    ensures
        r@ == lossy_text_of(bytes@),
        all_ascii(bytes@) ==> r@ == ascii_chars_of(bytes@),
{
    String::from_utf8_lossy(bytes).into_owned()
}

/// Renders payload bytes as text for display. This never fails: bytes that
/// are not valid text are shown with the replacement character instead.
pub fn as_text(payload: &[u8]) -> (r: String)
    ensures
        r@ == lossy_text_of(payload@),
        all_ascii(payload@) ==> r@ == ascii_chars_of(payload@),
{
    utf8_lossy(payload)
}

} // verus!
