use base64::Engine;
use vstd::prelude::*;
use vstd::utf8::*;

verus! {

#[verifier::external_type_specification]
#[verifier::external_body]
pub struct ExDecodeError(base64::DecodeError);

/// The text that the standard, padded base64 engine encodes `bytes` to.
pub uninterp spec fn base64_text(bytes: Seq<u8>) -> Seq<char>;

/// What the standard, padded base64 engine decodes a text of whole
/// four-character groups to (`None` where it refuses the text).
pub uninterp spec fn base64_quads(text: Seq<u8>) -> Option<Seq<u8>>;

/// What the standard, padded base64 engine decodes `text` (given by its
/// bytes) to. A text whose length is not a multiple of four is always
/// refused: one leftover symbol cannot form a byte, and canonical padding
/// demands whole groups of four.
pub open spec fn base64_decoded(text: Seq<u8>) -> Option<Seq<u8>> {
    if text.len() % 4 == 0 {
        base64_quads(text)
    } else {
        None
    }
}

/// Whether the padded base64 text of `n` bytes has a length that fits in
/// `usize` (the engine panics otherwise).
pub open spec fn base64_fits(n: nat) -> bool {
    4 * ((n + 2) / 3) <= usize::MAX
}

/// Wraps `base64::engine::general_purpose::STANDARD.encode`.
///
/// Claims, from the engine's source and documentation: the text is
/// `base64_text(bytes)`, made of ASCII characters only (the standard
/// alphabet and `=`), padded to `4 * ceil(n / 3)` characters, and the same
/// engine decodes its bytes back to `bytes`.
#[verifier::external_body]
pub(crate) fn base64_encode(bytes: &[u8]) -> (text: String)
    requires
        base64_fits(bytes@.len()),
    ensures
        text@ == base64_text(bytes@),
        text@.len() == 4 * ((bytes@.len() + 2) / 3),
        is_ascii_chars(text@),
        base64_decoded(encode_utf8(text@)) == Some(bytes@),
{
    base64::engine::general_purpose::STANDARD.encode(bytes)
}

/// Wraps `base64::engine::general_purpose::STANDARD.decode`.
///
/// Claims: a text of whole groups of four decodes to `base64_quads` of it
/// (an error where that is `None`), and canonical padding means the text
/// has exactly the length that encoding the decoded bytes gives. That a text whose length is not a
/// multiple of four is refused comes from the engine's source
/// (`decode_suffix` with `DecodePaddingMode::RequireCanonical`).
#[verifier::external_body]
pub(crate) fn base64_decode(text: &[u8]) -> (result: Result<Vec<u8>, base64::DecodeError>)
    ensures
        text@.len() % 4 != 0 ==> result is Err,
        text@.len() % 4 == 0 ==> match result {
            Ok(bytes) => base64_quads(text@) == Some(bytes@) && text@.len() == 4 * ((bytes@.len() + 2) / 3),
            Err(_) => base64_quads(text@) is None,
        },
{
    base64::engine::general_purpose::STANDARD.decode(text)
}

} // verus!
