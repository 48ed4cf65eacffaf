//! Base64, UTF-8 and quoting: texts and bytes in another notation.
use base64::engine::general_purpose::{STANDARD, URL_SAFE_NO_PAD};
use base64::Engine;
use vstd::prelude::*;

verus! {

/// The bytes that a padded standard base64 text stands for, when it is one.
pub uninterp spec fn base64_decoded(text: Seq<char>) -> Option<Seq<u8>>;

/// The unpadded URL-safe base64 text of some bytes.
pub uninterp spec fn base64url_encoded(bytes: Seq<u8>) -> Seq<char>;

/// The bytes that an unpadded URL-safe base64 text stands for, or what the decoder reports of a
/// text that is none.
pub uninterp spec fn base64url_decoded(text: Seq<char>) -> Result<Seq<u8>, Seq<char>>;

/// A text between double quotes, with the characters escaped that Rust's `Debug` escapes.
pub uninterp spec fn quoted(text: Seq<char>) -> Seq<char>;

/// The alphabet of URL-safe base64.
pub open spec fn is_base64url_char(c: char) -> bool {
    ||| 'A' <= c && c <= 'Z'
    ||| 'a' <= c && c <= 'z'
    ||| '0' <= c && c <= '9'
    ||| c == '-'
    ||| c == '_'
}

/// Whether `text` is unpadded URL-safe base64 and stands for `bytes`.
pub open spec fn decodes_to(text: Seq<char>, bytes: Seq<u8>) -> bool {
    base64url_decoded(text) matches Ok(decoded) && decoded == bytes
}

/// The bytes of an optional buffer.
pub open spec fn optional_bytes(bytes: Option<Vec<u8>>) -> Option<Seq<u8>> {
    match bytes {
        Some(bytes) => Some(bytes@),
        None => None,
    }
}

/// The text of some bytes, when they are UTF-8.
pub open spec fn utf8_text(bytes: Seq<u8>) -> Option<Seq<char>> {
    if vstd::utf8::valid_utf8(bytes) {
        Some(vstd::utf8::decode_utf8(bytes))
    } else {
        None
    }
}

/// `base64::Engine::decode` of the engine `STANDARD`. Which bytes a text stands for is left to
/// [`base64_decoded`].
#[verifier::external_body]
pub(crate) fn base64_decode(text: &str) -> (bytes: Option<Vec<u8>>)
    ensures
        optional_bytes(bytes) == base64_decoded(text@),
{
    STANDARD.decode(text).ok()
}

/// `base64::Engine::encode` of the engine `URL_SAFE_NO_PAD`. The text is spelled in the URL-safe
/// alphabet, without padding, and decoding it with the same engine gives the bytes back.
#[verifier::external_body]
pub(crate) fn base64url_encode(bytes: &[u8]) -> (text: String)
    ensures
        text@ == base64url_encoded(bytes@),
        decodes_to(text@, bytes@),
        forall|i: int| 0 <= i < text@.len() ==> is_base64url_char(#[trigger] text@[i]),
{
    URL_SAFE_NO_PAD.encode(bytes)
}

/// `base64::Engine::decode` of the engine `URL_SAFE_NO_PAD`, with its error as text. Which bytes a
/// text stands for, and what is reported of one that is no base64, is left to
/// [`base64url_decoded`].
#[verifier::external_body]
pub(crate) fn base64url_decode(text: &str) -> (bytes: Result<Vec<u8>, String>)
    ensures
        match bytes {
            Ok(found) => base64url_decoded(text@) matches Ok(decoded) && decoded == found@,
            Err(report) => base64url_decoded(text@) matches Err(fault) && fault == report@,
        },
{
    URL_SAFE_NO_PAD.decode(text).map_err(|error| error.to_string())
}

/// `String::from_utf8` accepts exactly the valid UTF-8 byte sequences, and decodes them.
#[verifier::external_body]
pub(crate) fn from_utf8(bytes: Vec<u8>) -> (text: Option<String>)
    ensures
        crate::text::optional(text) == utf8_text(bytes@),
{
    String::from_utf8(bytes).ok()
}

/// The `Debug` form of a text. Which characters are escaped, and how, is left to [`quoted`].
#[verifier::external_body]
pub(crate) fn quote(text: &str) -> (out: String)
    ensures
        out@ == quoted(text@),
{
    format!("{text:?}")
}

} // verus!
