//! Text form of byte strings: URL-safe base64 with padding, as keys, requests,
//! responses and tokens travel in it.

use base64::engine::general_purpose::URL_SAFE;
use base64::{DecodeError, Engine};
use vstd::prelude::*;

verus! {

/// The decoder's own error type. It is carried along, never looked into.
#[verifier::external_type_specification]
#[verifier::external_body]
pub struct ExDecodeError(DecodeError);

/// The text that bytes encode to in URL-safe base64 with padding.
pub uninterp spec fn url_safe_text(bytes: Seq<u8>) -> Seq<char>;

/// The bytes that a text decodes to in URL-safe base64 with padding, where
/// it decodes at all.
pub uninterp spec fn url_safe_bytes(text: Seq<char>) -> Option<Seq<u8>>;

/// The length of the text is within what a machine word can count.
pub open spec fn fits_encoding(length: nat) -> bool {
    4 * (length / 3) + 4 <= usize::MAX
}

/// `Engine::encode` of the engine `URL_SAFE`: the text that the bytes encode
/// to. The call fails only where the text would be too long to count, which
/// the precondition leaves out.
#[verifier::external_body]
pub(crate) fn encode_url_safe(bytes: &[u8]) -> (text: String)
    requires
        fits_encoding(bytes@.len()),
    ensures
        text@ == url_safe_text(bytes@),
{
    URL_SAFE.encode(bytes)
}

/// `Engine::decode` of the engine `URL_SAFE`: the bytes that the text decodes
/// to, or the decoder's error where it decodes to none.
#[verifier::external_body]
pub(crate) fn decode_url_safe(text: &str) -> (decoded: Result<Vec<u8>, DecodeError>)
    ensures
        match decoded {
            Ok(bytes) => url_safe_bytes(text@) == Some(bytes@),
            Err(_) => url_safe_bytes(text@) is None,
        },
{
    URL_SAFE.decode(text)
}

/// The text form of bytes.
pub fn encode(bytes: &[u8]) -> (text: String)
    requires
        fits_encoding(bytes@.len()),
    ensures
        text@ == url_safe_text(bytes@),
{
    encode_url_safe(bytes)
}

/// The bytes that a text stands for, or nothing where it is no URL-safe
/// base64.
pub fn decode(text: &str) -> (bytes: Option<Vec<u8>>)
    ensures
        match bytes {
            Some(bytes) => url_safe_bytes(text@) == Some(bytes@),
            None => url_safe_bytes(text@) is None,
        },
{
    match decode_url_safe(text) {
        Ok(bytes) => Some(bytes),
        Err(_) => None,
    }
}

/// Whether two texts are the same, character for character.
pub fn same_text(left: &str, right: &str) -> (same: bool)
    ensures
        same == (left@ == right@),
{
    let left_owned = left.to_owned();
    let right_owned = right.to_owned();
    left_owned == right_owned
}

/// Whether two byte strings are the same, byte for byte.
pub fn same_bytes(left: &[u8], right: &[u8]) -> (same: bool)
    ensures
        same == (left@ == right@),
{
    if left.len() != right.len() {
        return false;
    }
    let mut k: usize = 0;
    while k < left.len()
        invariant
            k <= left.len(),
            left.len() == right.len(),
            left@.take(k as int) == right@.take(k as int),
        decreases left.len() - k,
    {
        if left[k] != right[k] {
            return false;
        }
        k += 1;
        assert(left@.take(k as int) =~= left@.take(k - 1).push(left@[k - 1]));
        assert(right@.take(k as int) =~= right@.take(k - 1).push(right@[k - 1]));
    }
    assert(left@ =~= left@.take(k as int));
    assert(right@ =~= right@.take(k as int));
    true
}

} // verus!
