//! Base64 text of raw bytes, made by the `base64` crate.

use vstd::prelude::*;

verus! {

/// The standard, padded base64 text of a byte sequence, as the `base64`
/// crate's `STANDARD` engine writes it.
pub uninterp spec fn base64_text(data: Seq<u8>) -> Seq<char>;

/// Calls `Engine::encode` on `base64::engine::general_purpose::STANDARD`.
/// Trusted: the result is the base64 text of exactly the bytes handed in.
#[verifier::external_body]
pub(crate) fn base64_encode(data: &[u8]) -> (text: String)
    ensures
        text@ == base64_text(data@),
{
    base64::Engine::encode(&base64::engine::general_purpose::STANDARD, data)
}

} // verus!
