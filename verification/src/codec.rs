//! The boundary to the base64 library. Nothing in this file is proved: the
//! contract restates what the library documents.

use vstd::prelude::*;

verus! {

#[verifier::external_type_specification]
#[verifier::external_body]
pub struct ExBase64DecodeError(base64::DecodeError);

/// The bytes that a run of base64 symbols stands for in the standard
/// alphabet with canonical padding, where it stands for any.
pub uninterp spec fn base64_decoding(symbols: Seq<u8>) -> Option<Seq<u8>>;

/// `base64::Engine::decode` of the standard engine: the decoded bytes, or
/// the library's error where the input is not canonical base64.
#[verifier::external_body]
pub(crate) fn decode_standard(symbols: &[u8]) -> (r: Result<Vec<u8>, base64::DecodeError>)
    ensures
        r matches Ok(bytes) ==> base64_decoding(symbols@) == Some(bytes@),
        r is Err ==> base64_decoding(symbols@) is None,
{
    base64::Engine::decode(&base64::prelude::BASE64_STANDARD, symbols)
}

} // verus!
