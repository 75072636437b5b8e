//! The payload signature: its transport encoding and its verification
//! against a public key.

use vstd::prelude::*;

verus! {

/// The bytes that the standard base64 engine of the `base64` crate decodes
/// from a text; `None` where it reports an error.
pub uninterp spec fn base64_decoded(text: Seq<char>) -> Option<Seq<u8>>;

/// `openssl::error::ErrorStack`, the errors that OpenSSL reports. Nothing is
/// known of what a value holds.
#[verifier::external_type_specification]
#[verifier::external_body]
pub struct ExErrorStack(openssl::error::ErrorStack);

/// Calls `Engine::decode` on `base64::engine::general_purpose::STANDARD`.
/// The contract names the bytes decoded and says that nothing is returned
/// exactly where the engine reports an error.
#[verifier::external_body]
pub(crate) fn base64_decode(text: &str) -> (decoded: Option<Vec<u8>>)
    ensures
        match decoded {
            Some(bytes) => base64_decoded(text@) == Some(bytes@),
            None => base64_decoded(text@) is None,
        },
{
    base64::Engine::decode(&base64::engine::general_purpose::STANDARD, text).ok()
}

/// Calls `PKey::public_key_from_pem`, `Verifier::new` with
/// `MessageDigest::sha1`, `Verifier::update` and `Verifier::verify`, in this
/// order, and returns the first error. The decision is made by the OpenSSL
/// library that the program is linked with, under the policy of the system
/// it runs on, so nothing is promised of the result: it is a verdict or an
/// error.
#[verifier::external_body]
pub(crate) fn openssl_verify(pem: &[u8], data: &[u8], signature: &[u8]) -> (report: Result<
    bool,
    openssl::error::ErrorStack,
>) {
    let pkey = openssl::pkey::PKey::public_key_from_pem(pem)?;
    let mut verifier = openssl::sign::Verifier::new(openssl::hash::MessageDigest::sha1(), &pkey)?;
    verifier.update(data)?;
    verifier.verify(signature)
}

} // verus!
