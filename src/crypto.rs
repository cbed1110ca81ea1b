//! Digests and signature checks, computed by `ring` and `webpki`.

use vstd::prelude::*;

verus! {

/// The SHA-256 digest of a byte string.
pub uninterp spec fn sha256_of(data: Seq<u8>) -> Seq<u8>;

/// Whether `signature` is an ASN.1 DER ECDSA P-256 / SHA-256 signature of
/// `message` under the X9.62 uncompressed public key `public_key`.
pub uninterp spec fn ecdsa_p256_valid(public_key: Seq<u8>, message: Seq<u8>, signature: Seq<u8>) -> bool;

/// Whether `der` parses as an X.509 end-entity certificate.
pub uninterp spec fn x509_end_entity(der: Seq<u8>) -> bool;

/// Whether `der` parses as an X.509 end-entity certificate whose subject key
/// verifies `signature` (ECDSA P-256 / SHA-256, ASN.1 DER) over `message`.
pub uninterp spec fn x509_p256_valid(der: Seq<u8>, message: Seq<u8>, signature: Seq<u8>) -> bool;

/// Relies on ring::digest::digest with SHA256: the 32-byte SHA-256 digest of `data`.
#[verifier::external_body]
pub(crate) fn sha256(data: &[u8]) -> (r: Vec<u8>)
    ensures
        r@ == sha256_of(data@),
        r@.len() == 32,
{
    ring::digest::digest(&ring::digest::SHA256, data).as_ref().to_vec()
}

/// Relies on ring::signature::UnparsedPublicKey::verify with
/// ECDSA_P256_SHA256_ASN1: true exactly when the signature checks out.
#[verifier::external_body]
pub(crate) fn ecdsa_p256_verify(public_key: &[u8], message: &[u8], signature: &[u8]) -> (r: bool)
    ensures
        r == ecdsa_p256_valid(public_key@, message@, signature@),
{
    let key = ring::signature::UnparsedPublicKey::new(
        &ring::signature::ECDSA_P256_SHA256_ASN1,
        public_key,
    );
    key.verify(message, signature).is_ok()
}

/// Relies on webpki::EndEntityCert::try_from: true exactly when the
/// certificate parses.
#[verifier::external_body]
pub(crate) fn x509_parses(der: &[u8]) -> (r: bool)
    ensures
        r == x509_end_entity(der@),
{
    <webpki::EndEntityCert as core::convert::TryFrom<&[u8]>>::try_from(der).is_ok()
}

/// Relies on webpki::EndEntityCert::try_from and
/// webpki::EndEntityCert::verify_signature with ECDSA_P256_SHA256: true
/// exactly when the certificate parses and its key verifies the signature.
#[verifier::external_body]
pub(crate) fn x509_p256_verify(der: &[u8], message: &[u8], signature: &[u8]) -> (r: bool)
    ensures
        r == x509_p256_valid(der@, message@, signature@),
        r ==> x509_end_entity(der@),
{
    match <webpki::EndEntityCert as core::convert::TryFrom<&[u8]>>::try_from(der) {
        Ok(cert) => cert.verify_signature(&webpki::ECDSA_P256_SHA256, message, signature).is_ok(),
        Err(_) => false,
    }
}

} // verus!
