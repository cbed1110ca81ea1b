//! Base64 text forms and random bytes, computed by `base64` and `rand`.

use vstd::prelude::*;

verus! {

/// The bytes that `text` decodes to in base64, with the URL-safe alphabet
/// when `url_safe` holds and the standard one otherwise; `None` where it
/// does not decode.
pub uninterp spec fn base64_decoded(text: Seq<char>, url_safe: bool) -> Option<Seq<u8>>;

/// The URL-safe base64 text of `data`, without padding.
pub uninterp spec fn base64url_text(data: Seq<u8>) -> Seq<char>;

/// A symbol of the base64 alphabet (standard or URL-safe), padding aside.
pub open spec fn base64_symbol(c: char, url_safe: bool) -> bool {
    ('A' <= c <= 'Z') || ('a' <= c <= 'z') || ('0' <= c <= '9') || (if url_safe {
        c == '-' || c == '_'
    } else {
        c == '+' || c == '/'
    })
}

/// Relies on base64::decode_config with STANDARD or URL_SAFE (padding is
/// optional when decoding); a byte outside the alphabet and `=` is refused.
#[verifier::external_body]
pub(crate) fn base64_decode(text: &str, url_safe: bool) -> (r: Option<Vec<u8>>)
    ensures
        r matches Some(b) ==> base64_decoded(text@, url_safe) == Some(b@),
        r is None ==> base64_decoded(text@, url_safe) is None,
        r is Some ==> forall|i: int|
            0 <= i < text@.len() ==> base64_symbol(#[trigger] text@[i], url_safe) || text@[i] == '=',
{
    let config = if url_safe { base64::URL_SAFE } else { base64::STANDARD };
    base64::decode_config(text, config).ok()
}

/// Relies on base64::encode_config with URL_SAFE_NO_PAD: four symbols of the
/// URL-safe alphabet for each three bytes, two or three for a last partial
/// group, and no padding.
#[verifier::external_body]
pub(crate) fn base64url_encode(data: &[u8]) -> (r: String)
    ensures
        r@ == base64url_text(data@),
        r@.len() == (4 * data@.len() + 2) / 3,
        forall|i: int| 0 <= i < r@.len() ==> base64_symbol(#[trigger] r@[i], true),
{
    base64::encode_config(data, base64::URL_SAFE_NO_PAD)
}

/// Relies on rand::thread_rng and RngCore::fill_bytes: `len` bytes from the
/// thread-local CSPRNG; nothing is known of their values.
#[verifier::external_body]
pub(crate) fn random_bytes(len: usize) -> (r: Vec<u8>)
    ensures
        r@.len() == len,
{
    let mut bytes = vec![0u8; len];
    rand::RngCore::fill_bytes(&mut rand::thread_rng(), &mut bytes);
    bytes
}

} // verus!
