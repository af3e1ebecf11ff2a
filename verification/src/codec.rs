//! Text encodings at the storage boundary, and token minting.
//!
//! Credential files are kept base64-encoded inside the account record, and
//! mail-confirmation tokens are URL-safe base64 of 32 random bytes.  The
//! encoding itself is done by the `base64` crate; its behaviour enters the
//! proofs only through the contracts of the wrappers below.

use vstd::prelude::*;
use rand::RngCore;

verus! {

/// What `base64::decode` returns on a given text: `Some` exactly on
/// well-formed standard-alphabet base64, and then the decoded bytes.
pub uninterp spec fn b64_decode_of(s: Seq<char>) -> Option<Seq<u8>>;

/// Whether `base64::decode_config` with the URL-safe alphabet accepts a text.
pub uninterp spec fn urlsafe_decodes(s: Seq<char>) -> bool;

/// Relies on `base64::encode`: standard alphabet with padding; the output has
/// the documented padded length and decodes back to the input.
#[verifier::external_body]
pub(crate) fn encode_standard(bytes: &Vec<u8>) -> (r: String)
    ensures
        r@.len() == 4 * ((bytes@.len() + 2) / 3),
        b64_decode_of(r@) == Some(bytes@),
{
    base64::encode(bytes)
}

/// Relies on `base64::decode`: accepts exactly well-formed standard base64
/// and returns the decoded bytes.
#[verifier::external_body]
pub(crate) fn decode_standard(s: &str) -> (r: Option<Vec<u8>>)
    ensures
        match r {
            Some(v) => b64_decode_of(s@) == Some(v@),
            None => b64_decode_of(s@) is None,
        },
{
    match base64::decode(s) {
        Ok(v) => Some(v),
        Err(_) => None,
    }
}

/// Relies on `base64::encode_config` with `URL_SAFE`: padded output length,
/// and the output is accepted by the URL-safe decoder.
#[verifier::external_body]
pub(crate) fn encode_urlsafe(bytes: &Vec<u8>) -> (r: String)
    ensures
        r@.len() == 4 * ((bytes@.len() + 2) / 3),
        urlsafe_decodes(r@),
{
    base64::encode_config(bytes, base64::URL_SAFE)
}

/// Relies on `base64::decode_config` with `URL_SAFE`: whether the text is
/// well-formed URL-safe base64.
#[verifier::external_body]
pub(crate) fn urlsafe_well_formed(s: &str) -> (r: bool)
    ensures
        r == urlsafe_decodes(s@),
{
    base64::decode_config(s, base64::URL_SAFE).is_ok()
}

/// Relies on `rand`'s `OsRng::fill_bytes`: fills the whole 32-byte buffer
/// from operating-system randomness.  Nothing is assumed about the values.
#[verifier::external_body]
fn random_token_bytes() -> (r: Vec<u8>)
    ensures
        r@.len() == 32,
{
    let mut buf = vec![0u8; 32];
    rand::rngs::OsRng.fill_bytes(&mut buf);
    buf
}

/// Mints a fresh mail-confirmation token: URL-safe base64 of 32 random
/// bytes, so 44 characters that the URL-safe decoder accepts.
pub fn mint_verification_token() -> (t: String)
    ensures
        t@.len() == 44,
        urlsafe_decodes(t@),
{
    let bytes = random_token_bytes();
    encode_urlsafe(&bytes)
}

} // verus!
