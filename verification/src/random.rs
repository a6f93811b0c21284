//! Generation of opaque token secrets: operating-system randomness and
//! URL-safe encoding behind trusted wrappers.

use vstd::prelude::*;

verus! {

/// The URL-safe, unpadded base64 encoding of a byte sequence.  Stating
/// the alphabet in full would restate the encoder; the encoding is a
/// function of the bytes alone, so it is left as a named, uninterpreted
/// function.
pub uninterp spec fn b64url_of(bytes: Seq<u8>) -> Seq<char>;

/// Relies on rand_core::OsRng::fill_bytes (re-exported through argon2's
/// password-hash dependency): fills the buffer from the operating
/// system's randomness source.  Nothing can be promised of the values.
#[verifier::external_body]
pub(crate) fn random_bytes(n: usize) -> (r: Vec<u8>)
    ensures
        r@.len() == n,
{
    let mut buf = vec![0u8; n];
    argon2::password_hash::rand_core::RngCore::fill_bytes(
        &mut argon2::password_hash::rand_core::OsRng,
        &mut buf,
    );
    buf
}

/// Relies on base64's URL_SAFE_NO_PAD engine: the encoding is computed
/// from the bytes alone, four characters per three bytes, unpadded.
#[verifier::external_body]
pub(crate) fn b64url_encode(bytes: &Vec<u8>) -> (r: String)
    ensures
        r@ == b64url_of(bytes@),
        r@.len() == (bytes@.len() * 4 + 2) / 3,
{
    base64::Engine::encode(&base64::engine::general_purpose::URL_SAFE_NO_PAD, bytes)
}

/// Generates a fresh opaque refresh-token secret: the encoding of some
/// 32-byte draw (256 bits of randomness), URL-safe encoded.  The
/// secret is returned to the caller exactly once and is never stored
/// verbatim.
pub fn new_refresh_token() -> (r: String)
    ensures
        r@.len() == 43,
        exists|b: Seq<u8>| #![trigger b64url_of(b)] b.len() == 32 && r@ == b64url_of(b),
{
    let bytes = random_bytes(32);
    let r = b64url_encode(&bytes);
    proof {
        assert(bytes@.len() == 32 && r@ == b64url_of(bytes@));
    }
    r
}

} // verus!
