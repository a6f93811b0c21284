//! Password credentials: salted, memory-hard hashing and verification
//! through argon2, behind trusted wrappers.  Each credential is a PHC
//! string carrying its own salt and parameters, so verification is a
//! function of the password and the credential alone.

use vstd::prelude::*;

verus! {

use crate::hashing::hex_encode;
use crate::random::random_bytes;

/// The longest password, in characters, that hashing accepts.  Argon2
/// caps the password at 2^32 - 1 bytes; UTF-8 spends at most four
/// bytes per character, so any password of fewer than 2^30 characters
/// is within that cap whatever its characters are.
pub const MAX_PASSWORD_CHARS: usize = 0x4000_0000;

/// Whether a stored credential string parses as a PHC password hash.
pub uninterp spec fn argon2_parses(credential: Seq<char>) -> bool;

/// Whether argon2 verification of this password against this credential
/// succeeds.  The salt and cost parameters are read from the credential
/// itself, so the outcome depends on these two strings alone.
pub uninterp spec fn argon2_verifies(password: Seq<char>, credential: Seq<char>) -> bool;

/// The outcome of checking a password against a stored credential.
/// A malformed credential is kept distinct from a wrong password here;
/// the use-case layer maps both to the same external signal.
#[derive(Debug, PartialEq, Eq, Structural)]
pub enum PasswordCheck {
    Match,
    Mismatch,
    Malformed,
}

/// Relies on argon2's PasswordHasher::hash_password with default
/// parameters: the produced PHC credential string parses back, and
/// verify_password recomputes the same hash from the credential's own
/// salt and parameters, so the same password verifies against it.
/// A 32-character lower-hex salt is accepted by SaltString::from_b64
/// (within its 4..=64 length bound and B64 character set), decodes to
/// 24 bytes within argon2's salt bounds, and with a password under
/// argon2's documented maximum of 2^32 - 1 bytes — guaranteed by
/// fewer than 2^30 characters at no more than four UTF-8 bytes each —
/// hashing with the default parameters has no failing path, so such a
/// call succeeds.
#[verifier::external_body]
pub(crate) fn argon2_hash(password: &str, salt_b64: &str) -> (r: Option<String>)
    ensures
        r matches Some(c) ==> argon2_parses(c@) && argon2_verifies(password@, c@),
        (salt_b64@.len() == 32 && (forall|i: int|
            0 <= i < 32 ==> crate::hashing::is_lower_hex_digit(#[trigger] salt_b64@[i]))
            && password@.len() < MAX_PASSWORD_CHARS) ==> r is Some,
{
    let salt = match argon2::password_hash::SaltString::from_b64(salt_b64) {
        Ok(s) => s,
        Err(_) => return None,
    };
    let hasher = argon2::Argon2::default();
    match argon2::PasswordHasher::hash_password(&hasher, password.as_bytes(), &salt) {
        Ok(h) => Some(h.to_string()),
        Err(_) => None,
    }
}

/// Relies on password-hash's PasswordHash::new and verify_password:
/// parsing and verification are determined by the password and the
/// credential string alone, and verification runs in time independent
/// of where a mismatch occurs.
#[verifier::external_body]
pub(crate) fn argon2_check(password: &str, credential: &str) -> (r: PasswordCheck)
    ensures
        (r is Malformed) == !argon2_parses(credential@),
        (r is Match) == (argon2_parses(credential@) && argon2_verifies(
            password@,
            credential@,
        )),
        (r is Mismatch) == (argon2_parses(credential@) && !argon2_verifies(
            password@,
            credential@,
        )),
{
    let parsed = match argon2::password_hash::PasswordHash::new(credential) {
        Ok(p) => p,
        Err(_) => return PasswordCheck::Malformed,
    };
    let hasher = argon2::Argon2::default();
    match argon2::PasswordVerifier::verify_password(&hasher, password.as_bytes(), &parsed) {
        Ok(()) => PasswordCheck::Match,
        Err(_) => PasswordCheck::Mismatch,
    }
}

/// Hashes a password under a fresh random 16-byte salt, never reused
/// and never derived from user data.  The salt is handed down as its
/// 32-character hex form, which argon2 always accepts, so hashing
/// succeeds exactly when the password is within argon2's length cap.
pub fn hash_password(password: &str) -> (r: Option<String>)
    ensures
        (r is Some) <==> password@.len() < MAX_PASSWORD_CHARS,
        r matches Some(c) ==> argon2_parses(c@) && argon2_verifies(password@, c@),
{
    if password.unicode_len() >= MAX_PASSWORD_CHARS {
        return None;
    }
    let salt = random_bytes(16);
    let salt_b64 = hex_encode(&salt);
    proof {
        crate::hashing::lemma_hex_of_digits(salt@);
    }
    Some(argon2_hash(password, salt_b64.as_str()).unwrap())
}

/// Checks a password against a stored credential.
pub fn verify_password(password: &str, credential: &str) -> (r: PasswordCheck)
    ensures
        (r is Match) == (argon2_parses(credential@) && argon2_verifies(
            password@,
            credential@,
        )),
        (r is Malformed) == !argon2_parses(credential@),
{
    argon2_check(password, credential)
}

} // verus!
