//! The access-token codec: issues and verifies short-lived signed
//! tokens carrying subject and timestamps.  Signing and signature
//! checking go through jsonwebtoken behind trusted wrappers; expiry is
//! enforced here, in verified code, against the caller's clock.

use vstd::prelude::*;

verus! {

/// The claims carried by an access token.  Ephemeral: they exist only
/// within the signed token's encoded lifetime and are never persisted.
#[derive(Debug, Clone)]
pub struct AccessClaims {
    pub sub: String,
    pub iat: i64,
    pub exp: i64,
}

/// The signed token produced for the given claims under the given
/// secret.  A function of its arguments alone (HS256 with the default
/// header is deterministic).
pub uninterp spec fn jwt_of(sub: Seq<char>, iat: int, exp: int, secret: Seq<u8>) -> Seq<char>;

/// The claims that signature-checked decoding recovers from a token
/// under a secret, or `None` if the token is malformed or the signature
/// does not match.  A function of its arguments alone.
pub uninterp spec fn jwt_claims_of(token: Seq<char>, secret: Seq<u8>) -> Option<
    (Seq<char>, int, int),
>;

/// Relies on jsonwebtoken::encode with the default HS256 header: the
/// token is computed from claims and secret alone, and decode with the
/// same secret verifies the signature and returns the same claims
/// (non-negative timestamps survive the round trip as-is).  Encoding
/// cannot fail here: the HMAC sign returns Ok unconditionally,
/// serializing the string-keyed claims map cannot fail, and the
/// secret-key family always matches the default header's algorithm.
#[verifier::external_body]
pub(crate) fn jwt_sign(sub: &str, iat: i64, exp: i64, secret: &Vec<u8>) -> (r: Option<String>)
    requires
        0 <= iat,
        0 <= exp,
    ensures
        r is Some,
        r matches Some(t) ==> {
            &&& t@ == jwt_of(sub@, iat as int, exp as int, secret@)
            &&& jwt_claims_of(t@, secret@) == Some((sub@, iat as int, exp as int))
        },
{
    let mut claims = serde_json::Map::new();
    claims.insert("sub".to_string(), serde_json::Value::String(sub.to_string()));
    claims.insert("iat".to_string(), serde_json::Value::from(iat));
    claims.insert("exp".to_string(), serde_json::Value::from(exp));
    let key = jsonwebtoken::EncodingKey::from_secret(secret);
    let header = jsonwebtoken::Header::default();
    match jsonwebtoken::encode(&header, &serde_json::Value::Object(claims), &key) {
        Ok(t) => Some(t),
        Err(_) => None,
    }
}

/// Relies on jsonwebtoken::decode with signature validation on and
/// expiry validation off: acceptance and the recovered claims are then
/// determined by the token and secret alone.  Expiry is enforced by the
/// verified caller, not here.
#[verifier::external_body]
pub(crate) fn jwt_parse(token: &str, secret: &Vec<u8>) -> (r: Option<AccessClaims>)
    ensures
        r matches Some(c) ==> jwt_claims_of(token@, secret@) == Some(
            (c.sub@, c.iat as int, c.exp as int),
        ),
        r is None ==> jwt_claims_of(token@, secret@) is None,
{
    let mut validation = jsonwebtoken::Validation::new(jsonwebtoken::Algorithm::HS256);
    validation.validate_exp = false;
    let key = jsonwebtoken::DecodingKey::from_secret(secret);
    let data = jsonwebtoken::decode::<serde_json::Value>(token, &key, &validation).ok()?;
    let sub = data.claims.get("sub")?.as_str()?.to_string();
    let iat = data.claims.get("iat")?.as_i64()?;
    let exp = data.claims.get("exp")?.as_i64()?;
    Some(AccessClaims { sub, iat, exp })
}

/// Issues a signed access token for `sub` at time `now` with the given
/// lifetime; signing always succeeds.
pub fn issue_access_token(sub: &str, now: i64, ttl: i64, secret: &Vec<u8>) -> (t: String)
    requires
        0 <= now,
        0 <= ttl,
        now + ttl <= i64::MAX,
    ensures
        t@ == jwt_of(sub@, now as int, now + ttl, secret@),
        jwt_claims_of(t@, secret@) == Some((sub@, now as int, now + ttl)),
{
    jwt_sign(sub, now, now + ttl, secret).unwrap()
}

/// Verifies an access token against the secret and the caller's clock.
/// Returns the claims exactly when the signature checks out and the
/// expiry instant is strictly in the future; a token is rejected at and
/// after its expiry instant.
pub fn verify_access_token(token: &str, secret: &Vec<u8>, now: i64) -> (r: Option<AccessClaims>)
    ensures
        match jwt_claims_of(token@, secret@) {
            Some((s, i, e)) => if e > now {
                r matches Some(c) && c.sub@ == s && c.iat as int == i && c.exp as int == e
            } else {
                r is None
            },
            None => r is None,
        },
{
    match jwt_parse(token, secret) {
        None => None,
        Some(c) => if c.exp > now {
            Some(c)
        } else {
            None
        },
    }
}

} // verus!
