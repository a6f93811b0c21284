//! The authorization gate: runs before every owned-resource handler.
//! It extracts the bearer credential from the authorization header,
//! has the token codec verify it, and reads the subject claim back as
//! the opaque user identifier.  A missing or malformed header, a bad
//! signature, a stale token or an unreadable subject each earn the
//! same `Unauthorized`.  No stored state is consulted here — checking
//! an access token needs only the secret and the clock, which is the
//! point of the two-token design.

use vstd::prelude::*;

verus! {

use crate::error::ApiError;
use crate::ids::{UserId, lemma_uuid_round_trip, uuid_parse_spec, uuid_str_of};
use crate::token::{jwt_claims_of, verify_access_token};

/// The authenticated identity handed to downstream resource logic.
/// It carries nothing beyond the user identifier.
#[derive(Debug, Clone, Copy, PartialEq, Eq, Structural)]
pub struct AuthUser {
    pub id: UserId,
}

/// The bearer credential carried by an authorization header, if the
/// header starts with the `Bearer ` prefix.
pub open spec fn bearer_token(header: Seq<char>) -> Option<Seq<char>> {
    if header.len() >= 7 && header.subrange(0, 7) == "Bearer "@ {
        Some(header.subrange(7, header.len() as int))
    } else {
        None
    }
}

pub open spec fn header_view(header: Option<&str>) -> Option<Seq<char>> {
    match header {
        Some(h) => Some(h@),
        None => None,
    }
}

/// Which identity, if any, a request's header authenticates: the
/// header must be present, carry the bearer prefix, hold a token whose
/// signature checks out under the secret and whose expiry is strictly
/// in the future, and whose subject reads back as a user identifier.
pub open spec fn gate_accepts(header: Option<Seq<char>>, secret: Seq<u8>, now: int) -> Option<
    u128,
> {
    match header {
        None => None,
        Some(hs) => match bearer_token(hs) {
            None => None,
            Some(t) => match jwt_claims_of(t, secret) {
                None => None,
                Some((s, iat, exp)) => if now < exp {
                    uuid_parse_spec(s)
                } else {
                    None
                },
            },
        },
    }
}

fn bearer_prefix_token<'a>(header: &'a str) -> (r: Option<&'a str>)
    ensures
        match bearer_token(header@) {
            Some(t) => r matches Some(x) && x@ == t,
            None => r is None,
        },
{
    proof {
        reveal_strlit("Bearer ");
    }
    let n = header.unicode_len();
    if n < 7 {
        return None;
    }
    if header.get_char(0) == 'B' && header.get_char(1) == 'e' && header.get_char(2) == 'a'
        && header.get_char(3) == 'r' && header.get_char(4) == 'e' && header.get_char(5) == 'r'
        && header.get_char(6) == ' ' {
        proof {
            assert(header@.subrange(0, 7) =~= "Bearer "@);
        }
        Some(header.substring_char(7, n))
    } else {
        proof {
            if header@.subrange(0, 7) == "Bearer "@ {
                assert(header@[0] == header@.subrange(0, 7)[0]);
                assert(header@[1] == header@.subrange(0, 7)[1]);
                assert(header@[2] == header@.subrange(0, 7)[2]);
                assert(header@[3] == header@.subrange(0, 7)[3]);
                assert(header@[4] == header@.subrange(0, 7)[4]);
                assert(header@[5] == header@.subrange(0, 7)[5]);
                assert(header@[6] == header@.subrange(0, 7)[6]);
            }
        }
        None
    }
}

/// Validates a request's authorization header and produces the
/// authenticated identity, or rejects with `Unauthorized` — never any
/// other error: a parse failure of the subject is not a server error.
pub fn authorize(header: Option<&str>, secret: &Vec<u8>, now: i64) -> (r: Result<
    AuthUser,
    ApiError,
>)
    ensures
        match gate_accepts(header_view(header), secret@, now as int) {
            Some(v) => r matches Ok(u) && u.id.value == v,
            None => r matches Err(ApiError::Unauthorized),
        },
{
    let hs = match header {
        Some(h) => h,
        None => {
            return Err(ApiError::Unauthorized);
        },
    };
    let token = match bearer_prefix_token(hs) {
        Some(t) => t,
        None => {
            return Err(ApiError::Unauthorized);
        },
    };
    let claims = match verify_access_token(token, secret, now) {
        Some(c) => c,
        None => {
            return Err(ApiError::Unauthorized);
        },
    };
    match UserId::parse_hyphenated(claims.sub.as_str()) {
        Some(id) => Ok(AuthUser { id }),
        None => Err(ApiError::Unauthorized),
    }
}

/// A signed token carrying an identity's canonical subject string
/// authenticates exactly that identity whenever the clock is before
/// the expiry instant, and authenticates nobody from that instant on.
pub proof fn lemma_gate_faithful(
    header: Seq<char>,
    t: Seq<char>,
    secret: Seq<u8>,
    uid: u128,
    iat: int,
    exp: int,
    now: int,
)
    requires
        bearer_token(header) == Some(t),
        jwt_claims_of(t, secret) == Some((uuid_str_of(uid), iat, exp)),
    ensures
        now < exp ==> gate_accepts(Some(header), secret, now) == Some(uid),
        now >= exp ==> gate_accepts(Some(header), secret, now) is None,
{
    lemma_uuid_round_trip(uid);
}

} // verus!
