//! The credential store, the refresh-token store and the rotation
//! engine, with the four session use-cases on top.  The store is the
//! relational state the engine needs, modelled directly: rows are never
//! physically deleted, rotation appends a successor row and revokes the
//! presented one in a single all-or-nothing step, and expiry is
//! enforced at read time.
//!
//! Cross-request races on one refresh token are serialized by the
//! storage layer's conditional update; the operations here are that
//! serialized semantics, so any race is one of the sequential orders,
//! and the laws at the bottom of this file cover every such order.

use vstd::prelude::*;

verus! {

use crate::ACCESS_TTL_LOGIN_SECS;
use crate::ACCESS_TTL_REFRESH_SECS;
use crate::REFRESH_TTL_SECS;
use crate::dto::{
    LoginRequest, LoginResponse, LogoutRequest, MeResponse, RefreshRequest, RefreshResponse,
    RegisterRequest, RegisterResponse,
};
use crate::error::ApiError;
use crate::hashing::{sha256_hex, token_hash_of};
use crate::ids::{UserId, uuid_str_of};
use crate::password::{MAX_PASSWORD_CHARS, PasswordCheck, argon2_parses, argon2_verifies,
    hash_password, verify_password};
use crate::random::{b64url_of, new_refresh_token};
use crate::text::{trim, trim_spec};
use crate::token::{issue_access_token, jwt_claims_of, jwt_of};

/// A registered identity: unique natural key, stable opaque identifier,
/// and the password credential as a salted hash, never plaintext.
#[derive(Debug, Clone)]
pub struct UserRecord {
    pub id: UserId,
    pub email: String,
    pub credential: String,
}

/// One link in a refresh-token rotation chain.  The token secret is
/// never stored; only its one-way hash is.
#[derive(Debug, Clone)]
pub struct RefreshTokenRecord {
    pub user_id: UserId,
    pub token_hash: String,
    pub expires_at: i64,
    pub revoked_at: Option<i64>,
    pub replaced_by: Option<usize>,
}

/// A token row is usable for refresh iff it is unrevoked and its expiry
/// is strictly in the future at evaluation time.
pub open spec fn token_usable(t: RefreshTokenRecord, now: int) -> bool {
    t.revoked_at is None && now < t.expires_at
}

/// The first index at or after `i` whose row's email matches.
pub open spec fn find_email_from(users: Seq<UserRecord>, email: Seq<char>, i: int) -> Option<int>
    decreases users.len() - i,
{
    if i < 0 || i >= users.len() {
        None
    } else if users[i].email@ == email {
        Some(i)
    } else {
        find_email_from(users, email, i + 1)
    }
}

/// The index of the row holding this email, if any.
pub open spec fn find_user_by_email(users: Seq<UserRecord>, email: Seq<char>) -> Option<int> {
    find_email_from(users, email, 0)
}

/// Whether some row holds this email.
pub open spec fn email_taken(users: Seq<UserRecord>, email: Seq<char>) -> bool {
    exists|i: int| #![trigger users[i]] 0 <= i < users.len() && users[i].email@ == email
}

/// The first index at or after `i` whose row's token hash matches.
pub open spec fn find_hash_from(tokens: Seq<RefreshTokenRecord>, h: Seq<char>, i: int) -> Option<
    int,
>
    decreases tokens.len() - i,
{
    if i < 0 || i >= tokens.len() {
        None
    } else if tokens[i].token_hash@ == h {
        Some(i)
    } else {
        find_hash_from(tokens, h, i + 1)
    }
}

/// The index of the row holding this token hash, if any.
pub open spec fn find_token_by_hash(tokens: Seq<RefreshTokenRecord>, h: Seq<char>) -> Option<int> {
    find_hash_from(tokens, h, 0)
}

/// Whether some row holds this token hash.
pub open spec fn hash_present(tokens: Seq<RefreshTokenRecord>, h: Seq<char>) -> bool {
    exists|i: int| #![trigger tokens[i]] 0 <= i < tokens.len() && tokens[i].token_hash@ == h
}

/// Whether presenting a token with this hash at this time would rotate.
pub open spec fn rotate_allowed(tokens: Seq<RefreshTokenRecord>, h: Seq<char>, now: int) -> bool {
    match find_token_by_hash(tokens, h) {
        Some(i) => token_usable(tokens[i], now),
        None => false,
    }
}

proof fn lemma_find_email_from(users: Seq<UserRecord>, email: Seq<char>, i: int)
    requires
        0 <= i <= users.len(),
    ensures
        match find_email_from(users, email, i) {
            Some(k) => i <= k < users.len() && users[k].email@ == email,
            None => forall|k: int| #![trigger users[k]] i <= k < users.len() ==> users[k].email@
                != email,
        },
    decreases users.len() - i,
{
    if i < users.len() && users[i].email@ != email {
        lemma_find_email_from(users, email, i + 1);
    }
}

proof fn lemma_find_hash_from(tokens: Seq<RefreshTokenRecord>, h: Seq<char>, i: int)
    requires
        0 <= i <= tokens.len(),
    ensures
        match find_hash_from(tokens, h, i) {
            Some(k) => i <= k < tokens.len() && tokens[k].token_hash@ == h,
            None => forall|k: int| #![trigger tokens[k]]
                i <= k < tokens.len() ==> tokens[k].token_hash@ != h,
        },
    decreases tokens.len() - i,
{
    if i < tokens.len() && tokens[i].token_hash@ != h {
        lemma_find_hash_from(tokens, h, i + 1);
    }
}

/// No two rows hold the same token hash.
pub open spec fn hashes_unique(tokens: Seq<RefreshTokenRecord>) -> bool {
    forall|i: int, j: int| #![trigger tokens[i], tokens[j]]
        0 <= i < j < tokens.len() ==> tokens[i].token_hash@ != tokens[j].token_hash@
}

/// Every successor link points strictly forward to a row of the same
/// user, and only a revoked row carries one; so each chain is walked
/// towards strictly larger indices and terminates, and the rows form a
/// forest.
pub open spec fn links_ok(tokens: Seq<RefreshTokenRecord>) -> bool {
    forall|i: int| #![trigger tokens[i]]
        0 <= i < tokens.len() ==> match tokens[i].replaced_by {
            Some(j) => {
                &&& i < j < tokens.len()
                &&& tokens[j as int].user_id == tokens[i].user_id
                &&& tokens[i].revoked_at is Some
            },
            None => true,
        }
}

/// No two rows share a successor: each token has at most one
/// predecessor.
pub open spec fn successors_unique(tokens: Seq<RefreshTokenRecord>) -> bool {
    forall|i: int, j: int| #![trigger tokens[i], tokens[j]]
        0 <= i < tokens.len() && 0 <= j < tokens.len() && i != j && tokens[i].replaced_by is Some
            ==> tokens[i].replaced_by != tokens[j].replaced_by
}

/// What revoking the token with hash `h` at time `now` does to the
/// rows: the row holding `h`, if there is one and it is still
/// unrevoked, is marked revoked now; everything else is untouched.
pub open spec fn revoke_effect(
    tokens: Seq<RefreshTokenRecord>,
    h: Seq<char>,
    now: i64,
) -> Seq<RefreshTokenRecord> {
    match find_token_by_hash(tokens, h) {
        Some(i) => if tokens[i].revoked_at is None {
            tokens.update(
                i,
                RefreshTokenRecord {
                    user_id: tokens[i].user_id,
                    token_hash: tokens[i].token_hash,
                    expires_at: tokens[i].expires_at,
                    revoked_at: Some(now),
                    replaced_by: tokens[i].replaced_by,
                },
            )
        } else {
            tokens
        },
        None => tokens,
    }
}

/// Under unique hashes, the row holding a hash is the row the lookup
/// finds.
pub proof fn lemma_find_token_unique(tokens: Seq<RefreshTokenRecord>, i: int)
    requires
        hashes_unique(tokens),
        0 <= i < tokens.len(),
    ensures
        find_token_by_hash(tokens, tokens[i].token_hash@) == Some(i),
{
    let h = tokens[i].token_hash@;
    lemma_find_hash_from(tokens, h, 0);
    match find_hash_from(tokens, h, 0) {
        Some(k) => {
            if k < i {
                assert(tokens[k].token_hash@ != tokens[i].token_hash@);
            } else if i < k {
                assert(tokens[i].token_hash@ != tokens[k].token_hash@);
            }
        },
        None => {
            assert(tokens[i].token_hash@ == h);
        },
    }
}

fn find_user_index(users: &Vec<UserRecord>, email: &String) -> (r: Option<usize>)
    ensures
        match r {
            Some(i) => find_user_by_email(users@, email@) == Some(i as int),
            None => find_user_by_email(users@, email@) is None,
        },
{
    let mut i: usize = 0;
    while i < users.len()
        invariant
            i <= users@.len(),
            find_email_from(users@, email@, 0) == find_email_from(users@, email@, i as int),
        decreases users@.len() - i,
    {
        if users[i].email == *email {
            return Some(i);
        }
        i = i + 1;
    }
    None
}

fn find_token_index(tokens: &Vec<RefreshTokenRecord>, h: &String) -> (r: Option<usize>)
    ensures
        match r {
            Some(i) => find_token_by_hash(tokens@, h@) == Some(i as int),
            None => find_token_by_hash(tokens@, h@) is None,
        },
{
    let mut i: usize = 0;
    while i < tokens.len()
        invariant
            i <= tokens@.len(),
            find_hash_from(tokens@, h@, 0) == find_hash_from(tokens@, h@, i as int),
        decreases tokens@.len() - i,
    {
        if tokens[i].token_hash == *h {
            return Some(i);
        }
        i = i + 1;
    }
    None
}

/// Whether this email/password pair matches a stored identity: some
/// row holds the email, its credential parses, and the password
/// verifies against it.
pub open spec fn credentials_good(
    users: Seq<UserRecord>,
    email: Seq<char>,
    password: Seq<char>,
) -> bool {
    exists|i: int| #![trigger users[i]]
        0 <= i < users.len() && users[i].email@ == email && argon2_parses(users[i].credential@)
            && argon2_verifies(password, users[i].credential@)
}

/// Whether some row holds this user identifier.
pub open spec fn id_taken(users: Seq<UserRecord>, id: UserId) -> bool {
    exists|i: int| #![trigger users[i]] 0 <= i < users.len() && users[i].id == id
}

fn id_exists(users: &Vec<UserRecord>, id: UserId) -> (r: bool)
    ensures
        r == id_taken(users@, id),
{
    let mut i: usize = 0;
    while i < users.len()
        invariant
            i <= users@.len(),
            forall|j: int| #![trigger users@[j]] 0 <= j < i ==> users@[j].id != id,
        decreases users@.len() - i,
    {
        if users[i].id == id {
            return true;
        }
        i = i + 1;
    }
    false
}

/// The authentication core: users and refresh-token rows, plus the
/// signing secret handed in at construction (never ambient state).
pub struct AuthCore {
    pub users: Vec<UserRecord>,
    pub tokens: Vec<RefreshTokenRecord>,
    pub jwt_secret: Vec<u8>,
}

impl AuthCore {
    /// Well-formedness: unique natural keys and identifiers; unique
    /// token hashes; every successor link points forward to a row of
    /// the same user and only revoked rows carry one; no two rows share
    /// a successor, so each token has at most one predecessor.
    pub open spec fn wf(&self) -> bool {
        &&& forall|i: int, j: int| #![trigger self.users@[i], self.users@[j]]
            0 <= i < j < self.users@.len() ==> self.users@[i].email@ != self.users@[j].email@
        &&& forall|i: int, j: int| #![trigger self.users@[i], self.users@[j]]
            0 <= i < j < self.users@.len() ==> self.users@[i].id != self.users@[j].id
        &&& hashes_unique(self.tokens@)
        &&& links_ok(self.tokens@)
        &&& successors_unique(self.tokens@)
    }

    /// An empty core around the given signing secret.
    pub fn new(jwt_secret: Vec<u8>) -> (r: AuthCore)
        ensures
            r.wf(),
            r.users@.len() == 0,
            r.tokens@.len() == 0,
            r.jwt_secret == jwt_secret,
    {
        AuthCore { users: Vec::new(), tokens: Vec::new(), jwt_secret }
    }

    /// Persists a new identity given an already-hashed credential and
    /// a drawn identifier: the credential store's insert.  Success is
    /// owed exactly when neither the email nor the identifier is held
    /// yet; the unique natural key surfaces as `EmailTaken`, and a
    /// duplicate identifier as the conflict the store would raise.
    pub fn add_user(&mut self, email: String, credential: String, id: UserId) -> (r: Result<
        (),
        ApiError,
    >)
        requires
            old(self).wf(),
        ensures
            final(self).wf(),
            final(self).tokens@ == old(self).tokens@,
            final(self).jwt_secret == old(self).jwt_secret,
            r is Ok <==> (!email_taken(old(self).users@, email@) && !id_taken(
                old(self).users@,
                id,
            )),
            (r matches Err(ApiError::EmailTaken)) <==> email_taken(old(self).users@, email@),
            r matches Err(e) ==> (e is EmailTaken || e is Db) && final(self).users@ == old(
                self,
            ).users@,
            r is Ok ==> ({
                &&& final(self).users@.len() == old(self).users@.len() + 1
                &&& final(self).users@.subrange(0, old(self).users@.len() as int) == old(
                    self,
                ).users@
                &&& final(self).users@.last().id == id
                &&& final(self).users@.last().email@ == email@
                &&& final(self).users@.last().credential@ == credential@
            }),
    {
        proof {
            lemma_find_email_from(self.users@, email@, 0);
        }
        if find_user_index(&self.users, &email).is_some() {
            return Err(ApiError::EmailTaken);
        }
        if id_exists(&self.users, id) {
            return Err(ApiError::Db(String::from_str("user id collision")));
        }
        let ghost old_users = self.users@;
        self.users.push(UserRecord { id, email, credential });
        proof {
            assert(self.users@.subrange(0, old_users.len() as int) =~= old_users);
        }
        Ok(())
    }

    /// Registers a new identity.  The email is trimmed, the password is
    /// hashed under a fresh random salt, and a distinct "identity
    /// taken" outcome is surfaced exactly when the trimmed email is
    /// already stored.  Hashing fails exactly on a password beyond
    /// argon2's length cap, surfaced as `Hash`; the only remaining
    /// failure is the practically unreachable collision of the drawn
    /// identifier, surfaced as the conflict the store would raise.
    /// Every failure leaves the store unchanged, and on a fresh store
    /// a registration with an in-range password is owed success.
    pub fn register(&mut self, req: RegisterRequest) -> (r: Result<RegisterResponse, ApiError>)
        requires
            old(self).wf(),
        ensures
            final(self).wf(),
            final(self).tokens@ == old(self).tokens@,
            final(self).jwt_secret == old(self).jwt_secret,
            (r matches Err(ApiError::EmailTaken)) <==> email_taken(
                old(self).users@,
                trim_spec(req.email@),
            ),
            (r matches Err(ApiError::Hash(_))) <==> (!email_taken(
                old(self).users@,
                trim_spec(req.email@),
            ) && req.password@.len() >= MAX_PASSWORD_CHARS),
            r matches Err(_) ==> final(self).users@ == old(self).users@,
            r matches Err(e) ==> (e is EmailTaken || e is Hash || e is Db),
            (old(self).users@.len() == 0 && req.password@.len() < MAX_PASSWORD_CHARS) ==> r
                is Ok,
            r matches Ok(resp) ==> ({
                &&& !email_taken(old(self).users@, trim_spec(req.email@))
                &&& final(self).users@.len() == old(self).users@.len() + 1
                &&& final(self).users@.subrange(0, old(self).users@.len() as int) == old(
                    self,
                ).users@
                &&& final(self).users@.last().id == resp.id
                &&& final(self).users@.last().email@ == trim_spec(req.email@)
                &&& resp.email@ == trim_spec(req.email@)
                &&& argon2_parses(final(self).users@.last().credential@)
                &&& argon2_verifies(req.password@, final(self).users@.last().credential@)
                &&& !id_taken(old(self).users@, resp.id)
            }),
    {
        let email = trim(req.email.as_str());
        proof {
            lemma_find_email_from(self.users@, email@, 0);
        }
        if find_user_index(&self.users, &email).is_some() {
            return Err(ApiError::EmailTaken);
        }
        let cred = match hash_password(req.password.as_str()) {
            Some(c) => c,
            None => {
                return Err(ApiError::Hash(String::from_str("password exceeds the length cap")));
            },
        };
        let id_bytes = crate::random::random_bytes(16);
        let id = crate::ids::user_id_from_bytes(&id_bytes);
        let record_email = email.clone();
        match self.add_user(record_email, cred, id) {
            Ok(()) => Ok(RegisterResponse { id, email }),
            Err(e) => Err(e),
        }
    }

    /// Authenticates an identity and opens a new session: one access
    /// token and one fresh refresh-token chain root.  An unknown email
    /// and a wrong password yield the same `Unauthorized`, and so does
    /// a malformed stored credential: the distinction never leaks.
    /// Signing never fails; the only other failure, `Db`, is the
    /// practically unreachable hash collision of the fresh secret with
    /// a stored row, so a first login into an empty token store is
    /// owed success.  Every failure leaves the store unchanged.
    pub fn login(&mut self, req: LoginRequest, now: i64) -> (r: Result<LoginResponse, ApiError>)
        requires
            old(self).wf(),
            0 <= now,
            now + REFRESH_TTL_SECS <= i64::MAX,
        ensures
            final(self).wf(),
            final(self).users@ == old(self).users@,
            final(self).jwt_secret == old(self).jwt_secret,
            (r matches Err(ApiError::Unauthorized)) <==> !credentials_good(
                old(self).users@,
                trim_spec(req.email@),
                req.password@,
            ),
            r matches Err(_) ==> final(self).tokens@ == old(self).tokens@,
            r matches Err(e) ==> (e is Unauthorized || e is Db),
            (r matches Err(ApiError::Db(_))) ==> exists|b: Seq<u8>| #![trigger b64url_of(b)]
                b.len() == 32 && hash_present(old(self).tokens@, token_hash_of(b64url_of(b))),
            (credentials_good(old(self).users@, trim_spec(req.email@), req.password@) && old(
                self,
            ).tokens@.len() == 0) ==> r is Ok,
            r matches Ok(out) ==> ({
                &&& credentials_good(old(self).users@, trim_spec(req.email@), req.password@)
                &&& out.token_type@ == "Bearer"@
                &&& final(self).tokens@.len() == old(self).tokens@.len() + 1
                &&& final(self).tokens@.subrange(0, old(self).tokens@.len() as int) == old(
                    self,
                ).tokens@
                &&& out.refresh_token@.len() == 43
                &&& !hash_present(old(self).tokens@, token_hash_of(out.refresh_token@))
                &&& final(self).tokens@.last().token_hash@ == token_hash_of(out.refresh_token@)
                &&& final(self).tokens@.last().expires_at == now + REFRESH_TTL_SECS
                &&& final(self).tokens@.last().revoked_at is None
                &&& final(self).tokens@.last().replaced_by is None
                &&& exists|i: int| #![trigger old(self).users@[i]]
                    0 <= i < old(self).users@.len() && old(self).users@[i].email@ == trim_spec(
                        req.email@,
                    ) && final(self).tokens@.last().user_id == old(self).users@[i].id
                        && out.access_token@ == jwt_of(
                        uuid_str_of(old(self).users@[i].id.value),
                        now as int,
                        now + ACCESS_TTL_LOGIN_SECS,
                        old(self).jwt_secret@,
                    ) && jwt_claims_of(out.access_token@, old(self).jwt_secret@) == Some(
                        (
                            uuid_str_of(old(self).users@[i].id.value),
                            now as int,
                            now + ACCESS_TTL_LOGIN_SECS,
                        ),
                    )
            }),
    {
        let email = trim(req.email.as_str());
        proof {
            lemma_find_email_from(self.users@, email@, 0);
        }
        let ui = match find_user_index(&self.users, &email) {
            Some(i) => i,
            None => {
                return Err(ApiError::Unauthorized);
            },
        };
        proof {
            assert forall|i: int|
                0 <= i < self.users@.len() && #[trigger] self.users@[i].email@ == email@ implies i
                == ui as int by {
                if i < ui as int {
                    assert(self.users@[i].email@ != self.users@[ui as int].email@);
                } else if (ui as int) < i {
                    assert(self.users@[ui as int].email@ != self.users@[i].email@);
                }
            }
        }
        match verify_password(req.password.as_str(), self.users[ui].credential.as_str()) {
            PasswordCheck::Match => (),
            _ => {
                return Err(ApiError::Unauthorized);
            },
        }
        let user_id = self.users[ui].id;
        let sub = user_id.to_hyphenated();
        let access = issue_access_token(sub.as_str(), now, ACCESS_TTL_LOGIN_SECS, &self.jwt_secret);
        let refresh_token = new_refresh_token();
        let h = sha256_hex(refresh_token.as_str());
        proof {
            lemma_find_hash_from(self.tokens@, h@, 0);
        }
        if find_token_index(&self.tokens, &h).is_some() {
            proof {
                let k = find_token_by_hash(self.tokens@, h@).unwrap();
                assert(self.tokens@[k].token_hash@ == h@);
                let b = choose|b: Seq<u8>| #![trigger b64url_of(b)]
                    b.len() == 32 && refresh_token@ == b64url_of(b);
                assert(hash_present(self.tokens@, token_hash_of(b64url_of(b))));
            }
            return Err(ApiError::Db(String::from_str("refresh token hash collision")));
        }
        let ghost old_tokens = self.tokens@;
        self.tokens.push(
            RefreshTokenRecord {
                user_id,
                token_hash: h,
                expires_at: now + REFRESH_TTL_SECS,
                revoked_at: None,
                replaced_by: None,
            },
        );
        proof {
            assert(self.tokens@.subrange(0, old_tokens.len() as int) =~= old_tokens);
        }
        Ok(LoginResponse { access_token: access, refresh_token, token_type: "Bearer" })
    }

    /// Rotates a refresh token: the sole non-trivial algorithm.  The
    /// presented secret is hashed and looked up; an unknown hash, a
    /// revoked row (reuse detection) or a passed expiry each reject
    /// with the same `Unauthorized`.  Otherwise, in one all-or-nothing
    /// step, a successor row is appended and the presented row is
    /// revoked now with its back-reference set to the successor, and a
    /// fresh access token for the same subject is returned with the new
    /// secret.  Signing never fails; the only internal failure, `Db`,
    /// is the practically unreachable collision of the fresh secret's
    /// hash with a stored row.  Every failure leaves the store
    /// unchanged: there is never an orphaned successor.
    pub fn refresh(&mut self, req: RefreshRequest, now: i64) -> (r: Result<RefreshResponse, ApiError>)
        requires
            old(self).wf(),
            0 <= now,
            now + REFRESH_TTL_SECS <= i64::MAX,
        ensures
            final(self).wf(),
            final(self).users@ == old(self).users@,
            final(self).jwt_secret == old(self).jwt_secret,
            (r matches Err(ApiError::Unauthorized)) <==> !rotate_allowed(
                old(self).tokens@,
                token_hash_of(req.refresh_token@),
                now as int,
            ),
            r matches Err(_) ==> final(self).tokens@ == old(self).tokens@,
            r matches Err(e) ==> (e is Unauthorized || e is Db),
            (r matches Err(ApiError::Db(_))) ==> exists|b: Seq<u8>| #![trigger b64url_of(b)]
                b.len() == 32 && hash_present(old(self).tokens@, token_hash_of(b64url_of(b))),
            r matches Ok(out) ==> ({
                let h = token_hash_of(req.refresh_token@);
                let nh = token_hash_of(out.refresh_token@);
                let i = find_token_by_hash(old(self).tokens@, h).unwrap();
                let n = old(self).tokens@.len() as int;
                &&& rotate_allowed(old(self).tokens@, h, now as int)
                &&& find_token_by_hash(old(self).tokens@, h) is Some
                &&& out.refresh_token@ != req.refresh_token@
                &&& out.refresh_token@.len() == 43
                &&& out.token_type@ == "Bearer"@
                &&& !hash_present(old(self).tokens@, nh)
                &&& final(self).tokens@.len() == n + 1
                &&& final(self).tokens@.last().user_id == old(self).tokens@[i].user_id
                &&& final(self).tokens@.last().token_hash@ == nh
                &&& final(self).tokens@.last().expires_at == now + REFRESH_TTL_SECS
                &&& final(self).tokens@.last().revoked_at is None
                &&& final(self).tokens@.last().replaced_by is None
                &&& final(self).tokens@[i].revoked_at == Some(now)
                &&& final(self).tokens@[i].replaced_by == Some(n as usize)
                &&& final(self).tokens@[i].token_hash == old(self).tokens@[i].token_hash
                &&& final(self).tokens@[i].user_id == old(self).tokens@[i].user_id
                &&& final(self).tokens@[i].expires_at == old(self).tokens@[i].expires_at
                &&& forall|j: int| #![trigger final(self).tokens@[j]]
                    0 <= j < n && j != i ==> final(self).tokens@[j] == old(self).tokens@[j]
                &&& out.access_token@ == jwt_of(
                    uuid_str_of(old(self).tokens@[i].user_id.value),
                    now as int,
                    now + ACCESS_TTL_REFRESH_SECS,
                    old(self).jwt_secret@,
                )
                &&& jwt_claims_of(out.access_token@, old(self).jwt_secret@) == Some(
                    (
                        uuid_str_of(old(self).tokens@[i].user_id.value),
                        now as int,
                        now + ACCESS_TTL_REFRESH_SECS,
                    ),
                )
            }),
    {
        let h = sha256_hex(req.refresh_token.as_str());
        proof {
            lemma_find_hash_from(self.tokens@, h@, 0);
        }
        let i = match find_token_index(&self.tokens, &h) {
            Some(i) => i,
            None => {
                return Err(ApiError::Unauthorized);
            },
        };
        if self.tokens[i].revoked_at.is_some() || self.tokens[i].expires_at <= now {
            return Err(ApiError::Unauthorized);
        }
        let new_token = new_refresh_token();
        let nh = sha256_hex(new_token.as_str());
        proof {
            lemma_find_hash_from(self.tokens@, nh@, 0);
        }
        if find_token_index(&self.tokens, &nh).is_some() {
            proof {
                let k = find_token_by_hash(self.tokens@, nh@).unwrap();
                assert(self.tokens@[k].token_hash@ == nh@);
                let b = choose|b: Seq<u8>| #![trigger b64url_of(b)]
                    b.len() == 32 && new_token@ == b64url_of(b);
                assert(hash_present(self.tokens@, token_hash_of(b64url_of(b))));
            }
            return Err(ApiError::Db(String::from_str("refresh token hash collision")));
        }
        let user_id = self.tokens[i].user_id;
        let sub = user_id.to_hyphenated();
        let access = issue_access_token(
            sub.as_str(),
            now,
            ACCESS_TTL_REFRESH_SECS,
            &self.jwt_secret,
        );
        let ghost old_tokens = self.tokens@;
        let n = self.tokens.len();
        self.tokens.push(
            RefreshTokenRecord {
                user_id,
                token_hash: nh,
                expires_at: now + REFRESH_TTL_SECS,
                revoked_at: None,
                replaced_by: None,
            },
        );
        self.tokens[i].revoked_at = Some(now);
        self.tokens[i].replaced_by = Some(n);
        proof {
            assert(hash_present(old_tokens, old_tokens[i as int].token_hash@));
            assert forall|j: int|
                0 <= j < n && j != i as int implies self.tokens@[j] == old_tokens[j] by {}
        }
        Ok(RefreshResponse { access_token: access, refresh_token: new_token, token_type: "Bearer" })
    }

    /// Revokes the presented refresh token (logout).  The hash is
    /// looked up and the row, if found and still unrevoked, is marked
    /// revoked now; no successor is created.  Idempotent: an unknown or
    /// already-revoked token affects nothing, and the caller always
    /// sees success.
    pub fn logout(&mut self, req: LogoutRequest, now: i64)
        requires
            old(self).wf(),
        ensures
            final(self).wf(),
            final(self).users@ == old(self).users@,
            final(self).jwt_secret == old(self).jwt_secret,
            final(self).tokens@ == revoke_effect(
                old(self).tokens@,
                token_hash_of(req.refresh_token@),
                now,
            ),
    {
        let h = sha256_hex(req.refresh_token.as_str());
        proof {
            lemma_find_hash_from(self.tokens@, h@, 0);
        }
        let ghost old_tokens = self.tokens@;
        match find_token_index(&self.tokens, &h) {
            Some(i) => {
                if self.tokens[i].revoked_at.is_none() {
                    self.tokens[i].revoked_at = Some(now);
                    proof {
                        assert(self.tokens@ =~= revoke_effect(old_tokens, h@, now));
                    }
                }
            },
            None => (),
        }
    }

    /// The authenticated profile: the identity's id and email, or
    /// `Unauthorized` when no such identity exists.
    pub fn me(&self, user_id: UserId) -> (r: Result<MeResponse, ApiError>)
        ensures
            match r {
                Ok(resp) => ({
                    &&& resp.id == user_id
                    &&& exists|i: int| #![trigger self.users@[i]]
                        0 <= i < self.users@.len() && self.users@[i].id == user_id
                            && self.users@[i].email@ == resp.email@
                }),
                Err(e) => e is Unauthorized && !id_taken(self.users@, user_id),
            },
    {
        let mut i: usize = 0;
        while i < self.users.len()
            invariant
                i <= self.users@.len(),
                forall|j: int| #![trigger self.users@[j]] 0 <= j < i ==> self.users@[j].id
                    != user_id,
            decreases self.users@.len() - i,
        {
            if self.users[i].id == user_id {
                return Ok(MeResponse { id: user_id, email: self.users[i].email.clone() });
            }
            i = i + 1;
        }
        Err(ApiError::Unauthorized)
    }
}

proof fn lemma_find_same_hashes(
    t1: Seq<RefreshTokenRecord>,
    t2: Seq<RefreshTokenRecord>,
    h: Seq<char>,
    i: int,
)
    requires
        t1.len() == t2.len(),
        forall|k: int| #![trigger t1[k], t2[k]]
            0 <= k < t1.len() ==> t1[k].token_hash@ == t2[k].token_hash@,
        0 <= i <= t1.len(),
    ensures
        find_hash_from(t1, h, i) == find_hash_from(t2, h, i),
    decreases t1.len() - i,
{
    if i < t1.len() && t1[i].token_hash@ != h {
        lemma_find_same_hashes(t1, t2, h, i + 1);
    }
}

/// Reuse detection: once the row holding a hash is revoked — as the
/// rotation that consumed it and the logout that revoked it both do —
/// a token with that hash can never rotate again, at any later time.
pub proof fn lemma_revoked_token_never_rotates(
    tokens: Seq<RefreshTokenRecord>,
    i: int,
    now: int,
)
    requires
        hashes_unique(tokens),
        0 <= i < tokens.len(),
        tokens[i].revoked_at is Some,
    ensures
        !rotate_allowed(tokens, tokens[i].token_hash@, now),
{
    lemma_find_token_unique(tokens, i);
}

/// A row whose expiry has passed can never rotate.
pub proof fn lemma_expired_token_never_rotates(
    tokens: Seq<RefreshTokenRecord>,
    i: int,
    now: int,
)
    requires
        hashes_unique(tokens),
        0 <= i < tokens.len(),
        tokens[i].expires_at <= now,
    ensures
        !rotate_allowed(tokens, tokens[i].token_hash@, now),
{
    lemma_find_token_unique(tokens, i);
}

/// A hash that no row holds can never rotate.
pub proof fn lemma_unknown_token_never_rotates(
    tokens: Seq<RefreshTokenRecord>,
    h: Seq<char>,
    now: int,
)
    requires
        !hash_present(tokens, h),
    ensures
        !rotate_allowed(tokens, h, now),
{
    lemma_find_hash_from(tokens, h, 0);
    match find_hash_from(tokens, h, 0) {
        Some(k) => {
            assert(0 <= k < tokens.len() && tokens[k].token_hash@ == h);
            assert(hash_present(tokens, h));
        },
        None => (),
    }
}

/// Racing rotations have a single winner.  In the state a successful
/// rotation leaves — the presented row revoked, its back-reference set
/// to the new leaf — presenting the same token again is rejected at
/// any later time, and no other row shares that successor: exactly one
/// successor row exists.  Rejected rotations leave the store
/// unchanged, so the loser adds nothing.
pub proof fn lemma_single_rotation_winner(
    tokens: Seq<RefreshTokenRecord>,
    i: int,
    now2: int,
)
    requires
        hashes_unique(tokens),
        successors_unique(tokens),
        0 <= i < tokens.len(),
        tokens[i].revoked_at is Some,
        tokens[i].replaced_by is Some,
    ensures
        !rotate_allowed(tokens, tokens[i].token_hash@, now2),
        forall|j: int| #![trigger tokens[j]]
            0 <= j < tokens.len() && j != i ==> tokens[j].replaced_by != tokens[i].replaced_by,
{
    lemma_find_token_unique(tokens, i);
}

/// Logout blocks refresh: after the rows absorb a revocation of hash
/// `h`, presenting a token with hash `h` can never rotate, whether or
/// not a row held it.
pub proof fn lemma_logout_blocks_refresh(
    tokens: Seq<RefreshTokenRecord>,
    h: Seq<char>,
    now1: i64,
    now2: int,
)
    ensures
        !rotate_allowed(revoke_effect(tokens, h, now1), h, now2),
{
    let post = revoke_effect(tokens, h, now1);
    lemma_find_hash_from(tokens, h, 0);
    match find_token_by_hash(tokens, h) {
        Some(i) => {
            assert(forall|k: int| #![trigger tokens[k], post[k]]
                0 <= k < tokens.len() ==> tokens[k].token_hash@ == post[k].token_hash@);
            lemma_find_same_hashes(tokens, post, h, 0);
            assert(post[i].revoked_at is Some);
        },
        None => (),
    }
}

/// The row a successor walk from `i` ends at: successor links point
/// strictly forward, so the walk is well founded.
pub open spec fn chain_end(tokens: Seq<RefreshTokenRecord>, i: int) -> int
    decreases tokens.len() - i,
    when 0 <= i < tokens.len() && links_ok(tokens)
{
    match tokens[i].replaced_by {
        Some(j) => chain_end(tokens, j as int),
        None => i,
    }
}

/// The chains form a forest: walking `replaced_by` from any row
/// terminates, at a row that has no successor yet.
pub proof fn lemma_chain_walk_terminates(tokens: Seq<RefreshTokenRecord>, i: int)
    requires
        links_ok(tokens),
        0 <= i < tokens.len(),
    ensures
        i <= chain_end(tokens, i) < tokens.len(),
        tokens[chain_end(tokens, i)].replaced_by is None,
    decreases tokens.len() - i,
{
    match tokens[i].replaced_by {
        Some(j) => {
            lemma_chain_walk_terminates(tokens, j as int);
        },
        None => (),
    }
}

/// Revocation is idempotent: revoking a token whose row is already
/// revoked, or which no row holds, changes nothing — so a second
/// revocation of the same token is a no-op.
pub proof fn lemma_revoke_idempotent(
    tokens: Seq<RefreshTokenRecord>,
    h: Seq<char>,
    now1: i64,
    now2: i64,
)
    ensures
        revoke_effect(revoke_effect(tokens, h, now1), h, now2) == revoke_effect(tokens, h, now1),
{
    let post = revoke_effect(tokens, h, now1);
    lemma_find_hash_from(tokens, h, 0);
    match find_token_by_hash(tokens, h) {
        Some(i) => {
            assert(forall|k: int| #![trigger tokens[k], post[k]]
                0 <= k < tokens.len() ==> tokens[k].token_hash@ == post[k].token_hash@);
            lemma_find_same_hashes(tokens, post, h, 0);
            assert(post[i].revoked_at is Some);
        },
        None => (),
    }
}

} // verus!
