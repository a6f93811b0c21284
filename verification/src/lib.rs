//! Authentication and session-lifecycle core.
//!
//! The library verifies the logic of a multi-tenant backend's auth core:
//! password credential storage, access-token issuance and verification,
//! refresh-token rotation with reuse detection, the authorization gate,
//! and the input validation used by the ownership-scoped resource
//! endpoints.  The HTTP and database shell around it lives outside the
//! library and hands it plain values.

pub mod dto;
pub mod error;
pub mod gate;
pub mod groups;
pub mod hashing;
pub mod ids;
pub mod notes;
pub mod paging;
pub mod session;
pub mod user_settings;
pub mod vk_comment_likes;
pub mod vk_comments;
pub mod vk_post_likes;
pub mod vk_posts;
pub mod vk_tokens;
pub mod vk_users;
pub mod password;
pub mod random;
pub mod text;
pub mod token;

use vstd::prelude::*;

verus! {

/// Lifetime of an access token issued at login, in seconds (30 minutes).
pub const ACCESS_TTL_LOGIN_SECS: i64 = 1800;

/// Lifetime of an access token issued at refresh, in seconds (15 minutes).
/// The two call sites intentionally keep the observed, differing lifetimes;
/// the discrepancy is a candidate bug to raise with stakeholders rather
/// than silently unify.
pub const ACCESS_TTL_REFRESH_SECS: i64 = 900;

/// Lifetime of a refresh token, in seconds (30 days).
pub const REFRESH_TTL_SECS: i64 = 2592000;

} // verus!
