//! The request and response shapes of the public operations.  The
//! transport layer mirrors these one-to-one onto its wire format.

use vstd::prelude::*;

verus! {

use crate::ids::UserId;

#[derive(Debug, Clone)]
pub struct RegisterRequest {
    pub email: String,
    pub password: String,
}

#[derive(Debug, Clone)]
pub struct RegisterResponse {
    pub id: UserId,
    pub email: String,
}

#[derive(Debug, Clone)]
pub struct LoginRequest {
    pub email: String,
    pub password: String,
}

#[derive(Debug, Clone)]
pub struct LoginResponse {
    pub access_token: String,
    pub refresh_token: String,
    pub token_type: &'static str,
}

#[derive(Debug, Clone)]
pub struct RefreshRequest {
    pub refresh_token: String,
}

#[derive(Debug, Clone)]
pub struct RefreshResponse {
    pub access_token: String,
    pub refresh_token: String,
    pub token_type: &'static str,
}

#[derive(Debug, Clone)]
pub struct LogoutRequest {
    pub refresh_token: String,
}

#[derive(Debug, Clone)]
pub struct MeResponse {
    pub id: UserId,
    pub email: String,
}

} // verus!
