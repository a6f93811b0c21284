//! The closed error taxonomy and its exhaustive mapping to the stable
//! machine-readable codes, messages and status codes that callers see.

use vstd::prelude::*;

verus! {

/// The body of an error response: a stable machine-readable code and a
/// human-readable message.
#[derive(Debug)]
pub struct ErrorBody {
    pub error: &'static str,
    pub message: String,
}

/// Every failure a use case can surface.  Persistence failures arrive as
/// `Db` with their detail already reduced to a string; hashing and signing
/// failures arrive as `Hash`.  The detail of either is never echoed to the
/// caller: the mapping below sends both to the same generic internal code.
#[derive(Debug)]
pub enum ApiError {
    EmailTaken,
    BadRequest(String),
    Db(String),
    Hash(String),
    Unauthorized,
    NotFound,
}

impl ApiError {
    /// The HTTP-equivalent status code of this error.
    pub fn status_code(&self) -> (code: u16)
        ensures
            code == match self {
                ApiError::EmailTaken => 409u16,
                ApiError::BadRequest(_) => 400u16,
                ApiError::Db(_) => 500u16,
                ApiError::Hash(_) => 500u16,
                ApiError::Unauthorized => 401u16,
                ApiError::NotFound => 404u16,
            },
    {
        match self {
            ApiError::EmailTaken => 409,
            ApiError::BadRequest(_) => 400,
            ApiError::Db(_) => 500,
            ApiError::Hash(_) => 500,
            ApiError::Unauthorized => 401,
            ApiError::NotFound => 404,
        }
    }

    /// The stable machine-readable code of this error.
    pub fn error_code(&self) -> (code: &'static str)
        ensures
            code@ == self.spec_error_code(),
    {
        match self {
            ApiError::EmailTaken => "EMAIL_TAKEN",
            ApiError::BadRequest(_) => "BAD_REQUEST",
            ApiError::Db(_) => "INTERNAL",
            ApiError::Hash(_) => "INTERNAL",
            ApiError::Unauthorized => "UNAUTHORIZED",
            ApiError::NotFound => "NOT FOUND",
        }
    }

    /// The machine-readable code, as a sequence of characters.
    pub open spec fn spec_error_code(&self) -> Seq<char> {
        match self {
            ApiError::EmailTaken => "EMAIL_TAKEN"@,
            ApiError::BadRequest(_) => "BAD_REQUEST"@,
            ApiError::Db(_) => "INTERNAL"@,
            ApiError::Hash(_) => "INTERNAL"@,
            ApiError::Unauthorized => "UNAUTHORIZED"@,
            ApiError::NotFound => "NOT FOUND"@,
        }
    }

    /// The human-readable message of this error.  Internal detail (the
    /// `Db` and `Hash` payloads) is deliberately not echoed; only the
    /// `BadRequest` validation message reaches the caller verbatim.
    pub fn message(&self) -> (msg: String)
        ensures
            msg@ == self.spec_message(),
    {
        match self {
            ApiError::EmailTaken => String::from_str("Email already exists"),
            ApiError::BadRequest(m) => m.clone(),
            ApiError::Db(_) => String::from_str("Internal server error"),
            ApiError::Hash(_) => String::from_str("Internal server error"),
            ApiError::Unauthorized => String::from_str("Invalid credentials"),
            ApiError::NotFound => String::from_str("Resource not found"),
        }
    }

    /// The human-readable message, as a sequence of characters.
    pub open spec fn spec_message(&self) -> Seq<char> {
        match self {
            ApiError::EmailTaken => "Email already exists"@,
            ApiError::BadRequest(m) => m@,
            ApiError::Db(_) => "Internal server error"@,
            ApiError::Hash(_) => "Internal server error"@,
            ApiError::Unauthorized => "Invalid credentials"@,
            ApiError::NotFound => "Resource not found"@,
        }
    }

    /// The full response body for this error.
    pub fn body(&self) -> (body: ErrorBody)
        ensures
            body.error@ == self.spec_error_code(),
            body.message@ == self.spec_message(),
    {
        ErrorBody { error: self.error_code(), message: self.message() }
    }
}

pub type ApiResult<T> = Result<T, ApiError>;

} // verus!
