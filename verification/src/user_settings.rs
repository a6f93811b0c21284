//! Per-user settings: the request shape and the validation the update
//! handler applies.

use vstd::prelude::*;

verus! {

use crate::error::ApiError;

#[derive(Debug, Clone)]
pub struct UpdateUserSettingsRequest {
    pub search_interval_minutes: Option<i32>,
}

/// The update must carry an interval of at least 30 minutes; a missing
/// or too-small value is a validation failure with its stable message.
pub fn validate_search_interval(req: &UpdateUserSettingsRequest) -> (r: Result<i32, ApiError>)
    ensures
        match r {
            Ok(v) => req.search_interval_minutes == Some(v) && v >= 30,
            Err(e) => e matches ApiError::BadRequest(m) && match req.search_interval_minutes {
                None => m@ == "search_interval_minutes is required"@,
                Some(v) => v < 30 && m@ == "search_interval_minutes must be at least 30"@,
            },
        },
{
    match req.search_interval_minutes {
        None => Err(
            ApiError::BadRequest(String::from_str("search_interval_minutes is required")),
        ),
        Some(v) => if v < 30 {
            Err(ApiError::BadRequest(String::from_str("search_interval_minutes must be at least 30")))
        } else {
            Ok(v)
        },
    }
}

} // verus!
