//! Personal notes: the request shapes and the validation the handlers
//! apply before the ownership-scoped repository runs.

use vstd::prelude::*;

verus! {

use crate::error::ApiError;
use crate::text::{trim, trim_spec};

#[derive(Debug, Clone)]
pub struct CreateNoteRequest {
    pub title: String,
    pub body: String,
}

#[derive(Debug, Clone)]
pub struct NotesQuery {
    pub limit: Option<i64>,
    pub offset: Option<i64>,
}

/// A note needs a title and a body that are non-empty after trimming;
/// the first missing field names itself in the validation message.
pub fn validate_note(req: &CreateNoteRequest) -> (r: Result<(), ApiError>)
    ensures
        r is Ok <==> (trim_spec(req.title@).len() > 0 && trim_spec(req.body@).len() > 0),
        r matches Err(e) ==> e matches ApiError::BadRequest(m) && m@ == (
        if trim_spec(req.title@).len() == 0 {
            "title is required"@
        } else {
            "body is required"@
        }),
{
    let title = trim(req.title.as_str());
    if title.as_str().is_empty() {
        return Err(ApiError::BadRequest(String::from_str("title is required")));
    }
    let body = trim(req.body.as_str());
    if body.as_str().is_empty() {
        return Err(ApiError::BadRequest(String::from_str("body is required")));
    }
    Ok(())
}

} // verus!
