//! Saved social-network groups: the request shapes and the validation
//! the handlers apply before the ownership-scoped repository runs.

use vstd::prelude::*;

verus! {

use crate::error::ApiError;

#[derive(Debug, Clone)]
pub struct CreateGroupRequest {
    pub group_id: i64,
    pub group_name: Option<String>,
    pub screen_name: Option<String>,
    pub is_closed: Option<i32>,
    pub public_type: Option<String>,
    pub photo_200: Option<String>,
    pub description: Option<String>,
    pub members_count: Option<i32>,
}

#[derive(Debug, Clone)]
pub struct GroupsQuery {
    pub limit: Option<i64>,
    pub offset: Option<i64>,
}

#[derive(Debug, Clone)]
pub struct GroupDto {
    pub group_id: i64,
    pub group_name: Option<String>,
    pub screen_name: Option<String>,
    pub is_closed: Option<i32>,
    pub public_type: Option<String>,
    pub photo_200: Option<String>,
    pub description: Option<String>,
    pub members_count: Option<i32>,
}

#[derive(Debug, Clone)]
pub struct NewGroup {
    pub group_id: i64,
    pub group_name: Option<String>,
    pub screen_name: Option<String>,
    pub is_closed: Option<i32>,
    pub public_type: Option<String>,
    pub photo_200: Option<String>,
    pub description: Option<String>,
    pub members_count: Option<i32>,
}

/// A group identifier must be strictly positive; anything else is a
/// validation failure with its stable message.
pub fn validate_group_id(group_id: i64) -> (r: Result<(), ApiError>)
    ensures
        group_id > 0 <==> r is Ok,
        r matches Err(e) ==> e matches ApiError::BadRequest(m) && m@
            == "group_id must be greater than 0"@,
{
    if group_id <= 0 {
        Err(ApiError::BadRequest(String::from_str("group_id must be greater than 0")))
    } else {
        Ok(())
    }
}

/// What the create handler stores: the request's fields, moved over
/// unchanged.
pub fn new_group_of_request(req: CreateGroupRequest) -> (g: NewGroup)
    ensures
        g.group_id == req.group_id,
        g.group_name == req.group_name,
        g.screen_name == req.screen_name,
        g.is_closed == req.is_closed,
        g.public_type == req.public_type,
        g.photo_200 == req.photo_200,
        g.description == req.description,
        g.members_count == req.members_count,
{
    NewGroup {
        group_id: req.group_id,
        group_name: req.group_name,
        screen_name: req.screen_name,
        is_closed: req.is_closed,
        public_type: req.public_type,
        photo_200: req.photo_200,
        description: req.description,
        members_count: req.members_count,
    }
}

} // verus!
