//! Mirrored external comments: the batch shapes the repository works
//! with.

use vstd::prelude::*;

verus! {

#[derive(Debug, Clone)]
pub struct UpsertVkCommentsResult {
    pub inserted: i64,
    pub updated: i64,
}

#[derive(Debug, Clone)]
pub struct NewVkComment {
    pub group_id: i64,
    pub post_id: i64,
    pub comment_id: i64,
    pub from_id: i64,
    pub created_date: i64,
    pub comment_text: Option<String>,
}

#[derive(Debug, Clone, PartialEq, Eq, Structural)]
pub struct VkCommentKey {
    pub group_id: i64,
    pub post_id: i64,
    pub comment_id: i64,
}

} // verus!
