//! Mirrored external posts: the batch shapes the repository works
//! with.  The relational batch work itself is the repository's.

use vstd::prelude::*;

verus! {

#[derive(Debug, Clone)]
pub struct UpsertVkPostsResult {
    pub inserted: i64,
    pub updated: i64,
}

#[derive(Debug, Clone)]
pub struct NewVkPost {
    pub post_id: i64,
    pub group_id: i64,
    pub from_id: i64,
    pub created_date: i64,
    pub post_type: Option<String>,
    pub post_text: Option<String>,
}

#[derive(Debug, Clone, PartialEq, Eq, Structural)]
pub struct VkPostKey {
    pub group_id: i64,
    pub post_id: i64,
}

} // verus!
