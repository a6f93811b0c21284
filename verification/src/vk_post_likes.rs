//! Mirrored post likes: the batch shapes the repository works with.

use vstd::prelude::*;

verus! {

#[derive(Debug, Clone)]
pub struct UpsertVkPostLikesResult {
    pub inserted: i64,
    pub updated: i64,
}

#[derive(Debug, Clone, PartialEq, Eq, Structural)]
pub struct VkPostLikeKey {
    pub vk_user_id: i64,
    pub group_id: i64,
    pub post_id: i64,
}

} // verus!
