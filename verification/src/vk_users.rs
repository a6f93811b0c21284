//! Mirrored external user records: the list-query shape.  The batch
//! upsert, delete and list are relational work done by the repository;
//! the paging they share is verified in `paging`.

use vstd::prelude::*;

verus! {

#[derive(Debug, Clone)]
pub struct VkUsersQuery {
    pub limit: Option<i64>,
    pub offset: Option<i64>,
}

#[derive(Debug, Clone)]
pub struct UpsertVkUsersResult {
    pub inserted: i64,
    pub updated: i64,
}

} // verus!
