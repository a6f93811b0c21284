//! Paging of list endpoints: the limit is defaulted and clamped, the
//! offset defaulted and floored, identically for every resource.

use vstd::prelude::*;

verus! {

/// The effective limit and offset for a list query: a missing limit
/// defaults to 50 and is clamped to 1..=100, a missing or negative
/// offset becomes 0.
pub fn page_params(limit: Option<i64>, offset: Option<i64>) -> (r: (i64, i64))
    ensures
        r.0 as int == ({
            let raw: int = match limit {
                Some(x) => x as int,
                None => 50,
            };
            if raw < 1 {
                1
            } else if raw > 100 {
                100
            } else {
                raw
            }
        }),
        r.1 as int == ({
            let raw: int = match offset {
                Some(x) => x as int,
                None => 0,
            };
            if raw < 0 {
                0
            } else {
                raw
            }
        }),
{
    let l = match limit {
        Some(x) => x,
        None => 50,
    };
    let l = if l < 1 {
        1
    } else if l > 100 {
        100
    } else {
        l
    };
    let o = match offset {
        Some(x) => x,
        None => 0,
    };
    let o = if o < 0 {
        0
    } else {
        o
    };
    (l, o)
}

} // verus!
