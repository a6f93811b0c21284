//! Stored external-API tokens: request shapes, the batch validation,
//! and the verified accounting of the batch insert.  Tokens are stored
//! under their one-way hash; the relational work itself is the
//! repository's, but which rows a batch creates — and so the
//! inserted/skipped counts — is a function of the hashes alone and is
//! verified here.

use vstd::prelude::*;

verus! {

use crate::error::ApiError;
use crate::hashing::{sha256_hex, token_hash_of};
use crate::text::{trim, trim_spec};

#[derive(Debug, Clone)]
pub struct AddVkTokensRequest {
    pub tokens: Vec<String>,
}

#[derive(Debug, Clone)]
pub struct AddVkTokensResponse {
    pub inserted: i64,
    pub skipped: i64,
}

#[derive(Debug, Clone)]
pub struct DeleteVkTokensRequest {
    pub tokens: Vec<String>,
}

#[derive(Debug, Clone)]
pub struct DeleteVkTokensResponse {
    pub deleted: i64,
}

#[derive(Debug, Clone)]
pub struct AddVkTokensResult {
    pub inserted: i64,
    pub skipped: i64,
}

/// A batch must hold between 1 and 100 tokens, each non-empty after
/// trimming; a valid batch comes back trimmed, in order.
pub fn normalize_tokens(tokens: &Vec<String>) -> (r: Result<Vec<String>, ApiError>)
    ensures
        (r is Err) <==> (tokens@.len() == 0 || tokens@.len() > 100 || exists|i: int|
            #![trigger tokens@[i]]
            0 <= i < tokens@.len() && trim_spec(tokens@[i]@).len() == 0),
        r matches Ok(v) ==> ({
            &&& v@.len() == tokens@.len()
            &&& forall|i: int| #![trigger v@[i]]
                0 <= i < tokens@.len() ==> v@[i]@ == trim_spec(tokens@[i]@) && v@[i]@.len() > 0
        }),
        r matches Err(e) ==> e matches ApiError::BadRequest(m) && m@ == (
        if tokens@.len() == 0 {
            "tokens must contain at least one value"@
        } else if tokens@.len() > 100 {
            "tokens can contain up to 100 values"@
        } else {
            "token value cannot be empty"@
        }),
{
    if tokens.len() == 0 {
        return Err(ApiError::BadRequest(String::from_str("tokens must contain at least one value")));
    }
    if tokens.len() > 100 {
        return Err(ApiError::BadRequest(String::from_str("tokens can contain up to 100 values")));
    }
    let mut out: Vec<String> = Vec::new();
    let mut i: usize = 0;
    while i < tokens.len()
        invariant
            i <= tokens@.len(),
            0 < tokens@.len() <= 100,
            out@.len() == i,
            forall|j: int| #![trigger out@[j]]
                0 <= j < i ==> out@[j]@ == trim_spec(tokens@[j]@) && out@[j]@.len() > 0,
            forall|j: int| #![trigger tokens@[j]] 0 <= j < i ==> trim_spec(tokens@[j]@).len() > 0,
        decreases tokens@.len() - i,
    {
        let t = trim(tokens[i].as_str());
        if t.as_str().is_empty() {
            return Err(ApiError::BadRequest(String::from_str("token value cannot be empty")));
        }
        out.push(t);
        i = i + 1;
    }
    Ok(out)
}

/// The views of a sequence of strings.
pub open spec fn views_of(v: Seq<String>) -> Seq<Seq<char>> {
    Seq::new(v.len(), |i: int| v[i]@)
}

/// Whether some element of `hs` is `x`.
pub open spec fn seq_has(hs: Seq<Seq<char>>, x: Seq<char>) -> bool {
    exists|i: int| #![trigger hs[i]] 0 <= i < hs.len() && hs[i] == x
}

/// The storage hash of each token, in presentation order.
pub open spec fn hash_seq(tokens: Seq<String>) -> Seq<Seq<char>> {
    Seq::new(tokens.len(), |i: int| token_hash_of(tokens[i]@))
}

/// Whether the token at position `i` creates a row: its hash is not
/// stored yet, and no earlier token of the batch shares it (a later
/// duplicate conflicts with the row its first occurrence created).
pub open spec fn creates_row(existing: Seq<Seq<char>>, hs: Seq<Seq<char>>, i: int) -> bool {
    !seq_has(existing, hs[i]) && forall|j: int| #![trigger hs[j]] 0 <= j < i ==> hs[j] != hs[i]
}

/// How many of the first `upto` tokens create rows.
pub open spec fn rows_created(existing: Seq<Seq<char>>, hs: Seq<Seq<char>>, upto: int) -> int
    decreases upto,
{
    if upto <= 0 {
        0
    } else {
        rows_created(existing, hs, upto - 1) + if creates_row(existing, hs, upto - 1) {
            1int
        } else {
            0int
        }
    }
}

fn contains_str(v: &Vec<String>, x: &String) -> (r: bool)
    ensures
        r == seq_has(views_of(v@), x@),
{
    let mut i: usize = 0;
    while i < v.len()
        invariant
            i <= v@.len(),
            forall|j: int| #![trigger v@[j]] 0 <= j < i ==> v@[j]@ != x@,
        decreases v@.len() - i,
    {
        if v[i] == *x {
            proof {
                assert(views_of(v@)[i as int] == x@);
            }
            return true;
        }
        i = i + 1;
    }
    proof {
        assert forall|j: int| 0 <= j < v@.len() implies #[trigger] views_of(v@)[j] != x@ by {
            assert(v@[j]@ != x@);
        }
    }
    false
}

/// The accounting of a batch insert: against a store already holding
/// the `existing` hashes, inserting `tokens` in order creates one row
/// per token whose hash is new, skips the rest, and reports both
/// counts.
pub fn plan_vk_token_insert(existing: &Vec<String>, tokens: &Vec<String>) -> (r: AddVkTokensResult)
    requires
        tokens@.len() <= i64::MAX,
    ensures
        r.inserted == rows_created(
            views_of(existing@),
            hash_seq(tokens@),
            tokens@.len() as int,
        ),
        r.inserted + r.skipped == tokens@.len(),
        0 <= r.inserted <= tokens@.len(),
{
    let ghost ex = views_of(existing@);
    let ghost hs = hash_seq(tokens@);
    let mut inserted: i64 = 0;
    let mut seen: Vec<String> = Vec::new();
    let mut i: usize = 0;
    while i < tokens.len()
        invariant
            i <= tokens@.len(),
            tokens@.len() <= i64::MAX,
            ex == views_of(existing@),
            hs == hash_seq(tokens@),
            0 <= inserted <= i,
            inserted as int == rows_created(ex, hs, i as int),
            forall|k: int| #![trigger seen@[k]]
                0 <= k < seen@.len() ==> !seq_has(ex, seen@[k]@) && exists|j: int|
                    #![trigger hs[j]] 0 <= j < i && hs[j] == seen@[k]@,
            forall|j: int| #![trigger hs[j]]
                0 <= j < i && !seq_has(ex, hs[j]) ==> seq_has(views_of(seen@), hs[j]),
        decreases tokens@.len() - i,
    {
        let h = sha256_hex(tokens[i].as_str());
        proof {
            assert(h@ == hs[i as int]);
        }
        let in_existing = contains_str(existing, &h);
        let in_seen = contains_str(&seen, &h);
        if in_existing || in_seen {
            proof {
                if in_seen {
                    let k = choose|k: int|
                        0 <= k < views_of(seen@).len() && #[trigger] views_of(seen@)[k] == h@;
                    assert(seen@[k]@ == h@);
                    let j = choose|j: int| 0 <= j < i && #[trigger] hs[j] == seen@[k]@;
                    assert(!creates_row(ex, hs, i as int));
                    assert(seq_has(views_of(seen@), hs[i as int]));
                }
                assert(!creates_row(ex, hs, i as int));
            }
        } else {
            proof {
                assert forall|j: int| 0 <= j < i implies #[trigger] hs[j] != hs[i as int] by {
                    if hs[j] == hs[i as int] {
                        if seq_has(ex, hs[j]) {
                        } else {
                            assert(seq_has(views_of(seen@), hs[j]));
                        }
                    }
                }
                assert(creates_row(ex, hs, i as int));
            }
            let ghost old_seen = seen@;
            inserted = inserted + 1;
            seen.push(h);
            proof {
                assert(seen@[old_seen.len() as int]@ == hs[i as int]);
                assert forall|j: int|
                    0 <= j <= i as int && !seq_has(ex, hs[j]) implies seq_has(
                    views_of(seen@),
                    hs[j],
                ) by {
                    if j == i as int {
                        assert(views_of(seen@)[old_seen.len() as int] == hs[j]);
                    } else {
                        assert(seq_has(views_of(old_seen), hs[j]));
                        let k = choose|k: int|
                            0 <= k < views_of(old_seen).len() && #[trigger] views_of(old_seen)[k]
                                == hs[j];
                        assert(views_of(seen@)[k] == hs[j]);
                    }
                }
            }
        }
        i = i + 1;
    }
    AddVkTokensResult { inserted, skipped: tokens.len() as i64 - inserted }
}

/// The storage hash of each token of a delete batch, in order: what
/// the repository's batched delete matches rows against.
pub fn vk_token_hashes(tokens: &Vec<String>) -> (r: Vec<String>)
    ensures
        r@.len() == tokens@.len(),
        forall|i: int| #![trigger r@[i]]
            0 <= i < tokens@.len() ==> r@[i]@ == token_hash_of(tokens@[i]@),
{
    let mut out: Vec<String> = Vec::new();
    let mut i: usize = 0;
    while i < tokens.len()
        invariant
            i <= tokens@.len(),
            out@.len() == i,
            forall|j: int| #![trigger out@[j]]
                0 <= j < i ==> out@[j]@ == token_hash_of(tokens@[j]@),
        decreases tokens@.len() - i,
    {
        out.push(sha256_hex(tokens[i].as_str()));
        i = i + 1;
    }
    out
}

} // verus!
