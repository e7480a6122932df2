//! Ledger-wide laws that span several operations.
//!
//! Count consistency, the ownership gate, validation and settlement
//! atomicity are stated on the operations themselves, as `ensures` clauses
//! of `create_post`, `delete_post`, `comment`, `delete_comment`, `donate`
//! and `save_to_donation_log`. ID monotonicity relates calls that may lie
//! arbitrarily far apart, so it is stated here over the ledger states those
//! calls observe.

use vstd::prelude::*;

use crate::blog::Blog;

verus! {

/// ID monotonicity: post IDs returned by successive creates strictly
/// increase and never repeat, however many operations — deletions among
/// them — run in between.
///
/// A create returns the ledger's `next_post_id` and leaves the counter
/// strictly above the returned ID, and every operation's contract keeps
/// `next_post_id` where it is or advances it. So an ID returned by an
/// earlier create (`id1`, against the ledger state `mid` the create left
/// behind) lies strictly below the ID a later create returns (`id2`, read
/// off the ledger state `later` that create starts from).
pub proof fn lemma_post_ids_strictly_increase(id1: u64, mid: Blog, later: Blog, id2: u64)
    requires
        id1 < mid.next_post_id,
        mid.next_post_id <= later.next_post_id,
        id2 == later.next_post_id,
    ensures
        id1 < id2,
        id1 != id2,
{
}

/// No ID reuse: the ID the next create will return is carried by no live
/// post, so even after deletions an ID never comes back.
pub proof fn lemma_next_post_id_fresh(b: Blog)
    requires
        b.wf(),
    ensures
        forall|i: int| 0 <= i < b.posts@.len() ==> (#[trigger] b.posts@[i]).post_id
            != b.next_post_id,
{
}

/// Comment IDs come from one global counter, whatever post they attach to:
/// the ID the next comment will receive is carried by no live comment of
/// any post.
pub proof fn lemma_next_comment_id_fresh(b: Blog)
    requires
        b.wf(),
    ensures
        forall|i: int, j: int|
            0 <= i < b.posts@.len() && 0 <= j < b.posts@[i].comments@.len()
                ==> b.posts@[i].comments@[j].comment_id != b.next_comment_id,
{
}

/// Donation IDs come from one global counter, whatever post they attach to:
/// the ID the next donation record will receive is carried by no live
/// record of any post.
pub proof fn lemma_next_donation_id_fresh(b: Blog)
    requires
        b.wf(),
    ensures
        forall|i: int, j: int|
            0 <= i < b.posts@.len() && 0 <= j < b.posts@[i].donation_logs@.len()
                ==> b.posts@[i].donation_logs@[j].donation_id != b.next_donation_id,
{
}

} // verus!
