//! Spec-level bookkeeping over the post sequence: where a post with a given
//! ID lives, and how many comments and donation records the live posts hold
//! between them.

use vstd::prelude::*;

use crate::post::{Comment, Post};

verus! {

/// Whether the comment list holds a comment carrying the given ID.
pub open spec fn has_comment(s: Seq<Comment>, id: u64) -> bool {
    exists|j: int| 0 <= j < s.len() && s[j].comment_id == id
}

/// Whether some live post carries the given ID.
pub open spec fn has_post(s: Seq<Post>, id: u64) -> bool {
    exists|j: int| 0 <= j < s.len() && s[j].post_id == id
}

/// The index of the live post carrying the given ID. Meaningful only where
/// `has_post` holds and IDs are unique.
pub open spec fn post_index(s: Seq<Post>, id: u64) -> int {
    choose|j: int| 0 <= j < s.len() && s[j].post_id == id
}

/// Post IDs appear in strictly increasing order: allocation order, with no
/// ID ever reused.
pub open spec fn ids_strictly_increasing(s: Seq<Post>) -> bool {
    forall|i: int, j: int| 0 <= i < j < s.len() ==> s[i].post_id < s[j].post_id
}

/// Where IDs are strictly increasing, a match at `i` is the only match, so
/// `post_index` picks exactly `i`.
pub proof fn lemma_post_index_unique(s: Seq<Post>, id: u64, i: int)
    requires
        ids_strictly_increasing(s),
        0 <= i < s.len(),
        s[i].post_id == id,
    ensures
        has_post(s, id),
        post_index(s, id) == i,
{
    assert(has_post(s, id));
    let j = post_index(s, id);
    if j < i {
        assert(s[j].post_id < s[i].post_id);
    } else if j > i {
        assert(s[i].post_id < s[j].post_id);
    }
}

/// The number of comments held by the live posts, summed.
pub open spec fn sum_comments(s: Seq<Post>) -> int
    decreases s.len(),
{
    if s.len() == 0 {
        0
    } else {
        sum_comments(s.drop_last()) + s.last().comments@.len()
    }
}

/// The number of donation records held by the live posts, summed.
pub open spec fn sum_donations(s: Seq<Post>) -> int
    decreases s.len(),
{
    if s.len() == 0 {
        0
    } else {
        sum_donations(s.drop_last()) + s.last().donation_logs@.len()
    }
}

/// Both sums are sums of lengths, so neither is ever negative.
pub proof fn lemma_sums_nonnegative(s: Seq<Post>)
    ensures
        sum_comments(s) >= 0,
        sum_donations(s) >= 0,
    decreases s.len(),
{
    if s.len() > 0 {
        lemma_sums_nonnegative(s.drop_last());
    }
}

/// Each post's own nested counts are part of the sums, so they bound the
/// sums from below.
pub proof fn lemma_sums_lower_bound(s: Seq<Post>, i: int)
    requires
        0 <= i < s.len(),
    ensures
        sum_comments(s) >= s[i].comments@.len(),
        sum_donations(s) >= s[i].donation_logs@.len(),
    decreases s.len(),
{
    if i == s.len() - 1 {
        lemma_sums_nonnegative(s.drop_last());
    } else {
        lemma_sums_lower_bound(s.drop_last(), i);
    }
}

/// Appending a post adds exactly its own nested counts to the sums.
pub proof fn lemma_sums_push(s: Seq<Post>, p: Post)
    ensures
        sum_comments(s.push(p)) == sum_comments(s) + p.comments@.len(),
        sum_donations(s.push(p)) == sum_donations(s) + p.donation_logs@.len(),
{
    assert(s.push(p).drop_last() =~= s);
}

/// Removing the post at `i` subtracts exactly its own nested counts.
pub proof fn lemma_sums_remove(s: Seq<Post>, i: int)
    requires
        0 <= i < s.len(),
    ensures
        sum_comments(s.remove(i)) == sum_comments(s) - s[i].comments@.len(),
        sum_donations(s.remove(i)) == sum_donations(s) - s[i].donation_logs@.len(),
    decreases s.len(),
{
    if i == s.len() - 1 {
        assert(s.remove(i) =~= s.drop_last());
    } else {
        lemma_sums_remove(s.drop_last(), i);
        assert(s.remove(i).drop_last() =~= s.drop_last().remove(i));
        assert(s.remove(i).last() == s.last());
    }
}

/// Replacing the post at `i` shifts the sums by the difference in its own
/// nested counts.
pub proof fn lemma_sums_update(s: Seq<Post>, i: int, p: Post)
    requires
        0 <= i < s.len(),
    ensures
        sum_comments(s.update(i, p)) == sum_comments(s) - s[i].comments@.len()
            + p.comments@.len(),
        sum_donations(s.update(i, p)) == sum_donations(s) - s[i].donation_logs@.len()
            + p.donation_logs@.len(),
    decreases s.len(),
{
    if i == s.len() - 1 {
        assert(s.update(i, p).drop_last() =~= s.drop_last());
        assert(s.update(i, p).last() == p);
    } else {
        lemma_sums_update(s.drop_last(), i, p);
        assert(s.update(i, p).drop_last() =~= s.drop_last().update(i, p));
        assert(s.update(i, p).last() == s.last());
    }
}

} // verus!
