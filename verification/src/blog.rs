//! The ledger root: all posts, the per-author post index, and the four
//! monotonic counters, together with the mutation and query protocol.

use vstd::prelude::*;
use vstd::string::{StrSliceExecFns, StringExecFns};

use crate::counts::{
    has_comment, has_post, ids_strictly_increasing, lemma_post_index_unique,
    lemma_sums_lower_bound, lemma_sums_nonnegative, lemma_sums_push, lemma_sums_remove,
    lemma_sums_update, post_index, sum_comments, sum_donations,
};
use crate::errors::BlogError;
use crate::identity::Identity;
use crate::post::{post_eq, Comment, Post};

verus! {

/// One author's entry in the per-author post index: the IDs of the posts
/// created under that identity, in creation order. An ID may go stale when
/// its post is deleted; the entry is not repaired.
#[derive(Debug)]
pub struct UserIndex {
    pub user: Identity,
    pub post_ids: Vec<u64>,
}

/// The ledger root.
#[derive(Debug)]
pub struct Blog {
    pub owner: Identity,
    pub user_posts: Vec<UserIndex>,
    pub posts: Vec<Post>,
    pub next_post_id: u64,
    pub total_posts: u64,
    pub next_comment_id: u64,
    pub total_comments: u64,
    pub next_donation_id: u64,
    pub total_donations: u64,
}

/// Whether some index entry belongs to the given author.
pub open spec fn has_user(s: Seq<UserIndex>, who: Seq<char>) -> bool {
    exists|j: int| 0 <= j < s.len() && s[j].user@ == who
}

/// The position of the given author's index entry. Meaningful only where
/// `has_user` holds and authors are unique.
pub open spec fn user_index(s: Seq<UserIndex>, who: Seq<char>) -> int {
    choose|j: int| 0 <= j < s.len() && s[j].user@ == who
}

/// No author owns two index entries.
pub open spec fn users_unique(s: Seq<UserIndex>) -> bool {
    forall|i: int, j: int| 0 <= i < j < s.len() ==> s[i].user@ != s[j].user@
}

/// Where authors are unique, a match at `i` is the only match, so
/// `user_index` picks exactly `i`.
pub proof fn lemma_user_index_unique(s: Seq<UserIndex>, who: Seq<char>, i: int)
    requires
        users_unique(s),
        0 <= i < s.len(),
        s[i].user@ == who,
    ensures
        has_user(s, who),
        user_index(s, who) == i,
{
    assert(has_user(s, who));
    let j = user_index(s, who);
    if j < i {
        assert(s[j].user@ != s[i].user@);
    } else if j > i {
        assert(s[i].user@ != s[j].user@);
    }
}

/// Every ID listed in an index entry was issued before `next_post_id`, and
/// where the listed post is still live, it is authored by the entry's owner.
pub open spec fn user_entry_wf(e: UserIndex, posts: Seq<Post>, next_post_id: u64) -> bool {
    &&& forall|j: int| 0 <= j < e.post_ids@.len() ==> e.post_ids@[j] < next_post_id
    &&& forall|j: int, i: int|
        0 <= j < e.post_ids@.len() && 0 <= i < posts.len() && posts[i].post_id == e.post_ids@[j]
            ==> posts[i].author@ == e.user@
}

/// The IDs nested in a post were issued before the respective counter, they
/// rise in allocation order, and each vote list names an identity at most
/// once.
pub open spec fn post_wf(p: Post, next_comment_id: u64, next_donation_id: u64) -> bool {
    &&& forall|i: int, j: int|
        0 <= i < j < p.comments@.len() ==> p.comments@[i].comment_id
            < p.comments@[j].comment_id
    &&& forall|i: int|
        0 <= i < p.comments@.len() ==> (#[trigger] p.comments@[i]).comment_id < next_comment_id
    &&& forall|i: int, j: int|
        0 <= i < j < p.donation_logs@.len() ==> p.donation_logs@[i].donation_id
            < p.donation_logs@[j].donation_id
    &&& forall|i: int|
        0 <= i < p.donation_logs@.len() ==> (#[trigger] p.donation_logs@[i]).donation_id
            < next_donation_id
    &&& forall|i: int, j: int| 0 <= i < j < p.upvotes@.len() ==> p.upvotes@[i]@ != p.upvotes@[j]@
    &&& forall|i: int, j: int|
        0 <= i < j < p.downvotes@.len() ==> p.downvotes@[i]@ != p.downvotes@[j]@
}

/// How the per-author index changes when an already-indexed author creates
/// a post: only that author's entry changes, and only by appending the new
/// ID.
pub open spec fn entry_appended(pre: Seq<UserIndex>, post: Seq<UserIndex>, who: Seq<char>, id: u64) -> bool {
    let k = user_index(pre, who);
    &&& post.len() == pre.len()
    &&& forall|j: int| 0 <= j < pre.len() && j != k ==> post[j] == pre[j]
    &&& post[k].user == pre[k].user
    &&& post[k].post_ids@ == pre[k].post_ids@.push(id)
}

/// How the per-author index changes when an author without an entry creates
/// a post: a fresh entry for that author, listing just the new ID, joins at
/// the end.
pub open spec fn entry_created(pre: Seq<UserIndex>, post: Seq<UserIndex>, who: Seq<char>, id: u64) -> bool {
    &&& post.len() == pre.len() + 1
    &&& forall|j: int| 0 <= j < pre.len() ==> post[j] == pre[j]
    &&& post.last().user@ == who
    &&& post.last().post_ids@ == seq![id]
}

/// The shape of a freshly created post: the given ID, title, body, author
/// and creation time, and every nested collection empty.
pub open spec fn fresh_post(
    p: Post,
    id: u64,
    title: Seq<char>,
    body: Seq<char>,
    author: Seq<char>,
    now: u64,
) -> bool {
    &&& p.post_id == id
    &&& p.title@ == title
    &&& p.body@ == body
    &&& p.author@ == author
    &&& p.created_at == now
    &&& p.comments@.len() == 0
    &&& p.upvotes@.len() == 0
    &&& p.downvotes@.len() == 0
    &&& p.donation_logs@.len() == 0
}

/// Neither the owner nor the per-author index changed.
pub open spec fn same_owner_and_index(pre: Blog, post: Blog) -> bool {
    pre.owner == post.owner && pre.user_posts@ == post.user_posts@
}

/// The post counters did not move.
pub open spec fn same_post_counters(pre: Blog, post: Blog) -> bool {
    pre.next_post_id == post.next_post_id && pre.total_posts == post.total_posts
}

/// The comment counters did not move.
pub open spec fn same_comment_counters(pre: Blog, post: Blog) -> bool {
    pre.next_comment_id == post.next_comment_id && pre.total_comments == post.total_comments
}

/// The donation counters did not move.
pub open spec fn same_donation_counters(pre: Blog, post: Blog) -> bool {
    pre.next_donation_id == post.next_donation_id && pre.total_donations == post.total_donations
}

impl Blog {
    /// Well-formedness: the structural invariant every operation preserves.
    ///
    /// Post IDs rise strictly and stay below `next_post_id`, so no ID is
    /// ever reused; nested IDs do the same against their counters; the
    /// total counters never undercount the live nested entities; and the
    /// per-author index is unique and points only at posts by its author.
    pub open spec fn wf(self) -> bool {
        &&& ids_strictly_increasing(self.posts@)
        &&& forall|i: int|
            0 <= i < self.posts@.len() ==> (#[trigger] self.posts@[i]).post_id
                < self.next_post_id
        &&& forall|i: int|
            0 <= i < self.posts@.len() ==> post_wf(
                #[trigger] self.posts@[i],
                self.next_comment_id,
                self.next_donation_id,
            )
        &&& self.total_posts <= self.posts@.len()
        &&& sum_comments(self.posts@) <= self.total_comments
        &&& sum_donations(self.posts@) <= self.total_donations
        &&& users_unique(self.user_posts@)
        &&& forall|k: int|
            0 <= k < self.user_posts@.len() ==> user_entry_wf(
                #[trigger] self.user_posts@[k],
                self.posts@,
                self.next_post_id,
            )
    }

    /// Count consistency: `total_posts` equals the number of live posts and
    /// the comment and donation totals equal the summed live nested counts.
    /// Every operation preserves it, except a delete aimed at an absent
    /// post or at a post that still carries nested entities.
    pub open spec fn counts_consistent(self) -> bool {
        &&& self.total_posts == self.posts@.len()
        &&& self.total_comments == sum_comments(self.posts@)
        &&& self.total_donations == sum_donations(self.posts@)
    }

    /// A fresh ledger owned by the given identity: no posts, no index
    /// entries, every counter at zero.
    pub fn new(owner: Identity) -> (b: Blog)
        ensures
            b.wf(),
            b.counts_consistent(),
            b.owner@ == owner@,
            b.posts@.len() == 0,
            b.user_posts@.len() == 0,
            b.next_post_id == 0,
            b.total_posts == 0,
            b.next_comment_id == 0,
            b.total_comments == 0,
            b.next_donation_id == 0,
            b.total_donations == 0,
    {
        Blog {
            owner,
            user_posts: Vec::new(),
            posts: Vec::new(),
            next_post_id: 0,
            total_posts: 0,
            next_comment_id: 0,
            total_comments: 0,
            next_donation_id: 0,
            total_donations: 0,
        }
    }

    /// The identity the ledger was created under: the only principal the
    /// privileged mutations accept.
    pub fn get_owner(&self) -> (r: Identity)
        ensures
            r == self.owner,
    {
        self.owner.clone()
    }

    /// The number of live posts, as counted by the ledger.
    pub fn get_total_posts(&self) -> (r: u64)
        ensures
            r == self.total_posts,
    {
        self.total_posts
    }

    /// The ID the next created post will receive.
    pub fn get_next_post_id(&self) -> (r: u64)
        ensures
            r == self.next_post_id,
    {
        self.next_post_id
    }

    /// Where the given author's index entry sits, if anywhere.
    pub(crate) fn find_user_slot(index: &Vec<UserIndex>, who: &Identity) -> (r: Option<usize>)
        ensures
            match r {
                Some(k) => k < index@.len() && index@[k as int].user@ == who@,
                None => !has_user(index@, who@),
            },
    {
        let mut k: usize = 0;
        while k < index.len()
            invariant
                k <= index@.len(),
                forall|j: int| 0 <= j < k ==> index@[j].user@ != who@,
            decreases index@.len() - k,
        {
            if index[k].user.same_as(who) {
                return Some(k);
            }
            k += 1;
        }
        None
    }

    /// Where the post with the given ID sits, if anywhere.
    pub(crate) fn find_post_slot(posts: &Vec<Post>, post_id: u64) -> (r: Option<usize>)
        ensures
            match r {
                Some(k) => k < posts@.len() && posts@[k as int].post_id == post_id,
                None => !has_post(posts@, post_id),
            },
    {
        let mut k: usize = 0;
        while k < posts.len()
            invariant
                k <= posts@.len(),
                forall|j: int| 0 <= j < k ==> posts@[j].post_id != post_id,
            decreases posts@.len() - k,
        {
            if posts[k].post_id == post_id {
                return Some(k);
            }
            k += 1;
        }
        None
    }

    /// Creates a post under the caller's own identity: allocates the next
    /// post ID, stores the post with empty nested collections, records the
    /// ID in the caller's index entry, and advances both the live count and
    /// the ID counter. Open to any caller.
    pub fn create_post(
        &mut self,
        caller: Identity,
        now: u64,
        title: String,
        body: String,
    ) -> (post_id: u64)
        requires
            old(self).wf(),
            old(self).next_post_id < u64::MAX,
            old(self).total_posts < u64::MAX,
        ensures
            final(self).wf(),
            post_id == old(self).next_post_id,
            final(self).next_post_id == old(self).next_post_id + 1,
            final(self).total_posts == old(self).total_posts + 1,
            final(self).posts@.len() == old(self).posts@.len() + 1,
            forall|i: int|
                0 <= i < old(self).posts@.len() ==> final(self).posts@[i] == old(self).posts@[i],
            fresh_post(final(self).posts@.last(), post_id, title@, body@, caller@, now),
            final(self).owner == old(self).owner,
            final(self).next_comment_id == old(self).next_comment_id,
            final(self).total_comments == old(self).total_comments,
            final(self).next_donation_id == old(self).next_donation_id,
            final(self).total_donations == old(self).total_donations,
            has_user(final(self).user_posts@, caller@),
            has_user(old(self).user_posts@, caller@) ==> entry_appended(
                old(self).user_posts@,
                final(self).user_posts@,
                caller@,
                post_id,
            ),
            !has_user(old(self).user_posts@, caller@) ==> entry_created(
                old(self).user_posts@,
                final(self).user_posts@,
                caller@,
                post_id,
            ),
            old(self).counts_consistent() ==> final(self).counts_consistent(),
    {
        let post_id = self.next_post_id;
        let author_for_index = caller.clone();
        let ghost w = caller@;
        let ghost old_index = self.user_posts@;

        match Self::find_user_slot(&self.user_posts, &author_for_index) {
            Some(k) => {
                proof {
                    lemma_user_index_unique(old_index, w, k as int);
                }
                self.user_posts[k].post_ids.push(post_id);
            },
            None => {
                let mut ids: Vec<u64> = Vec::new();
                ids.push(post_id);
                self.user_posts.push(UserIndex { user: author_for_index, post_ids: ids });
            },
        }
        let ghost new_index = self.user_posts@;

        let post = Post {
            post_id,
            title,
            body,
            author: caller,
            created_at: now,
            comments: Vec::new(),
            upvotes: Vec::new(),
            downvotes: Vec::new(),
            donation_logs: Vec::new(),
        };
        let ghost gpost = post;

        proof {
            lemma_sums_push(self.posts@, gpost);
        }
        self.posts.push(post);
        self.total_posts = self.total_posts + 1;
        self.next_post_id = self.next_post_id + 1;

        proof {
            if has_user(old_index, w) {
                let k0 = user_index(old_index, w);
                assert(new_index =~= old_index.update(
                    k0,
                    UserIndex {
                        user: old_index[k0].user,
                        post_ids: new_index[k0].post_ids,
                    },
                ));
                lemma_user_index_unique(new_index, w, k0);
            } else {
                assert forall|i: int| 0 <= i < old_index.len() implies old_index[i].user@ != w by {
                    if old_index[i].user@ == w {
                        assert(has_user(old_index, w));
                    }
                }
                assert(new_index.last().user@ == w);
                assert(new_index.last().post_ids@ =~= seq![post_id]);
                lemma_user_index_unique(new_index, w, new_index.len() - 1);
            }
            assert(self.posts@.last() == gpost);
        }

        post_id
    }

    /// Looks a post up by ID. Fails with `NotFound` if it is absent.
    pub fn get_post(&self, post_id: u64) -> (r: Result<&Post, BlogError>)
        requires
            self.wf(),
        ensures
            match r {
                Ok(p) => has_post(self.posts@, post_id) && *p == self.posts@[post_index(
                    self.posts@,
                    post_id,
                )],
                Err(e) => !has_post(self.posts@, post_id) && e == BlogError::NotFound,
            },
    {
        match Self::find_post_slot(&self.posts, post_id) {
            Some(k) => {
                proof {
                    lemma_post_index_unique(self.posts@, post_id, k as int);
                }
                Ok(&self.posts[k])
            },
            None => Err(BlogError::NotFound),
        }
    }

    /// The caller's posts, resolved through the caller's index entry in
    /// creation order. Fails with `NotFound` if the caller has no index
    /// entry — distinct from having zero posts — or if an indexed ID has
    /// gone stale because its post was deleted.
    pub fn get_posts(&self, caller: &Identity) -> (r: Result<Vec<Post>, BlogError>)
        requires
            self.wf(),
        ensures
            match r {
                Ok(v) => {
                    &&& has_user(self.user_posts@, caller@)
                    &&& v@.len() == user_ids(*self, caller@).len()
                    &&& forall|j: int|
                        0 <= j < v@.len() ==> has_post(self.posts@, user_ids(*self, caller@)[j])
                            && post_eq(
                            v@[j],
                            self.posts@[post_index(self.posts@, user_ids(*self, caller@)[j])],
                        )
                },
                Err(e) => e == BlogError::NotFound && (!has_user(self.user_posts@, caller@)
                    || exists|j: int|
                    0 <= j < user_ids(*self, caller@).len() && !has_post(
                        self.posts@,
                        user_ids(*self, caller@)[j],
                    )),
            },
    {
        let slot = match Self::find_user_slot(&self.user_posts, caller) {
            Some(k) => k,
            None => {
                return Err(BlogError::NotFound);
            },
        };
        proof {
            lemma_user_index_unique(self.user_posts@, caller@, slot as int);
        }
        let ghost ids = self.user_posts@[slot as int].post_ids@;

        let mut out: Vec<Post> = Vec::new();
        let mut j: usize = 0;
        let n = self.user_posts[slot].post_ids.len();
        while j < n
            invariant
                self.wf(),
                slot < self.user_posts@.len(),
                n == self.user_posts@[slot as int].post_ids@.len(),
                ids == self.user_posts@[slot as int].post_ids@,
                self.user_posts@[slot as int].user@ == caller@,
                j <= n,
                out@.len() == j,
                forall|jj: int|
                    0 <= jj < j ==> has_post(self.posts@, ids[jj]) && post_eq(
                        out@[jj],
                        self.posts@[post_index(self.posts@, ids[jj])],
                    ),
            decreases n - j,
        {
            let id = self.user_posts[slot].post_ids[j];
            match Self::find_post_slot(&self.posts, id) {
                Some(i) => {
                    proof {
                        lemma_post_index_unique(self.posts@, id, i as int);
                    }
                    out.push(self.posts[i].clone());
                },
                None => {
                    proof {
                        lemma_user_index_unique(self.user_posts@, caller@, slot as int);
                        assert(user_ids(*self, caller@) == ids);
                        assert(0 <= j < user_ids(*self, caller@).len() && !has_post(
                            self.posts@,
                            user_ids(*self, caller@)[j as int],
                        ));
                    }
                    return Err(BlogError::NotFound);
                },
            }
            j += 1;
        }
        proof {
            lemma_user_index_unique(self.user_posts@, caller@, slot as int);
            assert(user_ids(*self, caller@) == ids);
        }
        Ok(out)
    }

    /// Deletes a post. Only the owner may delete; a non-owner fails with
    /// `Unauthorized`. With `total_posts` already at zero the decrement is
    /// refused with `Underflow`. Otherwise the post with the given ID — if
    /// one is live — leaves the ledger, and `total_posts` drops by one
    /// whether or not the ID matched a live post. The per-author index is
    /// not repaired: a deleted post's ID stays listed, stale, under its
    /// author.
    pub fn delete_post(&mut self, caller: &Identity, post_id: u64) -> (r: Result<(), BlogError>)
        requires
            old(self).wf(),
        ensures
            final(self).wf(),
            r == Err::<(), BlogError>(BlogError::Unauthorized) <==> caller@ != old(self).owner@,
            caller@ == old(self).owner@ ==> (r == Err::<(), BlogError>(BlogError::Underflow)
                <==> old(self).total_posts == 0),
            r is Err ==> *final(self) == *old(self),
            r is Ok <==> caller@ == old(self).owner@ && old(self).total_posts > 0,
            r is Ok ==> final(self).total_posts == old(self).total_posts - 1 && final(self).next_post_id == old(self).next_post_id && same_owner_and_index(
                *old(self),
                *final(self),
            ) && same_comment_counters(*old(self), *final(self)) && same_donation_counters(
                *old(self),
                *final(self),
            ),
            r is Ok && has_post(old(self).posts@, post_id) ==> final(self).posts@ == old(self).posts@.remove(post_index(old(self).posts@, post_id)),
            r is Ok && !has_post(old(self).posts@, post_id) ==> final(self).posts@ == old(self).posts@,
            r is Ok && old(self).counts_consistent() && has_post(old(self).posts@, post_id)
                && old(self).posts@[post_index(old(self).posts@, post_id)].comments@.len() == 0
                && old(self).posts@[post_index(old(self).posts@, post_id)].donation_logs@.len()
                == 0 ==> final(self).counts_consistent(),
    {
        if !caller.same_as(&self.owner) {
            return Err(BlogError::Unauthorized);
        }
        if self.total_posts == 0 {
            return Err(BlogError::Underflow);
        }
        match Self::find_post_slot(&self.posts, post_id) {
            Some(k) => {
                proof {
                    lemma_post_index_unique(self.posts@, post_id, k as int);
                    lemma_sums_remove(self.posts@, k as int);
                    lemma_sums_nonnegative(self.posts@.remove(k as int));
                }
                self.posts.remove(k);
            },
            None => {},
        }
        self.total_posts = self.total_posts - 1;
        Ok(())
    }

    /// Whether the comment list holds a comment with the given ID.
    fn find_comment(comments: &Vec<Comment>, comment_id: u64) -> (found: bool)
        ensures
            found == has_comment(comments@, comment_id),
    {
        let mut k: usize = 0;
        while k < comments.len()
            invariant
                k <= comments@.len(),
                forall|j: int| 0 <= j < k ==> comments@[j].comment_id != comment_id,
            decreases comments@.len() - k,
        {
            if comments[k].comment_id == comment_id {
                proof {
                    assert(has_comment(comments@, comment_id));
                }
                return true;
            }
            k += 1;
        }
        false
    }

    /// Appends a comment to the given post under the caller's own identity.
    /// The post must exist (`NotFound` otherwise) and the body must be at
    /// least ten characters long (`ValidationError` otherwise). The comment
    /// receives the next value of the global comment counter, and both the
    /// counter and the total advance.
    pub fn comment(
        &mut self,
        caller: Identity,
        now: u64,
        post_id: u64,
        body: String,
    ) -> (r: Result<(), BlogError>)
        requires
            old(self).wf(),
            old(self).next_comment_id < u64::MAX,
            old(self).total_comments < u64::MAX,
        ensures
            final(self).wf(),
            r == Err::<(), BlogError>(BlogError::NotFound) <==> !has_post(
                old(self).posts@,
                post_id,
            ),
            r == Err::<(), BlogError>(BlogError::ValidationError) <==> has_post(
                old(self).posts@,
                post_id,
            ) && body@.len() < 10,
            r is Err ==> *final(self) == *old(self),
            r is Ok <==> has_post(old(self).posts@, post_id) && body@.len() >= 10,
            r is Ok ==> comment_appended(
                old(self).posts@[post_index(old(self).posts@, post_id)],
                final(self).posts@[post_index(old(self).posts@, post_id)],
                (Comment {
                    comment_id: old(self).next_comment_id,
                    body: body,
                    author: caller,
                    created_at: now,
                }),
            ) && final(self).posts@.len() == old(self).posts@.len() && (forall|i: int|
                0 <= i < old(self).posts@.len() && i != post_index(old(self).posts@, post_id)
                    ==> final(self).posts@[i] == old(self).posts@[i]) && final(self).next_comment_id == old(self).next_comment_id + 1 && final(self).total_comments
                == old(self).total_comments + 1 && same_owner_and_index(*old(self), *final(self))
                && same_post_counters(*old(self), *final(self)) && same_donation_counters(
                *old(self),
                *final(self),
            ),
            old(self).counts_consistent() ==> final(self).counts_consistent(),
    {
        let k = match Self::find_post_slot(&self.posts, post_id) {
            Some(k) => k,
            None => {
                return Err(BlogError::NotFound);
            },
        };
        proof {
            lemma_post_index_unique(self.posts@, post_id, k as int);
        }
        if body.as_str().unicode_len() < 10 {
            return Err(BlogError::ValidationError);
        }

        let c = Comment { comment_id: self.next_comment_id, body, author: caller, created_at: now };
        let ghost before = self.posts@;
        self.posts[k].comments.push(c);
        proof {
            lemma_sums_update(before, k as int, self.posts@[k as int]);
        }
        self.next_comment_id = self.next_comment_id + 1;
        self.total_comments = self.total_comments + 1;
        Ok(())
    }

    /// Deletes a comment from the given post. Only the owner may delete
    /// (`Unauthorized` otherwise); the post must exist and hold a comment
    /// with the matching ID (`NotFound` otherwise). The comment actually
    /// removed is the one at list offset `comment_id` — the ledger's
    /// position-as-identity indexing contract, correct exactly when IDs
    /// coincide with positions — and the comment total drops by one.
    pub fn delete_comment(
        &mut self,
        caller: &Identity,
        post_id: u64,
        comment_id: u64,
    ) -> (r: Result<(), BlogError>)
        requires
            old(self).wf(),
            caller@ == old(self).owner@ && has_post(old(self).posts@, post_id) && has_comment(
                old(self).posts@[post_index(old(self).posts@, post_id)].comments@,
                comment_id,
            ) ==> comment_id < old(self).posts@[post_index(
                old(self).posts@,
                post_id,
            )].comments@.len(),
        ensures
            final(self).wf(),
            r == Err::<(), BlogError>(BlogError::Unauthorized) <==> caller@ != old(self).owner@,
            caller@ == old(self).owner@ ==> (r == Err::<(), BlogError>(BlogError::NotFound) <==> !(
            has_post(old(self).posts@, post_id) && has_comment(
                old(self).posts@[post_index(old(self).posts@, post_id)].comments@,
                comment_id,
            ))),
            r is Err ==> *final(self) == *old(self),
            r is Ok <==> caller@ == old(self).owner@ && has_post(old(self).posts@, post_id)
                && has_comment(
                old(self).posts@[post_index(old(self).posts@, post_id)].comments@,
                comment_id,
            ),
            r is Ok ==> comment_removed(
                old(self).posts@[post_index(old(self).posts@, post_id)],
                final(self).posts@[post_index(old(self).posts@, post_id)],
                comment_id as int,
            ) && final(self).posts@.len() == old(self).posts@.len() && (forall|i: int|
                0 <= i < old(self).posts@.len() && i != post_index(old(self).posts@, post_id)
                    ==> final(self).posts@[i] == old(self).posts@[i]) && final(self).total_comments == old(self).total_comments - 1 && final(self).next_comment_id == old(self).next_comment_id && same_owner_and_index(*old(self), *final(self))
                && same_post_counters(*old(self), *final(self)) && same_donation_counters(
                *old(self),
                *final(self),
            ),
            old(self).counts_consistent() ==> final(self).counts_consistent(),
    {
        if !caller.same_as(&self.owner) {
            return Err(BlogError::Unauthorized);
        }
        let k = match Self::find_post_slot(&self.posts, post_id) {
            Some(k) => k,
            None => {
                return Err(BlogError::NotFound);
            },
        };
        proof {
            lemma_post_index_unique(self.posts@, post_id, k as int);
        }
        if !Self::find_comment(&self.posts[k].comments, comment_id) {
            return Err(BlogError::NotFound);
        }

        proof {
            lemma_sums_lower_bound(self.posts@, k as int);
            assert(comment_id < self.posts@[k as int].comments@.len());
        }
        let ghost before = self.posts@;
        let comment_count = self.posts[k].comments.len();
        proof {
            assert(comment_id < comment_count);
        }
        let idx = comment_id as usize;
        self.posts[k].comments.remove(idx);
        proof {
            lemma_sums_update(before, k as int, self.posts@[k as int]);
        }
        self.total_comments = self.total_comments - 1;
        Ok(())
    }
}

/// The audit record emitted when a post is created: a human-readable notice
/// naming the post's title, for the host's append-only audit sink.
pub fn post_created_audit(title: &str) -> (m: String)
    ensures
        m@ == "Post '"@ + title@ + "' was created"@,
{
    let mut m = String::from_str("Post '");
    m.append(title);
    m.append("' was created");
    proof {
        assert(m@ =~= "Post '"@ + title@ + "' was created"@);
    }
    m
}

/// How a post changes when a comment is appended: every field keeps its
/// value, except the comment list, which grows by exactly that comment.
pub open spec fn comment_appended(p0: Post, p1: Post, c: Comment) -> bool {
    &&& p1.post_id == p0.post_id
    &&& p1.title == p0.title
    &&& p1.body == p0.body
    &&& p1.author == p0.author
    &&& p1.created_at == p0.created_at
    &&& p1.upvotes == p0.upvotes
    &&& p1.downvotes == p0.downvotes
    &&& p1.donation_logs == p0.donation_logs
    &&& p1.comments@ == p0.comments@.push(c)
}

/// How a post changes when a comment is removed positionally: every field
/// keeps its value, except the comment list, which loses the element at the
/// given offset.
pub open spec fn comment_removed(p0: Post, p1: Post, at: int) -> bool {
    &&& p1.post_id == p0.post_id
    &&& p1.title == p0.title
    &&& p1.body == p0.body
    &&& p1.author == p0.author
    &&& p1.created_at == p0.created_at
    &&& p1.upvotes == p0.upvotes
    &&& p1.downvotes == p0.downvotes
    &&& p1.donation_logs == p0.donation_logs
    &&& p1.comments@ == p0.comments@.remove(at)
}

/// The post IDs the index lists for the given author. Meaningful only where
/// the author has an entry; empty otherwise.
pub open spec fn user_ids(b: Blog, who: Seq<char>) -> Seq<u64> {
    if has_user(b.user_posts@, who) {
        b.user_posts@[user_index(b.user_posts@, who)].post_ids@
    } else {
        Seq::empty()
    }
}

} // verus!
