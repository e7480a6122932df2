//! The entities of the ledger: posts, the comments nested in them, and the
//! donation records appended when a settlement's transfer leg succeeds.

use vstd::prelude::*;

use crate::identity::Identity;

verus! {

/// A comment nested inside exactly one post.
#[derive(Debug)]
pub struct Comment {
    pub comment_id: u64,
    pub body: String,
    pub author: Identity,
    pub created_at: u64,
}

/// A durable record of one completed donation: proof that value moved.
#[derive(Debug)]
pub struct DonationLog {
    pub donation_id: u64,
    pub amount: u128,
    pub donor: Identity,
    pub created_at: u64,
    pub message: String,
}

/// A post, owned exclusively by the ledger. Its `post_id` is immutable once
/// assigned and never reused.
#[derive(Debug)]
pub struct Post {
    pub post_id: u64,
    pub title: String,
    pub body: String,
    pub author: Identity,
    pub created_at: u64,
    pub comments: Vec<Comment>,
    pub upvotes: Vec<Identity>,
    pub downvotes: Vec<Identity>,
    pub donation_logs: Vec<DonationLog>,
}

impl Clone for Comment {
    fn clone(&self) -> (r: Self)
        ensures
            r == *self,
    {
        Comment {
            comment_id: self.comment_id,
            body: self.body.clone(),
            author: self.author.clone(),
            created_at: self.created_at,
        }
    }
}

impl Clone for DonationLog {
    fn clone(&self) -> (r: Self)
        ensures
            r == *self,
    {
        DonationLog {
            donation_id: self.donation_id,
            amount: self.amount,
            donor: self.donor.clone(),
            created_at: self.created_at,
            message: self.message.clone(),
        }
    }
}

/// Whether two posts agree on everything observable: every scalar field,
/// and the contents of every nested collection.
pub open spec fn post_eq(a: Post, b: Post) -> bool {
    &&& a.post_id == b.post_id
    &&& a.title == b.title
    &&& a.body == b.body
    &&& a.author == b.author
    &&& a.created_at == b.created_at
    &&& a.comments@ == b.comments@
    &&& a.upvotes@ == b.upvotes@
    &&& a.downvotes@ == b.downvotes@
    &&& a.donation_logs@ == b.donation_logs@
}

impl Clone for Post {
    fn clone(&self) -> (r: Self)
        ensures
            post_eq(r, *self),
    {
        let r = Post {
            post_id: self.post_id,
            title: self.title.clone(),
            body: self.body.clone(),
            author: self.author.clone(),
            created_at: self.created_at,
            comments: self.comments.clone(),
            upvotes: self.upvotes.clone(),
            downvotes: self.downvotes.clone(),
            donation_logs: self.donation_logs.clone(),
        };
        proof {
            assert forall|i: int| 0 <= i < self.comments@.len() implies r.comments@[i]
                == self.comments@[i] by {
                assert(cloned::<Comment>(self.comments@[i], r.comments@[i]));
            }
            assert forall|i: int| 0 <= i < self.upvotes@.len() implies r.upvotes@[i]
                == self.upvotes@[i] by {
                assert(cloned::<Identity>(self.upvotes@[i], r.upvotes@[i]));
            }
            assert forall|i: int| 0 <= i < self.downvotes@.len() implies r.downvotes@[i]
                == self.downvotes@[i] by {
                assert(cloned::<Identity>(self.downvotes@[i], r.downvotes@[i]));
            }
            assert forall|i: int| 0 <= i < self.donation_logs@.len() implies r.donation_logs@[i]
                == self.donation_logs@[i] by {
                assert(cloned::<DonationLog>(self.donation_logs@[i], r.donation_logs@[i]));
            }
            assert(r.comments@ =~= self.comments@);
            assert(r.upvotes@ =~= self.upvotes@);
            assert(r.downvotes@ =~= self.downvotes@);
            assert(r.donation_logs@ =~= self.donation_logs@);
        }
        r
    }
}

} // verus!
