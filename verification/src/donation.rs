//! The settlement coordinator: the donate operation as "transfer value,
//! then record proof of transfer".
//!
//! A donation's visible effect spans two atomic steps. `donate` validates
//! the request and hands back a pending settlement; the host then performs
//! the irrevocable value transfer and, once its outcome is known, hands the
//! outcome to `save_to_donation_log`, which either appends the durable
//! donation record or surfaces the failure with no state change. Between
//! the two steps any other operation — including deletion of the very post
//! — may run.

use vstd::prelude::*;

use crate::blog::{same_comment_counters, same_owner_and_index, same_post_counters, Blog};
use crate::counts::{
    has_post, lemma_post_index_unique, lemma_sums_update, post_index,
};
use crate::errors::BlogError;
use crate::identity::Identity;
use crate::post::{DonationLog, Post};

verus! {

/// A donation whose transfer leg is in flight: everything the ledger must
/// remember to record the donation once the transfer completes.
#[derive(Debug)]
pub struct PendingDonation {
    /// The post the donation is aimed at.
    pub post_id: u64,
    /// The value being transferred to the post's author.
    pub amount: u128,
    /// The caller the donation is recorded under.
    pub donor: Identity,
    /// The recipient of the transfer: the post's author.
    pub recipient: Identity,
    /// The message to record beside the amount.
    pub message: String,
}

/// How a post changes when a donation record is appended: every field keeps
/// its value, except the donation log, which grows by exactly that record.
pub open spec fn donation_appended(p0: Post, p1: Post, d: DonationLog) -> bool {
    &&& p1.post_id == p0.post_id
    &&& p1.title == p0.title
    &&& p1.body == p0.body
    &&& p1.author == p0.author
    &&& p1.created_at == p0.created_at
    &&& p1.upvotes == p0.upvotes
    &&& p1.downvotes == p0.downvotes
    &&& p1.comments == p0.comments
    &&& p1.donation_logs@ == p0.donation_logs@.push(d)
}

impl Blog {
    /// Validates a donation and opens its settlement. The post must exist
    /// (`NotFound` otherwise), the amount must be at least one
    /// (`ValidationError` otherwise), and the value the caller attached
    /// must cover the amount (`InsufficientFunds` otherwise). Nothing in
    /// the ledger changes yet: the returned pending settlement names the
    /// post's author as transfer recipient, and the ledger records the
    /// donation only when the host reports the transfer's outcome.
    pub fn donate(
        &self,
        caller: Identity,
        post_id: u64,
        amount: u128,
        attached_value: u128,
        message: String,
    ) -> (r: Result<PendingDonation, BlogError>)
        requires
            self.wf(),
        ensures
            match r {
                Ok(p) => {
                    &&& has_post(self.posts@, post_id)
                    &&& amount >= 1
                    &&& attached_value >= amount
                    &&& p.post_id == post_id
                    &&& p.amount == amount
                    &&& p.donor == caller
                    &&& p.recipient@ == self.posts@[post_index(self.posts@, post_id)].author@
                    &&& p.message == message
                },
                Err(e) => {
                    &&& e == BlogError::NotFound <==> !has_post(self.posts@, post_id)
                    &&& e == BlogError::ValidationError <==> has_post(self.posts@, post_id)
                        && amount < 1
                    &&& e == BlogError::InsufficientFunds <==> has_post(self.posts@, post_id)
                        && amount >= 1 && attached_value < amount
                },
            },
            r is Ok <==> has_post(self.posts@, post_id) && amount >= 1 && attached_value
                >= amount,
    {
        let k = match Self::find_post_slot(&self.posts, post_id) {
            Some(k) => k,
            None => {
                return Err(BlogError::NotFound);
            },
        };
        proof {
            lemma_post_index_unique(self.posts@, post_id, k as int);
        }
        if amount < 1 {
            return Err(BlogError::ValidationError);
        }
        if attached_value < amount {
            return Err(BlogError::InsufficientFunds);
        }
        let recipient = self.posts[k].author.clone();
        Ok(PendingDonation { post_id, amount, donor: caller, recipient, message })
    }

    /// Closes a settlement with the transfer's outcome. A failed transfer
    /// surfaces as `TransferFailed` and appends nothing. A successful one
    /// appends the donation record — the exact amount, donor and message of
    /// the pending settlement, stamped with the next value of the global
    /// donation counter — to the post, advancing both the counter and the
    /// total. If the post was deleted while the transfer was in flight, the
    /// record has nowhere to go and the settlement fails with `NotFound`,
    /// again with no state change.
    pub fn save_to_donation_log(
        &mut self,
        pending: PendingDonation,
        transfer_ok: bool,
        now: u64,
    ) -> (r: Result<(), BlogError>)
        requires
            old(self).wf(),
            old(self).next_donation_id < u64::MAX,
            old(self).total_donations < u64::MAX,
        ensures
            final(self).wf(),
            r == Err::<(), BlogError>(BlogError::TransferFailed) <==> !transfer_ok,
            transfer_ok ==> (r == Err::<(), BlogError>(BlogError::NotFound) <==> !has_post(
                old(self).posts@,
                pending.post_id,
            )),
            r is Err ==> *final(self) == *old(self),
            r is Ok <==> transfer_ok && has_post(old(self).posts@, pending.post_id),
            r is Ok ==> donation_appended(
                old(self).posts@[post_index(old(self).posts@, pending.post_id)],
                final(self).posts@[post_index(old(self).posts@, pending.post_id)],
                (DonationLog {
                    donation_id: old(self).next_donation_id,
                    amount: pending.amount,
                    donor: pending.donor,
                    created_at: now,
                    message: pending.message,
                }),
            ) && final(self).posts@.len() == old(self).posts@.len() && (forall|i: int|
                0 <= i < old(self).posts@.len() && i != post_index(
                    old(self).posts@,
                    pending.post_id,
                ) ==> final(self).posts@[i] == old(self).posts@[i]) && final(self).next_donation_id
                == old(self).next_donation_id + 1 && final(self).total_donations == old(self).total_donations
                + 1 && same_owner_and_index(*old(self), *final(self)) && same_post_counters(
                *old(self),
                *final(self),
            ) && same_comment_counters(*old(self), *final(self)),
            old(self).counts_consistent() ==> final(self).counts_consistent(),
    {
        if !transfer_ok {
            return Err(BlogError::TransferFailed);
        }
        let k = match Self::find_post_slot(&self.posts, pending.post_id) {
            Some(k) => k,
            None => {
                return Err(BlogError::NotFound);
            },
        };
        proof {
            lemma_post_index_unique(self.posts@, pending.post_id, k as int);
        }

        let d = DonationLog {
            donation_id: self.next_donation_id,
            amount: pending.amount,
            donor: pending.donor,
            created_at: now,
            message: pending.message,
        };
        let ghost before = self.posts@;
        self.posts[k].donation_logs.push(d);
        proof {
            lemma_sums_update(before, k as int, self.posts@[k as int]);
        }
        self.next_donation_id = self.next_donation_id + 1;
        self.total_donations = self.total_donations + 1;
        Ok(())
    }
}

} // verus!
