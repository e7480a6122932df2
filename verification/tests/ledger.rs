use decentrablog::blog::{post_created_audit, Blog};
use decentrablog::errors::BlogError;
use decentrablog::identity::Identity;

fn ident(name: &str) -> Identity {
    Identity::new(name.to_string())
}

fn fresh_blog() -> Blog {
    Blog::new(ident("npmrunstart_testnet"))
}

#[test]
fn create_post() {
    let mut contract = fresh_blog();
    contract.create_post(
        ident("npmrunstart_testnet"),
        0,
        "This is the title".to_string(),
        "Lets go Brandon!".to_string(),
    );

    assert_eq!(
        "This is the title".to_string(),
        contract.get_post(0).unwrap().title.clone()
    );
    assert_eq!(
        "Lets go Brandon!".to_string(),
        contract.get_post(0).unwrap().body.clone()
    );
    assert_eq!(1, contract.get_total_posts());
    assert_eq!(0, contract.get_post(0).unwrap().post_id);
}

#[test]
fn delete_a_post_then_add_two_posts() {
    let mut contract = fresh_blog();
    contract.create_post(
        ident("npmrunstart_testnet"),
        0,
        "This is the title".to_string(),
        "Lets go Brandon!".to_string(),
    );
    contract
        .delete_post(&ident("npmrunstart_testnet"), 1)
        .unwrap();

    assert_eq!(0, contract.get_total_posts());

    // add a post
    contract.create_post(
        ident("npmrunstart_testnet"),
        0,
        "This is the title".to_string(),
        "Lets go Brandon!".to_string(),
    );
    contract.create_post(
        ident("npmrunstart_testnet"),
        0,
        "This is the title".to_string(),
        "Lets go Brandon!".to_string(),
    );
    assert_eq!(2, contract.get_total_posts());

    // next post id
    assert_eq!(3, contract.get_next_post_id());
}

#[test]
fn return_owner_account_id() {
    let contract = fresh_blog();
    assert_eq!(
        "npmrunstart_testnet".to_string(),
        contract.get_owner().into_string()
    );
}

#[test]
fn post_ids_strictly_increase_across_deletions() {
    let mut b = fresh_blog();
    let id0 = b.create_post(ident("alice"), 1, "a".to_string(), "b".to_string());
    let id1 = b.create_post(ident("bob"), 2, "c".to_string(), "d".to_string());
    b.delete_post(&ident("npmrunstart_testnet"), id0).unwrap();
    let id2 = b.create_post(ident("alice"), 3, "e".to_string(), "f".to_string());
    assert!(id0 < id1 && id1 < id2);
    assert_eq!(vec![0, 1, 2], vec![id0, id1, id2]);
    // the deleted ID is gone for good
    assert_eq!(Err(BlogError::NotFound), b.get_post(id0).map(|p| p.post_id));
    assert_eq!(3, b.get_next_post_id());
}

#[test]
fn remaining_post_keeps_its_id_after_delete() {
    let mut b = fresh_blog();
    let id0 = b.create_post(ident("alice"), 1, "t0".to_string(), "b0".to_string());
    let id1 = b.create_post(ident("alice"), 2, "t1".to_string(), "b1".to_string());
    b.delete_post(&ident("npmrunstart_testnet"), id0).unwrap();
    assert_eq!(1, b.get_total_posts());
    assert_eq!(1, b.get_post(id1).unwrap().post_id);
    assert!(matches!(b.get_post(id0), Err(BlogError::NotFound)));
}

#[test]
fn counters_match_live_entities() {
    let mut b = fresh_blog();
    let p0 = b.create_post(ident("alice"), 1, "t0".to_string(), "b0".to_string());
    let p1 = b.create_post(ident("bob"), 2, "t1".to_string(), "b1".to_string());
    b.comment(ident("carol"), 3, p0, "0123456789".to_string()).unwrap();
    b.comment(ident("carol"), 4, p1, "abcdefghij".to_string()).unwrap();
    let pending = b
        .donate(ident("dave"), p0, 5, 5, "gg".to_string())
        .unwrap();
    b.save_to_donation_log(pending, true, 5).unwrap();

    let live_posts = b.posts.len() as u64;
    let live_comments: u64 = b.posts.iter().map(|p| p.comments.len() as u64).sum();
    let live_donations: u64 = b.posts.iter().map(|p| p.donation_logs.len() as u64).sum();
    assert_eq!(b.get_total_posts(), live_posts);
    assert_eq!(b.total_comments, live_comments);
    assert_eq!(b.total_donations, live_donations);
}

#[test]
fn only_the_owner_deletes() {
    let mut b = fresh_blog();
    let p0 = b.create_post(ident("alice"), 1, "t".to_string(), "b".to_string());
    b.comment(ident("bob"), 2, p0, "0123456789".to_string()).unwrap();

    assert_eq!(Err(BlogError::Unauthorized), b.delete_post(&ident("alice"), p0));
    assert_eq!(
        Err(BlogError::Unauthorized),
        b.delete_comment(&ident("bob"), p0, 0)
    );
    assert_eq!(1, b.get_total_posts());

    // the owner succeeds on the same targets
    assert_eq!(Ok(()), b.delete_comment(&ident("npmrunstart_testnet"), p0, 0));
    assert_eq!(Ok(()), b.delete_post(&ident("npmrunstart_testnet"), p0));
    assert_eq!(0, b.get_total_posts());
}

#[test]
fn comment_body_must_have_ten_characters() {
    let mut b = fresh_blog();
    let p0 = b.create_post(ident("alice"), 1, "t".to_string(), "b".to_string());
    assert_eq!(
        Err(BlogError::ValidationError),
        b.comment(ident("bob"), 2, p0, "123456789".to_string())
    );
    assert_eq!(Ok(()), b.comment(ident("bob"), 2, p0, "1234567890".to_string()));
}

#[test]
fn short_comment_rejected_then_accepted() {
    let mut b = fresh_blog();
    let p0 = b.create_post(ident("alice"), 1, "t".to_string(), "b".to_string());
    assert_eq!(
        Err(BlogError::ValidationError),
        b.comment(ident("bob"), 2, p0, "short".to_string())
    );
    assert_eq!(Ok(()), b.comment(ident("bob"), 3, p0, "ten chars!".to_string()));
    assert_eq!(1, b.get_post(p0).unwrap().comments.len());
    assert_eq!(1, b.total_comments);
    let c = &b.get_post(p0).unwrap().comments[0];
    assert_eq!("ten chars!", c.body.as_str());
    assert_eq!("bob", c.author.as_str());
    assert_eq!(0, c.comment_id);
}

#[test]
fn comment_on_missing_post_is_not_found() {
    let mut b = fresh_blog();
    assert_eq!(
        Err(BlogError::NotFound),
        b.comment(ident("bob"), 1, 9, "0123456789".to_string())
    );
}

#[test]
fn delete_comment_requires_live_target() {
    let mut b = fresh_blog();
    let p0 = b.create_post(ident("alice"), 1, "t".to_string(), "b".to_string());
    let owner = ident("npmrunstart_testnet");
    assert_eq!(Err(BlogError::NotFound), b.delete_comment(&owner, 7, 0));
    assert_eq!(Err(BlogError::NotFound), b.delete_comment(&owner, p0, 0));
    b.comment(ident("bob"), 2, p0, "0123456789".to_string()).unwrap();
    assert_eq!(Ok(()), b.delete_comment(&owner, p0, 0));
    assert_eq!(0, b.get_post(p0).unwrap().comments.len());
    assert_eq!(0, b.total_comments);
}

#[test]
fn successful_donation_appends_one_record() {
    let mut b = fresh_blog();
    let p0 = b.create_post(ident("alice"), 1, "t".to_string(), "b".to_string());
    let pending = b
        .donate(ident("dave"), p0, 5, 5, "gg".to_string())
        .unwrap();
    assert_eq!("alice", pending.recipient.as_str());
    assert_eq!(Ok(()), b.save_to_donation_log(pending, true, 9));

    let logs = &b.get_post(p0).unwrap().donation_logs;
    assert_eq!(1, logs.len());
    assert_eq!(5, logs[0].amount);
    assert_eq!("gg", logs[0].message.as_str());
    assert_eq!("dave", logs[0].donor.as_str());
    assert_eq!(1, b.total_donations);
}

#[test]
fn failed_transfer_appends_nothing() {
    let mut b = fresh_blog();
    let p0 = b.create_post(ident("alice"), 1, "t".to_string(), "b".to_string());
    let pending = b
        .donate(ident("dave"), p0, 5, 9, "gg".to_string())
        .unwrap();
    assert_eq!(
        Err(BlogError::TransferFailed),
        b.save_to_donation_log(pending, false, 9)
    );
    assert_eq!(0, b.get_post(p0).unwrap().donation_logs.len());
    assert_eq!(0, b.total_donations);
}

#[test]
fn donation_validation_and_funding() {
    let mut b = fresh_blog();
    let p0 = b.create_post(ident("alice"), 1, "t".to_string(), "b".to_string());
    assert_eq!(
        BlogError::NotFound,
        b.donate(ident("dave"), 42, 5, 5, "gg".to_string()).unwrap_err()
    );
    assert_eq!(
        BlogError::ValidationError,
        b.donate(ident("dave"), p0, 0, 5, "gg".to_string()).unwrap_err()
    );
    assert_eq!(
        BlogError::InsufficientFunds,
        b.donate(ident("dave"), p0, 5, 4, "gg".to_string()).unwrap_err()
    );
}

#[test]
fn settlement_after_post_deletion_is_not_found() {
    let mut b = fresh_blog();
    let p0 = b.create_post(ident("alice"), 1, "t".to_string(), "b".to_string());
    let pending = b
        .donate(ident("dave"), p0, 5, 5, "gg".to_string())
        .unwrap();
    b.delete_post(&ident("npmrunstart_testnet"), p0).unwrap();
    assert_eq!(
        Err(BlogError::NotFound),
        b.save_to_donation_log(pending, true, 9)
    );
    assert_eq!(0, b.total_donations);
}

#[test]
fn delete_on_empty_ledger_underflows() {
    let mut b = fresh_blog();
    assert_eq!(
        Err(BlogError::Underflow),
        b.delete_post(&ident("npmrunstart_testnet"), 0)
    );
}

#[test]
fn get_post_on_empty_ledger_is_not_found() {
    let b = fresh_blog();
    assert!(matches!(b.get_post(0), Err(BlogError::NotFound)));
}

#[test]
fn get_posts_resolves_the_caller_index() {
    let mut b = fresh_blog();
    assert!(matches!(b.get_posts(&ident("alice")), Err(BlogError::NotFound)));

    b.create_post(ident("alice"), 1, "t0".to_string(), "b0".to_string());
    b.create_post(ident("bob"), 2, "t1".to_string(), "b1".to_string());
    b.create_post(ident("alice"), 3, "t2".to_string(), "b2".to_string());

    let mine = b.get_posts(&ident("alice")).unwrap();
    assert_eq!(2, mine.len());
    assert_eq!("t0", mine[0].title.as_str());
    assert_eq!("t2", mine[1].title.as_str());

    // a deleted post leaves a stale index entry behind
    b.delete_post(&ident("npmrunstart_testnet"), 0).unwrap();
    assert!(matches!(b.get_posts(&ident("alice")), Err(BlogError::NotFound)));
    // the other author's index is untouched
    assert_eq!(1, b.get_posts(&ident("bob")).unwrap().len());
}

#[test]
fn audit_notice_names_the_title() {
    assert_eq!(
        "Post 'This is the title' was created",
        post_created_audit("This is the title").as_str()
    );
}

#[test]
fn identities_compare_by_account_name() {
    let a = ident("alice");
    let b = ident("alice");
    let c = ident("bob");
    assert!(a.same_as(&b));
    assert!(!a.same_as(&c));
    assert_eq!(a, b.clone());
    assert_ne!(a, c);
}
