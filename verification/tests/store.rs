use social_network::errors::Error;
use social_network::network::SocialNetworkContract;

const ALICE: u64 = 11;
const BOB: u64 = 22;

#[test]
fn end_to_end() {
    let mut store = SocialNetworkContract::new();
    assert_eq!(store.initialize(), Ok(()));

    let post = store.add_post(ALICE, "hi".to_string(), "".to_string(), 1000);
    assert_eq!(post.id, 1);
    assert_eq!(post.author, ALICE);
    assert_eq!(post.text, "hi");

    let comment = store
        .add_comment(BOB, 1, "nice".to_string(), 1001)
        .unwrap();
    assert_eq!(comment.id, 1);
    assert_eq!(comment.author, BOB);
    assert_eq!(comment.text, "nice");

    assert_eq!(store.set_or_remove_like(BOB, 1), Ok(1));
    assert_eq!(store.set_or_remove_like(BOB, 1), Ok(0));

    assert_eq!(store.follow_user(BOB, ALICE), Ok(1));
    assert!(store.get_follow_status(ALICE, BOB));
}

#[test]
fn initialize_only_once() {
    let mut store = SocialNetworkContract::new();
    assert_eq!(store.initialize(), Ok(()));
    assert_eq!(store.initialize(), Err(Error::AlreadyInitialized));
}

#[test]
fn self_follow_is_rejected_without_side_effects() {
    let mut store = SocialNetworkContract::new();
    store.initialize().unwrap();
    assert_eq!(store.follow_user(ALICE, ALICE), Err(Error::SelfFollowNotAllowed));
    assert_eq!(store.get_user_followers_count(ALICE), 0);
    assert!(!store.get_follow_status(ALICE, ALICE));
    assert_eq!(store.get_user_follower_by_nr(ALICE, 1), Err(Error::OutOfRange));
}

#[test]
fn toggle_like_twice_restores_flag_and_count() {
    let mut store = SocialNetworkContract::new();
    store.initialize().unwrap();
    store.add_post(ALICE, "post".to_string(), "".to_string(), 5);
    store.add_post(ALICE, "other".to_string(), "".to_string(), 6);
    assert_eq!(store.set_or_remove_like(BOB, 2), Ok(1));

    let likes_before = store.get_post_likes(1).unwrap();
    let status_before = store.get_like_status(1, BOB).unwrap();
    assert_eq!(store.set_or_remove_like(BOB, 1), Ok(1));
    assert_eq!(store.set_or_remove_like(BOB, 1), Ok(0));
    assert_eq!(store.get_post_likes(1).unwrap(), likes_before);
    assert_eq!(store.get_like_status(1, BOB).unwrap(), status_before);
    // The other post's like was untouched.
    assert_eq!(store.get_post_likes(2), Ok(1));
}

#[test]
fn following_twice_appends_a_duplicate_entry() {
    let mut store = SocialNetworkContract::new();
    store.initialize().unwrap();
    assert_eq!(store.follow_user(BOB, ALICE), Ok(1));
    // Idempotency is not enforced: the list records appends, and the count
    // follows the list even though the flag was already set.
    assert_eq!(store.follow_user(BOB, ALICE), Ok(2));
    assert_eq!(store.get_user_followers_count(ALICE), 2);
    assert_eq!(store.get_user_follower_by_nr(ALICE, 1), Ok(BOB));
    assert_eq!(store.get_user_follower_by_nr(ALICE, 2), Ok(BOB));
    assert_eq!(store.get_user_follower_by_nr(ALICE, 3), Err(Error::OutOfRange));
    assert!(store.get_follow_status(ALICE, BOB));
    assert!(!store.get_follow_status(BOB, ALICE));
}

#[test]
fn user_info_defaults_to_empty_and_roundtrips() {
    let mut store = SocialNetworkContract::new();
    store.initialize().unwrap();
    let blank = store.get_user_info(ALICE);
    assert_eq!(blank.name, "");
    assert_eq!(blank.bio, "");
    assert_eq!(blank.avatar_uri, "");

    let written = store.update_user_info(
        ALICE,
        "Alice".to_string(),
        "about alice".to_string(),
        "avatar-cid".to_string(),
    );
    assert_eq!(written.name, "Alice");
    let read = store.get_user_info(ALICE);
    assert_eq!(read, written);
    // Another user's profile is untouched.
    assert_eq!(store.get_user_info(BOB).name, "");
}

#[test]
fn posts_are_numbered_globally_and_per_user() {
    let mut store = SocialNetworkContract::new();
    store.initialize().unwrap();
    let first = store.add_post(ALICE, "one".to_string(), "cid-1".to_string(), 10);
    let second = store.add_post(BOB, "two".to_string(), "".to_string(), 11);
    let third = store.add_post(ALICE, "three".to_string(), "".to_string(), 12);
    assert_eq!((first.id, second.id, third.id), (1, 2, 3));

    assert_eq!(store.get_posts_count(), 3);
    let fetched = store.get_post(2).unwrap();
    assert_eq!(fetched, second);

    // The per-user index is independent of the global one: Alice's second
    // post is the third post globally.
    assert_eq!(store.get_user_post_count(ALICE), 2);
    assert_eq!(store.get_user_post_count(BOB), 1);
    let alice_second = store.get_post_of_user_by_nr(ALICE, 2).unwrap();
    assert_eq!(alice_second, third);
    assert_eq!(alice_second.create_time, 12);
}

#[test]
fn post_lookups_reject_out_of_range_indices() {
    let mut store = SocialNetworkContract::new();
    store.initialize().unwrap();
    assert_eq!(store.get_post(0), Err(Error::OutOfRange));
    assert_eq!(store.get_post(1), Err(Error::OutOfRange));
    store.add_post(ALICE, "only".to_string(), "".to_string(), 1);
    assert_eq!(store.get_post(0), Err(Error::OutOfRange));
    assert_eq!(store.get_post(2), Err(Error::OutOfRange));
    assert_eq!(store.get_post_of_user_by_nr(ALICE, 0), Err(Error::OutOfRange));
    assert_eq!(store.get_post_of_user_by_nr(ALICE, 2), Err(Error::OutOfRange));
    assert_eq!(store.get_post_of_user_by_nr(BOB, 1), Err(Error::OutOfRange));
}

#[test]
fn like_operations_validate_the_post_number() {
    let mut store = SocialNetworkContract::new();
    store.initialize().unwrap();
    assert_eq!(store.set_or_remove_like(BOB, 1), Err(Error::OutOfRange));
    store.add_post(ALICE, "p".to_string(), "".to_string(), 1);
    assert_eq!(store.set_or_remove_like(BOB, 0), Err(Error::OutOfRange));
    assert_eq!(store.set_or_remove_like(BOB, 2), Err(Error::OutOfRange));
    assert_eq!(store.get_post_likes(2), Err(Error::OutOfRange));
    assert_eq!(store.get_like_status(0, BOB), Err(Error::OutOfRange));
    assert_eq!(store.get_post_likes(1), Ok(0));
    assert_eq!(store.get_like_status(1, BOB), Ok(false));
}

#[test]
fn likes_aggregate_over_users() {
    let mut store = SocialNetworkContract::new();
    store.initialize().unwrap();
    store.add_post(ALICE, "p".to_string(), "".to_string(), 1);
    assert_eq!(store.set_or_remove_like(ALICE, 1), Ok(1));
    assert_eq!(store.set_or_remove_like(BOB, 1), Ok(2));
    assert_eq!(store.get_post_likes(1), Ok(2));
    assert_eq!(store.set_or_remove_like(ALICE, 1), Ok(1));
    assert_eq!(store.get_like_status(1, ALICE), Ok(false));
    assert_eq!(store.get_like_status(1, BOB), Ok(true));
}

#[test]
fn comments_are_numbered_per_post() {
    let mut store = SocialNetworkContract::new();
    store.initialize().unwrap();
    store.add_post(ALICE, "first".to_string(), "".to_string(), 1);
    store.add_post(BOB, "second".to_string(), "".to_string(), 2);

    let c1 = store.add_comment(BOB, 1, "a".to_string(), 3).unwrap();
    let c2 = store.add_comment(ALICE, 1, "b".to_string(), 4).unwrap();
    let other = store.add_comment(ALICE, 2, "c".to_string(), 5).unwrap();
    // Comment ids are scoped to the post, not globally unique.
    assert_eq!((c1.id, c2.id, other.id), (1, 2, 1));

    assert_eq!(store.get_post_comments_count(1), Ok(2));
    assert_eq!(store.get_post_comments_count(2), Ok(1));
    assert_eq!(store.get_post_comment_by_nr(1, 2).unwrap(), c2);
    assert_eq!(store.get_post_comment_by_nr(2, 1).unwrap(), other);
}

#[test]
fn comment_operations_validate_their_indices() {
    let mut store = SocialNetworkContract::new();
    store.initialize().unwrap();
    assert_eq!(
        store.add_comment(BOB, 1, "early".to_string(), 1),
        Err(Error::OutOfRange)
    );
    store.add_post(ALICE, "p".to_string(), "".to_string(), 1);
    assert_eq!(
        store.add_comment(BOB, 0, "zero".to_string(), 2),
        Err(Error::OutOfRange)
    );
    store.add_comment(BOB, 1, "ok".to_string(), 3).unwrap();
    assert_eq!(store.get_post_comments_count(0), Err(Error::OutOfRange));
    assert_eq!(store.get_post_comment_by_nr(2, 1), Err(Error::OutOfRange));
    assert_eq!(store.get_post_comment_by_nr(1, 0), Err(Error::OutOfRange));
    assert_eq!(store.get_post_comment_by_nr(1, 2), Err(Error::OutOfRange));
    assert!(store.get_post_comment_by_nr(1, 1).is_ok());
}
