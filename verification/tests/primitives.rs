use social_network::errors::Error;
use social_network::membership::MembershipMap;
use social_network::relation::IndexedRelation;

#[test]
fn count_starts_at_zero_for_every_owner() {
    let rel: IndexedRelation<u64> = IndexedRelation::new();
    assert_eq!(rel.count(0), 0);
    assert_eq!(rel.count(5), 0);
    assert_eq!(rel.count(u64::MAX), 0);
}

#[test]
fn append_assigns_successive_indices() {
    let mut rel: IndexedRelation<u64> = IndexedRelation::new();
    assert_eq!(rel.append(7, 100), 1);
    assert_eq!(rel.append(7, 200), 2);
    assert_eq!(rel.append(7, 300), 3);
    assert_eq!(rel.count(7), 3);
}

#[test]
fn get_returns_each_appended_record_unchanged() {
    let mut rel: IndexedRelation<u64> = IndexedRelation::new();
    rel.append(7, 10);
    rel.append(7, 20);
    rel.append(7, 30);
    assert_eq!(rel.get(7, 1), Ok(&10));
    assert_eq!(rel.get(7, 2), Ok(&20));
    assert_eq!(rel.get(7, 3), Ok(&30));
    // Later appends leave earlier slots untouched.
    rel.append(7, 40);
    assert_eq!(rel.get(7, 1), Ok(&10));
    assert_eq!(rel.get(7, 3), Ok(&30));
}

#[test]
fn get_rejects_zero_and_count_plus_one() {
    let mut rel: IndexedRelation<u64> = IndexedRelation::new();
    // An owner with count == 0: both 0 and count + 1 == 1 are out of range.
    assert_eq!(rel.get(9, 0), Err(Error::OutOfRange));
    assert_eq!(rel.get(9, 1), Err(Error::OutOfRange));
    rel.append(9, 11);
    rel.append(9, 22);
    assert_eq!(rel.get(9, 0), Err(Error::OutOfRange));
    assert_eq!(rel.get(9, 3), Err(Error::OutOfRange));
    assert!(rel.get(9, 1).is_ok());
    assert!(rel.get(9, 2).is_ok());
}

#[test]
fn owners_keep_independent_sequences() {
    let mut rel: IndexedRelation<u64> = IndexedRelation::new();
    rel.append(1, 10);
    rel.append(2, 20);
    rel.append(1, 30);
    assert_eq!(rel.count(1), 2);
    assert_eq!(rel.count(2), 1);
    assert_eq!(rel.count(3), 0);
    assert_eq!(rel.get(1, 2), Ok(&30));
    assert_eq!(rel.get(2, 1), Ok(&20));
    assert_eq!(rel.get(2, 2), Err(Error::OutOfRange));
}

#[test]
fn membership_defaults_to_false() {
    let flags = MembershipMap::new();
    assert!(!flags.membership(1, 2));
    assert_eq!(flags.size(1), 0);
}

#[test]
fn set_membership_overwrites_and_counts_changes_only() {
    let mut flags = MembershipMap::new();
    flags.set_membership(1, 2, true);
    assert!(flags.membership(1, 2));
    assert_eq!(flags.size(1), 1);
    // Setting an already-set flag changes nothing.
    flags.set_membership(1, 2, true);
    assert_eq!(flags.size(1), 1);
    flags.set_membership(1, 2, false);
    assert!(!flags.membership(1, 2));
    assert_eq!(flags.size(1), 0);
    // Clearing an already-clear flag changes nothing.
    flags.set_membership(1, 2, false);
    assert_eq!(flags.size(1), 0);
}

#[test]
fn membership_pairs_are_independent() {
    let mut flags = MembershipMap::new();
    flags.set_membership(1, 2, true);
    flags.set_membership(1, 3, true);
    flags.set_membership(4, 2, true);
    assert_eq!(flags.size(1), 2);
    assert_eq!(flags.size(4), 1);
    flags.set_membership(1, 2, false);
    assert!(!flags.membership(1, 2));
    assert!(flags.membership(1, 3));
    assert!(flags.membership(4, 2));
    assert_eq!(flags.size(1), 1);
}
