use membership_registry::{Error, Event, Pallet, MAX_MEMBERS};

#[test]
fn new_registry_is_empty() {
    let p = Pallet::new();
    assert!(p.get_members().is_empty());
}

#[test]
fn end_to_end_scenario() {
    assert_eq!(MAX_MEMBERS, 2);
    let a = Some(100u64);
    let mut p = Pallet::new();
    assert_eq!(p.add_member(a, 1, 10), Ok(Event::NewMemberAdded(10, 1)));
    assert_eq!(p.get_members(), vec![1]);
    assert_eq!(p.add_member(a, 2, 11), Ok(Event::NewMemberAdded(11, 2)));
    assert_eq!(p.get_members(), vec![1, 2]);
    assert_eq!(p.add_member(a, 3, 12), Err(Error::MembersLimitExceeded));
    assert_eq!(p.get_members(), vec![1, 2]);
    assert_eq!(p.remove_member(a, 1, 13), Ok(Event::MemberRemoved(13, 1)));
    assert_eq!(p.get_members(), vec![2]);
    assert_eq!(p.remove_member(a, 9, 14), Err(Error::MemberNotFound));
    assert_eq!(p.get_members(), vec![2]);
}

#[test]
fn adds_never_exceed_capacity() {
    let mut p = Pallet::new();
    for id in 0..(MAX_MEMBERS as u64) {
        assert!(p.add_member(Some(1), id, 1).is_ok());
    }
    let full = p.get_members();
    assert_eq!(full.len(), MAX_MEMBERS as usize);
    for id in 50..60u64 {
        assert_eq!(p.add_member(Some(1), id, 2), Err(Error::MembersLimitExceeded));
        assert_eq!(p.get_members(), full);
    }
}

#[test]
fn removing_absent_identity_fails() {
    let mut p = Pallet::new();
    assert_eq!(p.remove_member(Some(1), 5, 1), Err(Error::MemberNotFound));
    assert!(p.get_members().is_empty());
    p.add_member(Some(1), 4, 1).unwrap();
    assert_eq!(p.remove_member(Some(1), 5, 2), Err(Error::MemberNotFound));
    assert_eq!(p.get_members(), vec![4]);
}

#[test]
fn unauthorized_caller_changes_nothing() {
    let mut p = Pallet::new();
    assert_eq!(p.add_member(None, 3, 1), Err(Error::NotAuthorized));
    assert!(p.get_members().is_empty());
    p.add_member(Some(8), 3, 2).unwrap();
    assert_eq!(p.remove_member(None, 3, 3), Err(Error::NotAuthorized));
    assert_eq!(p.add_member(None, 4, 3), Err(Error::NotAuthorized));
    assert_eq!(p.get_members(), vec![3]);
}

#[test]
fn unauthorized_check_comes_before_capacity() {
    let mut p = Pallet::new();
    p.add_member(Some(1), 1, 1).unwrap();
    p.add_member(Some(1), 2, 1).unwrap();
    assert_eq!(p.add_member(None, 3, 2), Err(Error::NotAuthorized));
    assert_eq!(p.remove_member(None, 9, 2), Err(Error::NotAuthorized));
}

#[test]
fn removal_keeps_order_of_the_rest() {
    let mut p = Pallet::new();
    p.add_member(Some(1), 21, 1).unwrap();
    p.add_member(Some(1), 22, 1).unwrap();
    assert_eq!(p.remove_member(Some(1), 22, 2), Ok(Event::MemberRemoved(2, 22)));
    assert_eq!(p.get_members(), vec![21]);
    p.add_member(Some(1), 23, 3).unwrap();
    assert_eq!(p.get_members(), vec![21, 23]);
    p.remove_member(Some(1), 21, 4).unwrap();
    assert_eq!(p.get_members(), vec![23]);
}

#[test]
fn duplicates_are_permitted() {
    let mut p = Pallet::new();
    assert_eq!(p.add_member(Some(1), 7, 1), Ok(Event::NewMemberAdded(1, 7)));
    assert_eq!(p.add_member(Some(1), 7, 2), Ok(Event::NewMemberAdded(2, 7)));
    assert_eq!(p.get_members(), vec![7, 7]);
    assert_eq!(p.remove_member(Some(1), 7, 3), Ok(Event::MemberRemoved(3, 7)));
    assert_eq!(p.get_members(), vec![7]);
    assert_eq!(p.remove_member(Some(1), 7, 4), Ok(Event::MemberRemoved(4, 7)));
    assert!(p.get_members().is_empty());
    assert_eq!(p.remove_member(Some(1), 7, 5), Err(Error::MemberNotFound));
}

#[test]
fn removing_first_occurrence_only() {
    let mut p = Pallet::new();
    p.add_member(Some(1), 5, 1).unwrap();
    p.add_member(Some(1), 6, 1).unwrap();
    p.remove_member(Some(1), 5, 2).unwrap();
    p.add_member(Some(1), 5, 3).unwrap();
    assert_eq!(p.get_members(), vec![6, 5]);
    p.remove_member(Some(1), 5, 4).unwrap();
    assert_eq!(p.get_members(), vec![6]);
}

#[test]
fn events_carry_block_and_identity() {
    let mut p = Pallet::new();
    assert_eq!(p.add_member(Some(2), u64::MAX, u64::MAX), Ok(Event::NewMemberAdded(u64::MAX, u64::MAX)));
    assert_eq!(p.remove_member(Some(3), u64::MAX, 0), Ok(Event::MemberRemoved(0, u64::MAX)));
}
