use secse24_group08::friends::reconcile_friends;
use secse24_group08::models::{User, UserToUserFriend};
use secse24_group08::relation::{canonical_pair, request_record, resolve_sides, RelationError};

fn user(id: i32, first: &str) -> User {
    User { id, first_name: first.to_string(), last_name: "Doe".to_string() }
}

fn rel(one: i32, two: i32, a: bool, b: bool) -> UserToUserFriend {
    UserToUserFriend { user_one_id: one, user_two_id: two, accepted_user_one: a, accepted_user_two: b }
}

#[test]
fn canonical_pair_is_symmetric() {
    assert_eq!(canonical_pair(3, 7), Ok((3, 7)));
    assert_eq!(canonical_pair(7, 3), Ok((3, 7)));
    assert_eq!(canonical_pair(-5, 2), canonical_pair(2, -5));
}

#[test]
fn canonical_pair_rejects_self() {
    assert_eq!(canonical_pair(4, 4), Err(RelationError::InvalidRelation));
}

#[test]
fn request_record_marks_requester_side() {
    assert_eq!(request_record(5, 2), Ok(rel(2, 5, false, true)));
    assert_eq!(request_record(2, 5), Ok(rel(2, 5, true, false)));
    assert_eq!(request_record(2, 2), Err(RelationError::InvalidRelation));
}

#[test]
fn resolve_sides_depends_on_position() {
    let r = rel(1, 2, true, false);
    assert_eq!(resolve_sides(&r, 1), Some((2, true, false)));
    assert_eq!(resolve_sides(&r, 2), Some((1, false, true)));
    assert_eq!(resolve_sides(&r, 3), None);
}

#[test]
fn reconcile_partitions_users() {
    let users = vec![user(1, "A"), user(2, "B"), user(3, "C"), user(4, "D"), user(5, "E")];
    let rels = vec![rel(1, 2, true, true), rel(1, 3, true, false), rel(1, 4, false, true), rel(4, 5, true, true)];
    let v = reconcile_friends(1, &users, &rels).unwrap();
    assert_eq!(v.friends, vec![user(2, "B")]);
    assert_eq!(v.outgoing, vec![user(3, "C")]);
    assert_eq!(v.incoming, vec![user(4, "D")]);
    assert_eq!(v.unrelated, vec![user(5, "E")]);
}

#[test]
fn reconcile_as_higher_side() {
    let users = vec![user(1, "A"), user(2, "B")];
    let rels = vec![rel(1, 2, true, false)];
    let v = reconcile_friends(2, &users, &rels).unwrap();
    assert_eq!(v.incoming, vec![user(1, "A")]);
    assert!(v.friends.is_empty() && v.outgoing.is_empty() && v.unrelated.is_empty());
}

#[test]
fn reconcile_drops_missing_counterpart() {
    let users = vec![user(1, "A"), user(3, "C")];
    let rels = vec![rel(1, 2, true, true)];
    let v = reconcile_friends(1, &users, &rels).unwrap();
    assert!(v.friends.is_empty());
    assert_eq!(v.unrelated, vec![user(3, "C")]);
}

#[test]
fn reconcile_empty_inputs() {
    let v = reconcile_friends(1, &vec![], &vec![]).unwrap();
    assert!(v.friends.is_empty() && v.incoming.is_empty() && v.outgoing.is_empty() && v.unrelated.is_empty());
}

#[test]
fn reconcile_refuses_broken_record() {
    let users = vec![user(1, "A"), user(2, "B")];
    let rels = vec![rel(1, 2, false, false)];
    assert_eq!(reconcile_friends(1, &users, &rels).err(), Some(RelationError::DataInvariantViolation));
    // A broken record of other users does not concern user 1.
    let rels = vec![rel(2, 3, false, false)];
    assert!(reconcile_friends(1, &users, &rels).is_ok());
}

#[test]
fn reconcile_last_record_of_a_counterpart_decides() {
    let users = vec![user(1, "A"), user(2, "B"), user(3, "C")];
    let rels = vec![rel(1, 2, true, false), rel(1, 3, true, true), rel(1, 2, true, true)];
    let v = reconcile_friends(1, &users, &rels).unwrap();
    assert_eq!(v.friends, vec![user(3, "C"), user(2, "B")]);
    assert!(v.outgoing.is_empty());
    assert!(v.incoming.is_empty());
    assert!(v.unrelated.is_empty());
}
