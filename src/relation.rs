//! The canonical encoding of a symmetric friend relation, and the error kinds
//! of the relationship engines.
use vstd::prelude::*;

use crate::models::UserToUserFriend;

verus! {

/// The typed failures of the relationship operations.
#[derive(Debug, Clone, Copy, PartialEq, Eq, Structural)]
pub enum RelationError {
    /// A user was paired with itself.
    InvalidRelation,
    /// A friend relation for the pair exists already.
    AlreadyRelated,
    /// A membership for the user and group exists already.
    AlreadyMember,
    /// The record that an operation mutates does not exist.
    NotFound,
    /// An input was rejected, such as an empty group name.
    Validation,
    /// A friend relation with both acceptance flags false was observed.
    DataInvariantViolation,
    /// The store could not complete the operation.
    Storage,
}

/// The lower and the higher of two distinct ids.
pub open spec fn spec_canonical_pair(a: i32, b: i32) -> (i32, i32) {
    if a < b {
        (a, b)
    } else {
        (b, a)
    }
}

/// Orders a pair of user ids so that a symmetric relation has exactly one key.
/// A user cannot be related to itself.
pub fn canonical_pair(a: i32, b: i32) -> (r: Result<(i32, i32), RelationError>)
    ensures
        a == b <==> r == Err::<(i32, i32), RelationError>(RelationError::InvalidRelation),
        a != b ==> r == Ok::<(i32, i32), RelationError>(spec_canonical_pair(a, b)),
{
    if a == b {
        Err(RelationError::InvalidRelation)
    } else if a < b {
        Ok((a, b))
    } else {
        Ok((b, a))
    }
}

/// The pair of two distinct users does not depend on their order.
pub proof fn canonical_pair_symmetric(a: i32, b: i32)
    requires
        a != b,
    ensures
        spec_canonical_pair(a, b) == spec_canonical_pair(b, a),
        spec_canonical_pair(a, b).0 < spec_canonical_pair(a, b).1,
{
}

/// Whether a relation record involves the user.
pub open spec fn touches(rel: UserToUserFriend, user_id: i32) -> bool {
    rel.user_one_id == user_id || rel.user_two_id == user_id
}

/// The other participant of a relation, seen from `user_id`.
pub open spec fn spec_counterpart(rel: UserToUserFriend, user_id: i32) -> i32 {
    if rel.user_one_id == user_id {
        rel.user_two_id
    } else {
        rel.user_one_id
    }
}

/// Whether `user_id` has accepted the relation, by the side it holds.
pub open spec fn spec_my_flag(rel: UserToUserFriend, user_id: i32) -> bool {
    if rel.user_one_id == user_id {
        rel.accepted_user_one
    } else {
        rel.accepted_user_two
    }
}

/// Whether the counterpart of `user_id` has accepted the relation.
pub open spec fn spec_their_flag(rel: UserToUserFriend, user_id: i32) -> bool {
    if rel.user_one_id == user_id {
        rel.accepted_user_two
    } else {
        rel.accepted_user_one
    }
}

/// Resolves a relation from the viewpoint of one participant: the other
/// user's id, whether the viewer has accepted, and whether the other user has.
/// Nothing for a relation that does not involve the viewer.
pub fn resolve_sides(rel: &UserToUserFriend, user_id: i32) -> (r: Option<(i32, bool, bool)>)
    ensures
        !touches(*rel, user_id) <==> r is None,
        touches(*rel, user_id) ==> r == Some(
            (spec_counterpart(*rel, user_id), spec_my_flag(*rel, user_id), spec_their_flag(*rel, user_id)),
        ),
{
    if rel.user_one_id == user_id {
        Some((rel.user_two_id, rel.accepted_user_one, rel.accepted_user_two))
    } else if rel.user_two_id == user_id {
        Some((rel.user_one_id, rel.accepted_user_two, rel.accepted_user_one))
    } else {
        None
    }
}

/// The record that `requester` creates when asking `target` for friendship:
/// canonical ids, the requester's side accepted and the other side not.
pub open spec fn spec_request_record(requester: i32, target: i32) -> UserToUserFriend {
    let (lo, hi) = spec_canonical_pair(requester, target);
    UserToUserFriend {
        user_one_id: lo,
        user_two_id: hi,
        accepted_user_one: requester == lo,
        accepted_user_two: requester == hi,
    }
}

/// Builds the record of a friend request from `requester` to `target`.
pub fn request_record(requester: i32, target: i32) -> (r: Result<UserToUserFriend, RelationError>)
    ensures
        requester == target <==> r == Err::<UserToUserFriend, RelationError>(RelationError::InvalidRelation),
        requester != target
            ==> r == Ok::<UserToUserFriend, RelationError>(spec_request_record(requester, target)),
{
    match canonical_pair(requester, target) {
        Ok((lo, hi)) => Ok(
            UserToUserFriend {
                user_one_id: lo,
                user_two_id: hi,
                accepted_user_one: requester == lo,
                accepted_user_two: requester == hi,
            },
        ),
        Err(e) => Err(e),
    }
}

} // verus!
