//! An in-memory relation store: the users, friend relations, groups and
//! memberships that the reconciliation engines read and the screens mutate.
//! Symmetric friend relations are kept under their canonical pair, at most one
//! record per pair, and at most one membership per user and group.
use vstd::prelude::*;

use crate::dates::SendDate;
use crate::models::{Group, GroupMessage, User, UserMessage, UserPassword, UserToGroup, UserToUserFriend};
use crate::credentials::{
    bcrypt_check, check_password, hash_password, is_strong_password, spec_is_strong_password,
};
use crate::relation::{touches, RelationError};

verus! {

/// A registered account: the public user fields with the e-mail address and
/// the password hash.
#[derive(Debug, Clone)]
pub struct UserRecord {
    pub id: i32,
    pub first_name: String,
    pub last_name: String,
    pub email: String,
    pub password: String,
}

/// The records that the application keeps.
#[derive(Debug, Clone)]
pub struct Store {
    users: Vec<UserRecord>,
    friends: Vec<UserToUserFriend>,
    groups: Vec<Group>,
    memberships: Vec<UserToGroup>,
    user_messages: Vec<UserMessage>,
    group_messages: Vec<GroupMessage>,
    next_user_id: i32,
    next_group_id: i32,
}

/// Whether a friend record is stored under the pair `(lo, hi)`.
pub open spec fn has_pair(s: Seq<UserToUserFriend>, lo: i32, hi: i32) -> bool {
    exists|i: int| 0 <= i < s.len() && s[i].user_one_id == lo && s[i].user_two_id == hi
}

/// Whether the user is a member of, or invited to, the group.
pub open spec fn has_membership(s: Seq<UserToGroup>, user_id: i32, group_id: i32) -> bool {
    exists|i: int| 0 <= i < s.len() && s[i].user_id == user_id && s[i].group_id == group_id
}

/// Whether a group with the id exists.
pub open spec fn has_group(s: Seq<Group>, id: i32) -> bool {
    exists|i: int| 0 <= i < s.len() && s[i].id == id
}

/// The friend records that involve the user, in stored order.
pub open spec fn relations_of(s: Seq<UserToUserFriend>, user_id: i32) -> Seq<UserToUserFriend> {
    s.filter(|r: UserToUserFriend| touches(r, user_id))
}

/// The memberships of the user, in stored order.
pub open spec fn memberships_of_user(s: Seq<UserToGroup>, user_id: i32) -> Seq<UserToGroup> {
    s.filter(|m: UserToGroup| m.user_id == user_id)
}

/// The memberships in the group, in stored order.
pub open spec fn memberships_of_group(s: Seq<UserToGroup>, group_id: i32) -> Seq<UserToGroup> {
    s.filter(|m: UserToGroup| m.group_id == group_id)
}

/// The typed failures of the account operations.
#[derive(Debug, Clone, Copy, PartialEq, Eq, Structural)]
pub enum AccountError {
    /// Another account uses the e-mail address.
    EmailInUse,
    /// No account has the id or address.
    NotFound,
    /// The new password does not meet the strength rules.
    WeakPassword,
    /// The current password does not match the stored hash.
    WrongPassword,
    /// The password could not be hashed or checked.
    HashFailure,
    /// The store could not complete the operation.
    Storage,
}

/// The text shown for an account failure.
pub open spec fn spec_account_message(e: AccountError) -> Seq<char> {
    match e {
        AccountError::EmailInUse => "Email address already in use"@,
        AccountError::NotFound => "User not found"@,
        AccountError::WeakPassword => "Password must be at least 8 characters long and contain at least one uppercase letter, one lowercase letter, one digit, and one special character"@,
        AccountError::WrongPassword => "Old password does not match."@,
        AccountError::HashFailure => "Failed to hash password"@,
        AccountError::Storage => "The store could not complete the operation"@,
    }
}

impl AccountError {
    /// The text shown for the failure.
    pub fn message(&self) -> (r: String)
        ensures
            r@ == spec_account_message(*self),
    {
        match self {
            AccountError::EmailInUse => "Email address already in use".to_string(),
            AccountError::NotFound => "User not found".to_string(),
            AccountError::WeakPassword => "Password must be at least 8 characters long and contain at least one uppercase letter, one lowercase letter, one digit, and one special character".to_string(),
            AccountError::WrongPassword => "Old password does not match.".to_string(),
            AccountError::HashFailure => "Failed to hash password".to_string(),
            AccountError::Storage => "The store could not complete the operation".to_string(),
        }
    }
}

/// The public part of an account.
pub open spec fn public_user(u: UserRecord) -> User {
    User { id: u.id, first_name: u.first_name, last_name: u.last_name }
}

/// The public parts of the accounts, in stored order.
pub open spec fn user_list(s: Seq<UserRecord>) -> Seq<User> {
    s.map_values(|u: UserRecord| public_user(u))
}

/// Whether an account has the id.
pub open spec fn has_user(s: Seq<UserRecord>, id: i32) -> bool {
    exists|i: int| 0 <= i < s.len() && s[i].id == id
}

/// The position of the account with the id; meaningful where `has_user(s, id)`.
pub open spec fn user_position(s: Seq<UserRecord>, id: i32) -> int {
    choose|i: int| 0 <= i < s.len() && s[i].id == id
}

/// Whether an account has the e-mail address.
pub open spec fn has_email(s: Seq<UserRecord>, email: Seq<char>) -> bool {
    exists|i: int| 0 <= i < s.len() && s[i].email@ == email
}

/// The position of the account with the address; meaningful where
/// `has_email(s, email)`.
pub open spec fn email_position(s: Seq<UserRecord>, email: Seq<char>) -> int {
    choose|i: int| 0 <= i < s.len() && s[i].email@ == email
}

/// The accounts whose id is listed, in stored order.
pub open spec fn users_with_ids(s: Seq<UserRecord>, ids: Seq<i32>) -> Seq<UserRecord> {
    s.filter(|u: UserRecord| ids.contains(u.id))
}

/// `b` is `a` with the password of the account at `pos` replaced.
pub open spec fn password_replaced(a: Seq<UserRecord>, b: Seq<UserRecord>, pos: int) -> bool {
    &&& a.len() == b.len()
    &&& forall|k: int| 0 <= k < a.len() && k != pos ==> #[trigger] b[k] == a[k]
    &&& b[pos].id == a[pos].id
    &&& b[pos].first_name == a[pos].first_name
    &&& b[pos].last_name == a[pos].last_name
    &&& b[pos].email == a[pos].email
}

/// Whether a direct message goes between the two users, either way.
pub open spec fn between(m: UserMessage, a: i32, b: i32) -> bool {
    (m.sender_id == a && m.receiver_id == b) || (m.sender_id == b && m.receiver_id == a)
}

/// The direct messages between two users, oldest first.
pub open spec fn messages_between(s: Seq<UserMessage>, a: i32, b: i32) -> Seq<UserMessage> {
    s.filter(|m: UserMessage| between(m, a, b))
}

/// The messages of a group, oldest first.
pub open spec fn messages_of_group(s: Seq<GroupMessage>, group_id: i32) -> Seq<GroupMessage> {
    s.filter(|m: GroupMessage| m.receiver_id == group_id)
}

/// The stored group with the id; meaningful where `has_group(s, id)`.
pub open spec fn group_with_id(s: Seq<Group>, id: i32) -> Group {
    s[choose|i: int| 0 <= i < s.len() && s[i].id == id]
}

/// The groups with the given ids, in the order of the ids; ids of groups that
/// do not exist are skipped.
pub open spec fn groups_for_ids(s: Seq<Group>, ids: Seq<i32>) -> Seq<Group>
    decreases ids.len(),
{
    if ids.len() == 0 {
        Seq::empty()
    } else {
        let prev = groups_for_ids(s, ids.drop_last());
        if has_group(s, ids.last()) {
            prev.push(group_with_id(s, ids.last()))
        } else {
            prev
        }
    }
}

/// Every friend record is canonical, has at least one side accepted, and no
/// pair is stored twice.
pub open spec fn friends_wf(s: Seq<UserToUserFriend>) -> bool {
    &&& forall|i: int| 0 <= i < s.len() ==> #[trigger] s[i].user_one_id < s[i].user_two_id
    &&& forall|i: int| 0 <= i < s.len() ==> #[trigger] s[i].accepted_user_one || s[i].accepted_user_two
    &&& forall|i: int, j: int|
        0 <= i < j < s.len() ==> !(#[trigger] s[i].user_one_id == #[trigger] s[j].user_one_id
            && s[i].user_two_id == s[j].user_two_id)
}

/// No user holds two memberships of one group.
pub open spec fn memberships_wf(s: Seq<UserToGroup>) -> bool {
    forall|i: int, j: int|
        0 <= i < j < s.len() ==> !(#[trigger] s[i].user_id == #[trigger] s[j].user_id
            && s[i].group_id == s[j].group_id)
}

/// Group ids are distinct and below `next`.
pub open spec fn groups_wf(s: Seq<Group>, next: i32) -> bool {
    &&& forall|i: int| 0 <= i < s.len() ==> #[trigger] s[i].id < next
    &&& forall|i: int, j: int| 0 <= i < j < s.len() ==> #[trigger] s[i].id != #[trigger] s[j].id
}

/// User ids and e-mail addresses are distinct, and ids are below `next`.
pub open spec fn users_wf(s: Seq<UserRecord>, next: i32) -> bool {
    &&& forall|i: int| 0 <= i < s.len() ==> #[trigger] s[i].id < next
    &&& forall|i: int, j: int| 0 <= i < j < s.len() ==> #[trigger] s[i].id != #[trigger] s[j].id
    &&& forall|i: int, j: int|
        0 <= i < j < s.len() ==> #[trigger] s[i].email@ != #[trigger] s[j].email@
}

impl Store {
    /// The stored friend records.
    pub closed spec fn friend_records(&self) -> Seq<UserToUserFriend> {
        self.friends@
    }

    /// The stored memberships.
    pub closed spec fn membership_records(&self) -> Seq<UserToGroup> {
        self.memberships@
    }

    /// The stored groups.
    pub closed spec fn group_records(&self) -> Seq<Group> {
        self.groups@
    }

    /// The registered accounts.
    pub closed spec fn user_records(&self) -> Seq<UserRecord> {
        self.users@
    }

    /// The stored direct messages, oldest first.
    pub closed spec fn user_message_records(&self) -> Seq<UserMessage> {
        self.user_messages@
    }

    /// The stored group messages, oldest first.
    pub closed spec fn group_message_records(&self) -> Seq<GroupMessage> {
        self.group_messages@
    }

    /// The store's invariant.
    pub closed spec fn wf(&self) -> bool {
        &&& friends_wf(self.friends@)
        &&& memberships_wf(self.memberships@)
        &&& groups_wf(self.groups@, self.next_group_id)
        &&& forall|i: int|
            0 <= i < self.memberships@.len() ==> #[trigger] self.memberships@[i].group_id < self.next_group_id
        &&& users_wf(self.users@, self.next_user_id)
        &&& self.next_group_id >= 1
        &&& self.next_user_id >= 1
    }

    /// An empty store.
    pub fn new() -> (r: Store)
        ensures
            r.wf(),
            r.friend_records() == Seq::<UserToUserFriend>::empty(),
            r.membership_records() == Seq::<UserToGroup>::empty(),
            r.group_records() == Seq::<Group>::empty(),
            r.user_records() == Seq::<UserRecord>::empty(),
            r.user_message_records() == Seq::<UserMessage>::empty(),
            r.group_message_records() == Seq::<GroupMessage>::empty(),
            r.can_create_group(),
            r.can_create_user(),
    {
        Store {
            users: Vec::new(),
            friends: Vec::new(),
            groups: Vec::new(),
            memberships: Vec::new(),
            user_messages: Vec::new(),
            group_messages: Vec::new(),
            next_user_id: 1,
            next_group_id: 1,
        }
    }

    /// The position of the friend record of `(lo, hi)`, if there is one.
    fn friend_index(&self, lo: i32, hi: i32) -> (r: Option<usize>)
        ensures
            r is None <==> !has_pair(self.friends@, lo, hi),
            r matches Some(i) ==> i < self.friends@.len() && self.friends@[i as int].user_one_id == lo
                && self.friends@[i as int].user_two_id == hi,
    {
        let mut i: usize = 0;
        while i < self.friends.len()
            invariant
                i <= self.friends@.len(),
                forall|k: int|
                    0 <= k < i ==> !(#[trigger] self.friends@[k].user_one_id == lo
                        && self.friends@[k].user_two_id == hi),
            decreases self.friends@.len() - i,
        {
            if self.friends[i].user_one_id == lo && self.friends[i].user_two_id == hi {
                return Some(i);
            }
            i = i + 1;
        }
        None
    }

    /// Inserts a friend record. It is refused when the ids are not a canonical
    /// pair, when neither side has accepted, or when the pair is stored already.
    pub fn create_user_friend(
        &mut self,
        user_one_id: i32,
        user_two_id: i32,
        accepted_user_one: bool,
        accepted_user_two: bool,
    ) -> (r: Result<UserToUserFriend, RelationError>)
        requires
            old(self).wf(),
        ensures
            final(self).wf(),
            user_one_id >= user_two_id ==> r == Err::<UserToUserFriend, RelationError>(
                RelationError::InvalidRelation,
            ),
            user_one_id < user_two_id && !accepted_user_one && !accepted_user_two ==> r == Err::<
                UserToUserFriend,
                RelationError,
            >(RelationError::DataInvariantViolation),
            user_one_id < user_two_id && (accepted_user_one || accepted_user_two) && has_pair(
                old(self).friend_records(),
                user_one_id,
                user_two_id,
            ) ==> r == Err::<UserToUserFriend, RelationError>(RelationError::AlreadyRelated),
            user_one_id < user_two_id && (accepted_user_one || accepted_user_two) && !has_pair(
                old(self).friend_records(),
                user_one_id,
                user_two_id,
            ) ==> r == Ok::<UserToUserFriend, RelationError>(
                (UserToUserFriend { user_one_id, user_two_id, accepted_user_one, accepted_user_two }),
            ),
            r is Ok ==> final(self).friend_records() == old(self).friend_records().push(r->Ok_0),
            r is Ok ==> has_pair(final(self).friend_records(), user_one_id, user_two_id),
            r is Err ==> final(self).friend_records() == old(self).friend_records(),
            final(self).membership_records() == old(self).membership_records(),
            final(self).group_records() == old(self).group_records(),
            final(self).user_records() == old(self).user_records(),
            final(self).counters() == old(self).counters(),
    {
        if user_one_id >= user_two_id {
            return Err(RelationError::InvalidRelation);
        }
        if !accepted_user_one && !accepted_user_two {
            return Err(RelationError::DataInvariantViolation);
        }
        if self.friend_index(user_one_id, user_two_id).is_some() {
            return Err(RelationError::AlreadyRelated);
        }
        let rec = UserToUserFriend { user_one_id, user_two_id, accepted_user_one, accepted_user_two };
        self.friends.push(rec);
        assert(self.friends@[self.friends@.len() - 1] == rec);
        Ok(rec)
    }

    /// Marks both sides of the friend record of `(lo, hi)` as accepted.
    pub fn acccepte_friend_request(&mut self, lo: i32, hi: i32) -> (r: Result<(), RelationError>)
        requires
            old(self).wf(),
        ensures
            final(self).wf(),
            r is Ok <==> has_pair(old(self).friend_records(), lo, hi),
            r is Ok ==> has_pair(final(self).friend_records(), lo, hi),
            r is Err ==> r == Err::<(), RelationError>(RelationError::NotFound)
                && final(self).friend_records()
                == old(self).friend_records(),
            r is Ok ==> exists|i: int|
                0 <= i < old(self).friend_records().len() && old(self).friend_records()[i].user_one_id == lo
                    && old(self).friend_records()[i].user_two_id == hi && final(self).friend_records()
                    == old(self).friend_records().update(
                    i,
                    UserToUserFriend {
                        user_one_id: lo,
                        user_two_id: hi,
                        accepted_user_one: true,
                        accepted_user_two: true,
                    },
                ),
            final(self).membership_records() == old(self).membership_records(),
            final(self).group_records() == old(self).group_records(),
            final(self).user_records() == old(self).user_records(),
            final(self).counters() == old(self).counters(),
    {
        match self.friend_index(lo, hi) {
            None => Err(RelationError::NotFound),
            Some(i) => {
                let rec = UserToUserFriend {
                    user_one_id: lo,
                    user_two_id: hi,
                    accepted_user_one: true,
                    accepted_user_two: true,
                };
                self.friends.set(i, rec);
                assert(self.friends@ == old(self).friends@.update(i as int, rec));
                assert(self.friend_records() == old(self).friend_records().update(i as int, rec));
                assert(self.friends@[i as int] == rec);
                Ok(())
            },
        }
    }

    /// The friend records that involve the user, in stored order.
    pub fn find_all_user_to_user_friend_entries(&self, user_id: i32) -> (r: Vec<UserToUserFriend>)
        ensures
            r@ == relations_of(self.friend_records(), user_id),
    {
        let mut r: Vec<UserToUserFriend> = Vec::new();
        let mut i: usize = 0;
        while i < self.friends.len()
            invariant
                i <= self.friends@.len(),
                r@ == relations_of(self.friends@.subrange(0, i as int), user_id),
            decreases self.friends@.len() - i,
        {
            proof {
                assert(self.friends@.subrange(0, i + 1).drop_last() =~= self.friends@.subrange(0, i as int));
                reveal(Seq::filter);
            }
            let rec = self.friends[i];
            if rec.user_one_id == user_id || rec.user_two_id == user_id {
                r.push(rec);
            }
            i = i + 1;
        }
        assert(self.friends@.subrange(0, i as int) =~= self.friends@);
        r
    }

    /// Deletes the friend record of `(lo, hi)`.
    pub fn delete_friend_to_friend_relation(&mut self, lo: i32, hi: i32) -> (r: Result<(), RelationError>)
        requires
            old(self).wf(),
        ensures
            final(self).wf(),
            r is Ok <==> has_pair(old(self).friend_records(), lo, hi),
            r is Err ==> r == Err::<(), RelationError>(RelationError::NotFound)
                && final(self).friend_records()
                == old(self).friend_records(),
            r is Ok ==> exists|i: int|
                0 <= i < old(self).friend_records().len() && old(self).friend_records()[i].user_one_id == lo
                    && old(self).friend_records()[i].user_two_id == hi && final(self).friend_records()
                    == old(self).friend_records().remove(i),
            !has_pair(final(self).friend_records(), lo, hi),
            final(self).membership_records() == old(self).membership_records(),
            final(self).group_records() == old(self).group_records(),
            final(self).user_records() == old(self).user_records(),
            final(self).counters() == old(self).counters(),
    {
        match self.friend_index(lo, hi) {
            None => Err(RelationError::NotFound),
            Some(i) => {
                self.friends.remove(i);
                assert(self.friends@ == old(self).friends@.remove(i as int));
                assert(self.friend_records() == old(self).friend_records().remove(i as int));
                assert forall|k: int| 0 <= k < self.friends@.len() implies !(self.friends@[k].user_one_id == lo
                    && self.friends@[k].user_two_id == hi) by {
                    if k < i {
                        assert(old(self).friends@[k] == self.friends@[k]);
                    } else {
                        assert(old(self).friends@[k + 1] == self.friends@[k]);
                    }
                }
                Ok(())
            },
        }
    }
    /// The next fresh account id and the next fresh group id.
    pub closed spec fn counters(&self) -> (i32, i32) {
        (self.next_user_id, self.next_group_id)
    }

    /// Whether another group can be given a fresh id.
    pub open spec fn can_create_group(&self) -> bool {
        self.counters().1 < i32::MAX
    }

    /// The position of the group with the id, if there is one.
    fn group_index(&self, id: i32) -> (r: Option<usize>)
        ensures
            r is None <==> !has_group(self.groups@, id),
            r matches Some(i) ==> i < self.groups@.len() && self.groups@[i as int].id == id,
    {
        let mut i: usize = 0;
        while i < self.groups.len()
            invariant
                i <= self.groups@.len(),
                forall|k: int| 0 <= k < i ==> #[trigger] self.groups@[k].id != id,
            decreases self.groups@.len() - i,
        {
            if self.groups[i].id == id {
                return Some(i);
            }
            i = i + 1;
        }
        None
    }

    /// The position of the membership of the user in the group, if there is one.
    fn membership_index(&self, user_id: i32, group_id: i32) -> (r: Option<usize>)
        ensures
            r is None <==> !has_membership(self.memberships@, user_id, group_id),
            r matches Some(i) ==> i < self.memberships@.len() && self.memberships@[i as int].user_id
                == user_id && self.memberships@[i as int].group_id == group_id,
    {
        let mut i: usize = 0;
        while i < self.memberships.len()
            invariant
                i <= self.memberships@.len(),
                forall|k: int|
                    0 <= k < i ==> !(#[trigger] self.memberships@[k].user_id == user_id
                        && self.memberships@[k].group_id == group_id),
            decreases self.memberships@.len() - i,
        {
            if self.memberships[i].user_id == user_id && self.memberships[i].group_id == group_id {
                return Some(i);
            }
            i = i + 1;
        }
        None
    }

    /// Creates a group with a fresh id.
    pub fn create_group(&mut self, name: &str) -> (r: Result<Group, RelationError>)
        requires
            old(self).wf(),
        ensures
            final(self).wf(),
            r is Ok <==> old(self).can_create_group(),
            r is Err ==> r == Err::<Group, RelationError>(RelationError::Storage)
                && final(self).group_records()
                == old(self).group_records(),
            r matches Ok(g) ==> has_group(final(self).group_records(), g.id),
            r is Err ==> final(self).counters() == old(self).counters(),
            r is Ok ==> final(self).counters().0 == old(self).counters().0,
            r matches Ok(g) ==> g.name@ == name@ && !has_group(old(self).group_records(), g.id)
                && memberships_of_group(old(self).membership_records(), g.id).len() == 0
                && final(self).group_records() == old(self).group_records().push(g),
            final(self).friend_records() == old(self).friend_records(),
            final(self).membership_records() == old(self).membership_records(),
            final(self).user_records() == old(self).user_records(),
    {
        if self.next_group_id == i32::MAX {
            return Err(RelationError::Storage);
        }
        let id = self.next_group_id;
        let g = Group { id, name: name.to_string() };
        let ghost old_groups = self.groups@;
        self.groups.push(g.duplicate());
        self.next_group_id = id + 1;
        assert(!has_group(old_groups, id));
        assert(self.groups@[self.groups@.len() - 1].id == id);
        proof {
            lemma_no_member_of_group(self.memberships@, id);
        }
        Ok(g)
    }

    /// The groups with the given ids, in the order of the ids; an id of a group
    /// that does not exist is skipped.
    pub fn find_groups_by_ids(&self, group_ids: &Vec<i32>) -> (r: Vec<Group>)
        requires
            self.wf(),
        ensures
            r@ == groups_for_ids(self.group_records(), group_ids@),
    {
        let mut r: Vec<Group> = Vec::new();
        let mut k: usize = 0;
        while k < group_ids.len()
            invariant
                self.wf(),
                k <= group_ids@.len(),
                r@ == groups_for_ids(self.groups@, group_ids@.subrange(0, k as int)),
            decreases group_ids@.len() - k,
        {
            let ghost sub = group_ids@.subrange(0, k + 1);
            assert(sub.drop_last() =~= group_ids@.subrange(0, k as int));
            assert(sub.last() == group_ids@[k as int]);
            match self.group_index(group_ids[k]) {
                Some(j) => {
                    let ghost c = choose|i: int| 0 <= i < self.groups@.len()
                        && self.groups@[i].id == group_ids@[k as int];
                    assert(c == j);
                    r.push(self.groups[j].duplicate());
                },
                None => {},
            }
            k = k + 1;
        }
        assert(group_ids@.subrange(0, k as int) =~= group_ids@);
        r
    }

    /// Deletes the group with the id.
    pub fn delete_group(&mut self, group_id: i32) -> (r: Result<(), RelationError>)
        requires
            old(self).wf(),
        ensures
            final(self).wf(),
            r is Ok <==> has_group(old(self).group_records(), group_id),
            r is Err ==> r == Err::<(), RelationError>(RelationError::NotFound) && final(self).group_records()
                == old(self).group_records()
                    && final(self).membership_records() == old(self).membership_records(),
            r is Ok ==> exists|i: int|
                0 <= i < old(self).group_records().len() && old(self).group_records()[i].id == group_id
                    && final(self).group_records() == old(self).group_records().remove(i),
            !has_group(final(self).group_records(), group_id),
            r is Ok ==> forall|k: int|
                0 <= k < final(self).membership_records().len()
                    ==> #[trigger] final(self).membership_records()[k].group_id != group_id,
            r is Ok ==> forall|m: UserToGroup|
                #[trigger] final(self).membership_records().contains(m) <==> old(self).membership_records().contains(m)
                    && m.group_id != group_id,
            memberships_of_group(old(self).membership_records(), group_id).len() == 0
                ==> final(self).membership_records() == old(self).membership_records(),
            final(self).friend_records() == old(self).friend_records(),
            final(self).user_records() == old(self).user_records(),
            final(self).counters() == old(self).counters(),
    {
        match self.group_index(group_id) {
            None => Err(RelationError::NotFound),
            Some(i) => {
                self.groups.remove(i);
                assert(self.groups@ == old(self).groups@.remove(i as int));
                assert(self.group_records() == old(self).group_records().remove(i as int));
                assert forall|k: int| 0 <= k < self.groups@.len() implies self.groups@[k].id != group_id by {
                    if k < i {
                        assert(old(self).groups@[k] == self.groups@[k]);
                    } else {
                        assert(old(self).groups@[k + 1] == self.groups@[k]);
                    }
                }
                self.remove_memberships_of(group_id);
                proof {
                    if memberships_of_group(old(self).memberships@, group_id).len() == 0 {
                        assert forall|k: int| 0 <= k < old(self).memberships@.len() implies #[trigger] old(self).memberships@[k].group_id != group_id by {
                            if old(self).memberships@[k].group_id == group_id {
                                lemma_group_has_member(old(self).memberships@, group_id, k);
                            }
                        }
                    }
                }
                Ok(())
            },
        }
    }

    /// Removes every membership of the group.
    fn remove_memberships_of(&mut self, group_id: i32)
        requires
            old(self).wf(),
        ensures
            final(self).wf(),
            forall|k: int| 0 <= k < final(self).memberships@.len()
                ==> #[trigger] final(self).memberships@[k].group_id != group_id,
            forall|m: UserToGroup|
                #[trigger] final(self).memberships@.contains(m) <==> old(self).memberships@.contains(m)
                    && m.group_id
                    != group_id,
            (forall|k: int| 0 <= k < old(self).memberships@.len()
                ==> #[trigger] old(self).memberships@[k].group_id
                != group_id) ==> final(self).memberships@ == old(self).memberships@,
            final(self).groups@ == old(self).groups@,
            final(self).friends@ == old(self).friends@,
            final(self).users@ == old(self).users@,
            final(self).user_messages@ == old(self).user_messages@,
            final(self).group_messages@ == old(self).group_messages@,
            final(self).counters() == old(self).counters(),
    {
        let ghost before = self.memberships@;
        let mut i: usize = 0;
        while i < self.memberships.len()
            invariant
                self.wf(),
                i <= self.memberships@.len(),
                forall|k: int| 0 <= k < i ==> #[trigger] self.memberships@[k].group_id != group_id,
                forall|m: UserToGroup| #[trigger] self.memberships@.contains(m) ==> before.contains(m),
                forall|m: UserToGroup|
                    #[trigger] before.contains(m) && m.group_id != group_id ==> self.memberships@.contains(m),
                (forall|k: int| 0 <= k < before.len() ==> #[trigger] before[k].group_id != group_id)
                    ==> self.memberships@ == before,
                self.groups@ == old(self).groups@,
                self.friends@ == old(self).friends@,
                self.users@ == old(self).users@,
                self.user_messages@ == old(self).user_messages@,
                self.group_messages@ == old(self).group_messages@,
                self.counters() == old(self).counters(),
            decreases self.memberships@.len() - i,
        {
            if self.memberships[i].group_id == group_id {
                let ghost prev = self.memberships@;
                proof {
                    if forall|k: int| 0 <= k < before.len() ==> #[trigger] before[k].group_id != group_id {
                        assert(prev == before);
                        assert(before[i as int].group_id != group_id);
                    }
                }
                self.memberships.remove(i);
                proof {
                    assert(self.memberships@ == prev.remove(i as int));
                    assert forall|m: UserToGroup| #[trigger] self.memberships@.contains(m) implies before.contains(m) by {
                        let k = choose|k: int| 0 <= k < self.memberships@.len() && self.memberships@[k] == m;
                        if k < i {
                            assert(prev[k] == m);
                        } else {
                            assert(prev[k + 1] == m);
                        }
                        assert(prev.contains(m));
                    }
                    assert forall|m: UserToGroup| #[trigger] before.contains(m)
                        && m.group_id != group_id implies self.memberships@.contains(m) by {
                        assert(prev.contains(m));
                        let k = choose|k: int| 0 <= k < prev.len() && prev[k] == m;
                        assert(k != i);
                        if k < i {
                            assert(self.memberships@[k] == m);
                        } else {
                            assert(self.memberships@[k - 1] == m);
                        }
                    }
                    assert forall|a: int, b: int| 0 <= a < b < self.memberships@.len() implies !(
                        #[trigger] self.memberships@[a].user_id == #[trigger] self.memberships@[b].user_id
                            && self.memberships@[a].group_id == self.memberships@[b].group_id) by {
                        let a2 = if a < i { a } else { a + 1 };
                        let b2 = if b < i { b } else { b + 1 };
                        assert(self.memberships@[a] == prev[a2]);
                        assert(self.memberships@[b] == prev[b2]);
                    }
                    assert forall|k: int| 0 <= k < self.memberships@.len() implies #[trigger] self.memberships@[k].group_id
                        < self.next_group_id by {
                        let k2 = if k < i { k } else { k + 1 };
                        assert(self.memberships@[k] == prev[k2]);
                    }
                }
            } else {
                i = i + 1;
            }
        }
    }

    /// Inserts a membership of the user in an existing group. A membership
    /// the user holds already is refused first, whether or not its group
    /// still exists.
    pub fn create_user_group(&mut self, user_id: i32, group_id: i32, accepted_invite: bool) -> (r: Result<
        UserToGroup,
        RelationError,
    >)
        requires
            old(self).wf(),
        ensures
            final(self).wf(),
            has_membership(old(self).membership_records(), user_id, group_id) ==> r == Err::<
                UserToGroup,
                RelationError,
            >(RelationError::AlreadyMember),
            !has_membership(old(self).membership_records(), user_id, group_id) && !has_group(
                old(self).group_records(),
                group_id,
            ) ==> r == Err::<UserToGroup, RelationError>(RelationError::NotFound),
            !has_membership(old(self).membership_records(), user_id, group_id) && has_group(
                old(self).group_records(),
                group_id,
            ) ==> r == Ok::<UserToGroup, RelationError>((UserToGroup { user_id, group_id, accepted_invite })),
            r is Ok ==> final(self).membership_records() == old(self).membership_records().push(r->Ok_0),
            r is Ok ==> has_membership(final(self).membership_records(), user_id, group_id),
            r is Err ==> final(self).membership_records() == old(self).membership_records(),
            final(self).friend_records() == old(self).friend_records(),
            final(self).group_records() == old(self).group_records(),
            final(self).user_records() == old(self).user_records(),
            final(self).counters() == old(self).counters(),
    {
        if self.membership_index(user_id, group_id).is_some() {
            return Err(RelationError::AlreadyMember);
        }
        if self.group_index(group_id).is_none() {
            return Err(RelationError::NotFound);
        }
        let m = UserToGroup { user_id, group_id, accepted_invite };
        self.memberships.push(m);
        assert(self.memberships@[self.memberships@.len() - 1] == m);
        Ok(m)
    }

    /// Sets the acceptance flag of an existing membership.
    pub fn update_user_group(&mut self, user_id: i32, group_id: i32, accepted_invite: bool) -> (r: Result<
        UserToGroup,
        RelationError,
    >)
        requires
            old(self).wf(),
        ensures
            final(self).wf(),
            r is Ok <==> has_membership(old(self).membership_records(), user_id, group_id),
            r is Err ==> r == Err::<UserToGroup, RelationError>(RelationError::NotFound)
                && final(self).membership_records() == old(self).membership_records(),
            r is Ok ==> r == Ok::<UserToGroup, RelationError>((UserToGroup { user_id, group_id, accepted_invite })),
            r is Ok ==> exists|i: int|
                0 <= i < old(self).membership_records().len() && old(self).membership_records()[i].user_id
                    == user_id && old(self).membership_records()[i].group_id == group_id
                        && final(self).membership_records() == old(self).membership_records().update(
                    i,
                    UserToGroup { user_id, group_id, accepted_invite },
                ),
            final(self).friend_records() == old(self).friend_records(),
            final(self).group_records() == old(self).group_records(),
            final(self).user_records() == old(self).user_records(),
            final(self).counters() == old(self).counters(),
    {
        match self.membership_index(user_id, group_id) {
            None => Err(RelationError::NotFound),
            Some(i) => {
                let m = UserToGroup { user_id, group_id, accepted_invite };
                self.memberships.set(i, m);
                assert(self.membership_records() == old(self).membership_records().update(i as int, m));
                assert(old(self).membership_records()[i as int].user_id == user_id);
                assert(old(self).membership_records()[i as int].group_id == group_id);
                Ok(m)
            },
        }
    }

    /// The memberships of the user, in stored order.
    pub fn find_all_user_groups_of_user(&self, user_id: i32) -> (r: Vec<UserToGroup>)
        ensures
            r@ == memberships_of_user(self.membership_records(), user_id),
    {
        let mut r: Vec<UserToGroup> = Vec::new();
        let mut i: usize = 0;
        while i < self.memberships.len()
            invariant
                i <= self.memberships@.len(),
                r@ == memberships_of_user(self.memberships@.subrange(0, i as int), user_id),
            decreases self.memberships@.len() - i,
        {
            proof {
                assert(self.memberships@.subrange(0, i + 1).drop_last() =~= self.memberships@.subrange(0, i as int));
                reveal(Seq::filter);
            }
            let m = self.memberships[i];
            if m.user_id == user_id {
                r.push(m);
            }
            i = i + 1;
        }
        assert(self.memberships@.subrange(0, i as int) =~= self.memberships@);
        r
    }

    /// The memberships in the group, in stored order.
    pub fn find_all_user_groups_of_group(&self, group_id: i32) -> (r: Vec<UserToGroup>)
        ensures
            r@ == memberships_of_group(self.membership_records(), group_id),
    {
        let mut r: Vec<UserToGroup> = Vec::new();
        let mut i: usize = 0;
        while i < self.memberships.len()
            invariant
                i <= self.memberships@.len(),
                r@ == memberships_of_group(self.memberships@.subrange(0, i as int), group_id),
            decreases self.memberships@.len() - i,
        {
            proof {
                assert(self.memberships@.subrange(0, i + 1).drop_last() =~= self.memberships@.subrange(0, i as int));
                reveal(Seq::filter);
            }
            let m = self.memberships[i];
            if m.group_id == group_id {
                r.push(m);
            }
            i = i + 1;
        }
        assert(self.memberships@.subrange(0, i as int) =~= self.memberships@);
        r
    }

    /// Deletes the membership of the user in the group; returns how many
    /// records were deleted.
    pub fn delete_user_group(&mut self, user_id: i32, group_id: i32) -> (r: Result<usize, RelationError>)
        requires
            old(self).wf(),
        ensures
            final(self).wf(),
            r is Ok <==> has_membership(old(self).membership_records(), user_id, group_id),
            r is Ok ==> r == Ok::<usize, RelationError>(1usize),
            r is Err ==> r == Err::<usize, RelationError>(RelationError::NotFound)
                && final(self).membership_records() == old(self).membership_records(),
            r is Ok ==> exists|i: int|
                0 <= i < old(self).membership_records().len() && old(self).membership_records()[i].user_id
                    == user_id && old(self).membership_records()[i].group_id == group_id
                        && final(self).membership_records() == old(self).membership_records().remove(i),
            !has_membership(final(self).membership_records(), user_id, group_id),
            final(self).friend_records() == old(self).friend_records(),
            final(self).group_records() == old(self).group_records(),
            final(self).user_records() == old(self).user_records(),
            final(self).counters() == old(self).counters(),
    {
        match self.membership_index(user_id, group_id) {
            None => Err(RelationError::NotFound),
            Some(i) => {
                self.memberships.remove(i);
                assert(self.memberships@ == old(self).memberships@.remove(i as int));
                assert(self.membership_records() == old(self).membership_records().remove(i as int));
                assert forall|k: int| 0 <= k < self.memberships@.len() implies !(
                self.memberships@[k].user_id == user_id && self.memberships@[k].group_id == group_id) by {
                    if k < i {
                        assert(old(self).memberships@[k] == self.memberships@[k]);
                    } else {
                        assert(old(self).memberships@[k + 1] == self.memberships@[k]);
                    }
                }
                Ok(1)
            },
        }
    }
    /// The invariant of the friend records and of the memberships.
    pub proof fn lemma_wf_records(&self)
        requires
            self.wf(),
        ensures
            friends_wf(self.friend_records()),
            memberships_wf(self.membership_records()),
    {
    }

    /// Account ids are distinct: the position of an account's id is the
    /// account's own position.
    pub proof fn lemma_user_position(&self, i: int)
        requires
            self.wf(),
            0 <= i < self.user_records().len(),
        ensures
            has_user(self.user_records(), self.user_records()[i].id),
            user_position(self.user_records(), self.user_records()[i].id) == i,
    {
        let id = self.users@[i].id;
        assert(has_user(self.users@, id));
        let c = user_position(self.users@, id);
        if c != i {
            if c < i {
                assert(self.users@[c].id != self.users@[i].id);
            } else {
                assert(self.users@[i].id != self.users@[c].id);
            }
        }
    }

    /// Whether another account can be given a fresh id.
    pub open spec fn can_create_user(&self) -> bool {
        self.counters().0 < i32::MAX
    }

    /// The position of the account with the id, if there is one.
    fn user_index(&self, id: i32) -> (r: Option<usize>)
        requires
            self.wf(),
        ensures
            r is None <==> !has_user(self.users@, id),
            r matches Some(i) ==> i < self.users@.len() && self.users@[i as int].id == id && i
                == user_position(self.users@, id),
    {
        let mut i: usize = 0;
        while i < self.users.len()
            invariant
                self.wf(),
                i <= self.users@.len(),
                forall|k: int| 0 <= k < i ==> #[trigger] self.users@[k].id != id,
            decreases self.users@.len() - i,
        {
            if self.users[i].id == id {
                assert(has_user(self.users@, id));
                let ghost c = user_position(self.users@, id);
                assert(c == i as int);
                return Some(i);
            }
            i = i + 1;
        }
        None
    }

    /// The position of the account with the e-mail address, if there is one.
    fn email_index(&self, email: &str) -> (r: Option<usize>)
        requires
            self.wf(),
        ensures
            r is None <==> !has_email(self.users@, email@),
            r matches Some(i) ==> i < self.users@.len() && self.users@[i as int].email@ == email@ && i
                == email_position(self.users@, email@),
    {
        let wanted = email.to_string();
        let mut i: usize = 0;
        while i < self.users.len()
            invariant
                self.wf(),
                wanted@ == email@,
                i <= self.users@.len(),
                forall|k: int| 0 <= k < i ==> #[trigger] self.users@[k].email@ != email@,
            decreases self.users@.len() - i,
        {
            if self.users[i].email == wanted {
                assert(has_email(self.users@, email@));
                let ghost c = email_position(self.users@, email@);
                assert(c == i as int);
                return Some(i);
            }
            i = i + 1;
        }
        None
    }

    /// Whether an account uses the e-mail address.
    pub fn user_email_exists(&self, email: &str) -> (r: bool)
        requires
            self.wf(),
        ensures
            r == has_email(self.user_records(), email@),
    {
        self.email_index(email).is_some()
    }

    /// Registers an account with a fresh id, storing a bcrypt hash of the
    /// password. Refused when the address is in use already.
    pub fn create_user(&mut self, first_name: &str, last_name: &str, email: &str, password: &str) -> (r:
        Result<User, AccountError>)
        requires
            old(self).wf(),
        ensures
            final(self).wf(),
            has_email(old(self).user_records(), email@) ==> r == Err::<User, AccountError>(
                AccountError::EmailInUse,
            ),
            !has_email(old(self).user_records(), email@) && !old(self).can_create_user() ==> r == Err::<
                User,
                AccountError,
            >(AccountError::Storage),
            !has_email(old(self).user_records(), email@) && old(self).can_create_user() ==> (r is Ok || r
                == Err::<User, AccountError>(AccountError::HashFailure)),
            r is Err ==> final(self).user_records() == old(self).user_records(),
            r is Err ==> final(self).counters() == old(self).counters(),
            r is Ok ==> final(self).counters().1 == old(self).counters().1,
            r matches Ok(u) ==> u.first_name@ == first_name@ && u.last_name@ == last_name@ && !has_user(
                old(self).user_records(),
                u.id,
            ) && final(self).user_records().len() == old(self).user_records().len() + 1
                && final(self).user_records().drop_last() == old(self).user_records() && public_user(
                final(self).user_records().last(),
            ) == u && final(self).user_records().last().email@ == email@,
            r is Ok ==> bcrypt_check(password@, final(self).user_records().last().password@) == Some(true),
            final(self).friend_records() == old(self).friend_records(),
            final(self).membership_records() == old(self).membership_records(),
            final(self).group_records() == old(self).group_records(),
    {
        if self.email_index(email).is_some() {
            return Err(AccountError::EmailInUse);
        }
        if self.next_user_id == i32::MAX {
            return Err(AccountError::Storage);
        }
        let hashed = match hash_password(password) {
            Some(h) => h,
            None => {
                return Err(AccountError::HashFailure);
            },
        };
        let id = self.next_user_id;
        let rec = UserRecord {
            id,
            first_name: first_name.to_string(),
            last_name: last_name.to_string(),
            email: email.to_string(),
            password: hashed,
        };
        let u = User { id, first_name: rec.first_name.clone(), last_name: rec.last_name.clone() };
        let ghost old_users = self.users@;
        self.users.push(rec);
        self.next_user_id = id + 1;
        assert(self.users@.drop_last() =~= old_users);
        assert(!has_user(old_users, id));
        Ok(u)
    }

    /// The public parts of all accounts, in stored order.
    pub fn find_all_user(&self) -> (r: Vec<User>)
        ensures
            r@ == user_list(self.user_records()),
    {
        let mut r: Vec<User> = Vec::new();
        let mut i: usize = 0;
        while i < self.users.len()
            invariant
                i <= self.users@.len(),
                r@ == user_list(self.users@.subrange(0, i as int)),
            decreases self.users@.len() - i,
        {
            let u = &self.users[i];
            r.push(User { id: u.id, first_name: u.first_name.clone(), last_name: u.last_name.clone() });
            assert(user_list(self.users@.subrange(0, i + 1)) =~= user_list(
                self.users@.subrange(0, i as int),
            ).push(public_user(self.users@[i as int])));
            i = i + 1;
        }
        assert(self.users@.subrange(0, i as int) =~= self.users@);
        r
    }

    /// The id and stored password hash of the account with the id.
    pub fn find_user_with_password_by_id(&self, user_id: i32) -> (r: Result<UserPassword, AccountError>)
        requires
            self.wf(),
        ensures
            r is Ok <==> has_user(self.user_records(), user_id),
            r is Err ==> r == Err::<UserPassword, AccountError>(AccountError::NotFound),
            r matches Ok(p) ==> p.id == user_id && p.password == self.user_records()[user_position(
                self.user_records(),
                user_id,
            )].password,
    {
        match self.user_index(user_id) {
            None => Err(AccountError::NotFound),
            Some(i) => Ok(UserPassword { id: user_id, password: self.users[i].password.clone() }),
        }
    }

    /// The public parts of the accounts whose id is listed, in stored order.
    pub fn find_users_by_ids(&self, user_ids: &Vec<i32>) -> (r: Vec<User>)
        ensures
            r@ == user_list(users_with_ids(self.user_records(), user_ids@)),
    {
        let mut r: Vec<User> = Vec::new();
        let mut i: usize = 0;
        while i < self.users.len()
            invariant
                i <= self.users@.len(),
                r@ == user_list(users_with_ids(self.users@.subrange(0, i as int), user_ids@)),
            decreases self.users@.len() - i,
        {
            proof {
                assert(self.users@.subrange(0, i + 1).drop_last() =~= self.users@.subrange(0, i as int));
                reveal(Seq::filter);
            }
            let u = &self.users[i];
            if contains_id(user_ids, u.id) {
                r.push(User { id: u.id, first_name: u.first_name.clone(), last_name: u.last_name.clone() });
                assert(user_list(users_with_ids(self.users@.subrange(0, i + 1), user_ids@)) =~= user_list(
                    users_with_ids(self.users@.subrange(0, i as int), user_ids@),
                ).push(public_user(self.users@[i as int])));
            }
            i = i + 1;
        }
        assert(self.users@.subrange(0, i as int) =~= self.users@);
        r
    }

    /// The public part of the account with the e-mail address.
    pub fn find_user_by_email(&self, email: &str) -> (r: Result<User, AccountError>)
        requires
            self.wf(),
        ensures
            r is Ok <==> has_email(self.user_records(), email@),
            r is Err ==> r == Err::<User, AccountError>(AccountError::NotFound),
            r matches Ok(u) ==> u == public_user(
                self.user_records()[email_position(self.user_records(), email@)],
            ),
    {
        match self.email_index(email) {
            None => Err(AccountError::NotFound),
            Some(i) => {
                let u = &self.users[i];
                Ok(User { id: u.id, first_name: u.first_name.clone(), last_name: u.last_name.clone() })
            },
        }
    }

    /// Replaces the password of an account. The new password must be strong
    /// and the current one must match the stored hash.
    pub fn update_password(&mut self, user_id: i32, old_password: &str, new_password: &str) -> (r: Result<
        (),
        AccountError,
    >)
        requires
            old(self).wf(),
        ensures
            final(self).wf(),
            !has_user(old(self).user_records(), user_id) ==> r == Err::<(), AccountError>(
                AccountError::NotFound,
            ),
            has_user(old(self).user_records(), user_id) && !spec_is_strong_password(new_password@) ==> r
                == Err::<(), AccountError>(AccountError::WeakPassword),
            has_user(old(self).user_records(), user_id) && spec_is_strong_password(new_password@)
                && bcrypt_check(
                old_password@,
                old(self).user_records()[user_position(old(self).user_records(), user_id)].password@,
            ) == Some(false) ==> r == Err::<(), AccountError>(AccountError::WrongPassword),
            has_user(old(self).user_records(), user_id) && spec_is_strong_password(new_password@)
                && bcrypt_check(
                old_password@,
                old(self).user_records()[user_position(old(self).user_records(), user_id)].password@,
            ) == Some(true) ==> (r is Ok || r == Err::<(), AccountError>(AccountError::HashFailure)),
            r is Err ==> final(self).user_records() == old(self).user_records(),
            r is Ok ==> has_user(old(self).user_records(), user_id) && spec_is_strong_password(new_password@)
                && bcrypt_check(
                old_password@,
                old(self).user_records()[user_position(old(self).user_records(), user_id)].password@,
            ) == Some(true),
            r is Ok ==> bcrypt_check(
                new_password@,
                final(self).user_records()[user_position(old(self).user_records(), user_id)].password@,
            ) == Some(true),
            r is Ok ==> password_replaced(
                old(self).user_records(),
                final(self).user_records(),
                user_position(old(self).user_records(), user_id),
            ),
            final(self).friend_records() == old(self).friend_records(),
            final(self).membership_records() == old(self).membership_records(),
            final(self).group_records() == old(self).group_records(),
            final(self).counters() == old(self).counters(),
    {
        let i = match self.user_index(user_id) {
            None => {
                return Err(AccountError::NotFound);
            },
            Some(i) => i,
        };
        if !is_strong_password(new_password) {
            return Err(AccountError::WeakPassword);
        }
        match check_password(old_password, self.users[i].password.as_str()) {
            Some(true) => {},
            Some(false) => {
                return Err(AccountError::WrongPassword);
            },
            None => {
                return Err(AccountError::HashFailure);
            },
        }
        let hashed = match hash_password(new_password) {
            Some(h) => h,
            None => {
                return Err(AccountError::HashFailure);
            },
        };
        let old_rec = &self.users[i];
        let rec = UserRecord {
            id: old_rec.id,
            first_name: old_rec.first_name.clone(),
            last_name: old_rec.last_name.clone(),
            email: old_rec.email.clone(),
            password: hashed,
        };
        self.users.set(i, rec);
        Ok(())
    }

    /// Replaces the e-mail address of an account; refused when any account
    /// uses the new address already.
    pub fn update_email(&mut self, user_id: i32, new_email: &str) -> (r: Result<(), AccountError>)
        requires
            old(self).wf(),
        ensures
            final(self).wf(),
            has_email(old(self).user_records(), new_email@) ==> r == Err::<(), AccountError>(
                AccountError::EmailInUse,
            ),
            !has_email(old(self).user_records(), new_email@) && !has_user(old(self).user_records(), user_id)
                ==> r == Err::<(), AccountError>(AccountError::NotFound),
            !has_email(old(self).user_records(), new_email@) && has_user(old(self).user_records(), user_id)
                ==> r is Ok,
            r is Err ==> final(self).user_records() == old(self).user_records(),
            r is Ok ==> final(self).user_records().len() == old(self).user_records().len() && forall|k: int|
                0 <= k < old(self).user_records().len() ==> {
                    let a = old(self).user_records()[k];
                    let b = #[trigger] final(self).user_records()[k];
                    &&& b.id == a.id
                    &&& b.first_name == a.first_name
                    &&& b.last_name == a.last_name
                    &&& b.password == a.password
                    &&& b.email@ == (if a.id == user_id {
                        new_email@
                    } else {
                        a.email@
                    })
                },
            final(self).friend_records() == old(self).friend_records(),
            final(self).membership_records() == old(self).membership_records(),
            final(self).group_records() == old(self).group_records(),
            final(self).counters() == old(self).counters(),
    {
        if self.email_index(new_email).is_some() {
            return Err(AccountError::EmailInUse);
        }
        let i = match self.user_index(user_id) {
            None => {
                return Err(AccountError::NotFound);
            },
            Some(i) => i,
        };
        let old_rec = &self.users[i];
        let rec = UserRecord {
            id: old_rec.id,
            first_name: old_rec.first_name.clone(),
            last_name: old_rec.last_name.clone(),
            email: new_email.to_string(),
            password: old_rec.password.clone(),
        };
        self.users.set(i, rec);
        Ok(())
    }

    /// Deletes the account with the id.
    pub fn delete_user(&mut self, user_id: i32) -> (r: Result<(), AccountError>)
        requires
            old(self).wf(),
        ensures
            final(self).wf(),
            r is Ok <==> has_user(old(self).user_records(), user_id),
            r is Err ==> r == Err::<(), AccountError>(AccountError::NotFound) && final(self).user_records()
                == old(self).user_records(),
            r is Ok ==> final(self).user_records() == old(self).user_records().remove(
                user_position(old(self).user_records(), user_id),
            ),
            !has_user(final(self).user_records(), user_id),
            final(self).friend_records() == old(self).friend_records(),
            final(self).membership_records() == old(self).membership_records(),
            final(self).group_records() == old(self).group_records(),
            final(self).counters() == old(self).counters(),
    {
        match self.user_index(user_id) {
            None => Err(AccountError::NotFound),
            Some(i) => {
                self.users.remove(i);
                assert(self.users@ == old(self).users@.remove(i as int));
                assert forall|k: int| 0 <= k < self.users@.len() implies self.users@[k].id != user_id by {
                    if k < i {
                        assert(old(self).users@[k] == self.users@[k]);
                    } else {
                        assert(old(self).users@[k + 1] == self.users@[k]);
                    }
                }
                Ok(())
            },
        }
    }

    /// Stores a direct message sent at `now`.
    pub fn create_user_message(&mut self, sender_id: i32, receiver_id: i32, message: &str, now: SendDate) -> (r:
        UserMessage)
        requires
            old(self).wf(),
        ensures
            final(self).wf(),
            r.sender_id == sender_id && r.receiver_id == receiver_id && r.message@ == message@ && r.send_date
                == now,
            final(self).user_message_records() == old(self).user_message_records().push(r),
            final(self).group_message_records() == old(self).group_message_records(),
            final(self).friend_records() == old(self).friend_records(),
            final(self).membership_records() == old(self).membership_records(),
            final(self).group_records() == old(self).group_records(),
            final(self).user_records() == old(self).user_records(),
            final(self).counters() == old(self).counters(),
    {
        let m = UserMessage { sender_id, receiver_id, message: message.to_string(), send_date: now };
        self.user_messages.push(m.duplicate());
        m
    }

    /// The direct messages between two users, either way, oldest first.
    pub fn find_all_messages_between_users(&self, user1_id: i32, user2_id: i32) -> (r: Vec<UserMessage>)
        ensures
            r@ == messages_between(self.user_message_records(), user1_id, user2_id),
    {
        let mut r: Vec<UserMessage> = Vec::new();
        let mut i: usize = 0;
        while i < self.user_messages.len()
            invariant
                i <= self.user_messages@.len(),
                r@ == messages_between(self.user_messages@.subrange(0, i as int), user1_id, user2_id),
            decreases self.user_messages@.len() - i,
        {
            proof {
                assert(self.user_messages@.subrange(0, i + 1).drop_last() =~= self.user_messages@.subrange(
                    0,
                    i as int,
                ));
                reveal(Seq::filter);
            }
            let m = &self.user_messages[i];
            if (m.sender_id == user1_id && m.receiver_id == user2_id) || (m.sender_id == user2_id
                && m.receiver_id == user1_id) {
                r.push(m.duplicate());
            }
            i = i + 1;
        }
        assert(self.user_messages@.subrange(0, i as int) =~= self.user_messages@);
        r
    }

    /// Deletes the direct messages from `sender_id` to `receiver_id`.
    pub fn delete_user_message(&mut self, sender_id: i32, receiver_id: i32)
        requires
            old(self).wf(),
        ensures
            final(self).wf(),
            final(self).user_message_records() == old(self).user_message_records().filter(
                |m: UserMessage| !(m.sender_id == sender_id && m.receiver_id == receiver_id),
            ),
            final(self).group_message_records() == old(self).group_message_records(),
            final(self).friend_records() == old(self).friend_records(),
            final(self).membership_records() == old(self).membership_records(),
            final(self).group_records() == old(self).group_records(),
            final(self).user_records() == old(self).user_records(),
            final(self).counters() == old(self).counters(),
    {
        let mut kept: Vec<UserMessage> = Vec::new();
        let mut i: usize = 0;
        while i < self.user_messages.len()
            invariant
                i <= self.user_messages@.len(),
                kept@ == self.user_messages@.subrange(0, i as int).filter(
                    |m: UserMessage| !(m.sender_id == sender_id && m.receiver_id == receiver_id),
                ),
            decreases self.user_messages@.len() - i,
        {
            proof {
                assert(self.user_messages@.subrange(0, i + 1).drop_last() =~= self.user_messages@.subrange(
                    0,
                    i as int,
                ));
                reveal(Seq::filter);
            }
            let m = &self.user_messages[i];
            if !(m.sender_id == sender_id && m.receiver_id == receiver_id) {
                kept.push(m.duplicate());
            }
            i = i + 1;
        }
        assert(self.user_messages@.subrange(0, i as int) =~= self.user_messages@);
        self.user_messages = kept;
    }

    /// Stores a message to a group, sent at `now`.
    pub fn create_group_message(&mut self, sender_id: i32, group_id: i32, message: &str, now: SendDate) -> (r:
        GroupMessage)
        requires
            old(self).wf(),
        ensures
            final(self).wf(),
            r.sender_id == sender_id && r.receiver_id == group_id && r.message@ == message@ && r.send_date
                == now,
            final(self).group_message_records() == old(self).group_message_records().push(r),
            final(self).user_message_records() == old(self).user_message_records(),
            final(self).friend_records() == old(self).friend_records(),
            final(self).membership_records() == old(self).membership_records(),
            final(self).group_records() == old(self).group_records(),
            final(self).user_records() == old(self).user_records(),
            final(self).counters() == old(self).counters(),
    {
        let m = GroupMessage { sender_id, receiver_id: group_id, message: message.to_string(), send_date: now };
        self.group_messages.push(m.duplicate());
        m
    }

    /// The messages of a group, oldest first.
    pub fn find_all_messages_of_group(&self, group_id: i32) -> (r: Vec<GroupMessage>)
        ensures
            r@ == messages_of_group(self.group_message_records(), group_id),
    {
        let mut r: Vec<GroupMessage> = Vec::new();
        let mut i: usize = 0;
        while i < self.group_messages.len()
            invariant
                i <= self.group_messages@.len(),
                r@ == messages_of_group(self.group_messages@.subrange(0, i as int), group_id),
            decreases self.group_messages@.len() - i,
        {
            proof {
                assert(self.group_messages@.subrange(0, i + 1).drop_last() =~= self.group_messages@.subrange(
                    0,
                    i as int,
                ));
                reveal(Seq::filter);
            }
            let m = &self.group_messages[i];
            if m.receiver_id == group_id {
                r.push(m.duplicate());
            }
            i = i + 1;
        }
        assert(self.group_messages@.subrange(0, i as int) =~= self.group_messages@);
        r
    }

    /// Deletes the messages of a group.
    pub fn delete_group_messages(&mut self, group_id: i32)
        requires
            old(self).wf(),
        ensures
            final(self).wf(),
            final(self).group_message_records() == old(self).group_message_records().filter(
                |m: GroupMessage| m.receiver_id != group_id,
            ),
            final(self).user_message_records() == old(self).user_message_records(),
            final(self).friend_records() == old(self).friend_records(),
            final(self).membership_records() == old(self).membership_records(),
            final(self).group_records() == old(self).group_records(),
            final(self).user_records() == old(self).user_records(),
            final(self).counters() == old(self).counters(),
    {
        let mut kept: Vec<GroupMessage> = Vec::new();
        let mut i: usize = 0;
        while i < self.group_messages.len()
            invariant
                i <= self.group_messages@.len(),
                kept@ == self.group_messages@.subrange(0, i as int).filter(
                    |m: GroupMessage| m.receiver_id != group_id,
                ),
            decreases self.group_messages@.len() - i,
        {
            proof {
                assert(self.group_messages@.subrange(0, i + 1).drop_last() =~= self.group_messages@.subrange(
                    0,
                    i as int,
                ));
                reveal(Seq::filter);
            }
            let m = &self.group_messages[i];
            if m.receiver_id != group_id {
                kept.push(m.duplicate());
            }
            i = i + 1;
        }
        assert(self.group_messages@.subrange(0, i as int) =~= self.group_messages@);
        self.group_messages = kept;
    }
}

/// A membership of the group makes its member list non-empty.
pub proof fn lemma_group_has_member(s: Seq<UserToGroup>, group_id: i32, i: int)
    requires
        0 <= i < s.len(),
        s[i].group_id == group_id,
    ensures
        memberships_of_group(s, group_id).len() > 0,
    decreases s.len(),
{
    reveal(Seq::filter);
    if i < s.len() - 1 {
        lemma_group_has_member(s.drop_last(), group_id, i);
    }
}

/// A group that no membership names has no members.
proof fn lemma_no_member_of_group(s: Seq<UserToGroup>, id: i32)
    requires
        forall|i: int| 0 <= i < s.len() ==> #[trigger] s[i].group_id != id,
    ensures
        memberships_of_group(s, id).len() == 0,
    decreases s.len(),
{
    reveal(Seq::filter);
    if s.len() > 0 {
        lemma_no_member_of_group(s.drop_last(), id);
    }
}

/// Whether the id is listed.
fn contains_id(ids: &Vec<i32>, id: i32) -> (r: bool)
    ensures
        r == ids@.contains(id),
{
    let mut i: usize = 0;
    while i < ids.len()
        invariant
            i <= ids@.len(),
            forall|k: int| 0 <= k < i ==> ids@[k] != id,
        decreases ids@.len() - i,
    {
        if ids[i] == id {
            assert(ids@[i as int] == id);
            return true;
        }
        i = i + 1;
    }
    false
}

} // verus!
