//! The friends screen: the four friend lists of the signed-in user and the
//! request, accept, decline and remove operations on them.
use vstd::prelude::*;

use crate::friends::{
    removal_makes_unrelated, request_then_accept_makes_friends, classify_all, find_user, first_index, has_id, lemma_no_broken, reconcile_friends, Partition,
};
use crate::models::{User, UserToUserFriend};
use crate::relation::{canonical_pair, request_record, spec_canonical_pair, spec_request_record, RelationError};
use crate::store::{has_pair, relations_of, Store};

verus! {

/// The friends screen.
#[derive(Debug, Clone)]
pub struct UserTab {
    current_user: Option<User>,
    user_to_chat_with: Option<User>,
    all_users_not_friends: Vec<User>,
    selected_user: Option<User>,
    friends: Vec<User>,
    friend_requests: Vec<User>,
    send_friend_request: Vec<User>,
}

/// The events of the friends screen.
#[derive(Debug, Clone)]
pub enum UserTabMessage {
    UserSelected(User),
    SendFriendRequestToSelectedUser,
    ChatWithUser(User),
    RemoveFriend(User),
    AcceptFriendRequest(User),
    DeclineFriendRequest(User),
    RemoveFriendRequest(User),
    Tick(Vec<User>),
}

/// Two users with equal fields.
pub open spec fn same_user(a: User, b: User) -> bool {
    a.id == b.id && a.first_name@ == b.first_name@ && a.last_name@ == b.last_name@
}

/// The list without the entries equal to `u`.
pub open spec fn without(s: Seq<User>, u: User) -> Seq<User> {
    s.filter(|x: User| !same_user(x, u))
}

/// The list without its first user of the id, if it has one.
pub open spec fn without_first(s: Seq<User>, id: i32) -> Seq<User> {
    if has_id(s, id) {
        s.remove(first_index(s, id))
    } else {
        s
    }
}

/// Whether the signed-in user `cur` is related to `other` in the records.
pub open spec fn linked(cur: Option<User>, other: i32, recs: Seq<UserToUserFriend>) -> bool {
    &&& cur is Some
    &&& cur->Some_0.id != other
    &&& has_pair(
        recs,
        spec_canonical_pair(cur->Some_0.id, other).0,
        spec_canonical_pair(cur->Some_0.id, other).1,
    )
}

/// Whether a request from `cur` to `sel` can be stored: both are set, they
/// differ, and the pair has no record yet.
pub open spec fn can_send(cur: Option<User>, sel: Option<User>, recs: Seq<UserToUserFriend>) -> bool {
    &&& cur is Some
    &&& sel is Some
    &&& !linked(cur, sel->Some_0.id, recs)
    &&& cur->Some_0.id != sel->Some_0.id
}

/// Why a friend request from `cur` to `sel` is refused: no user signed in or
/// none selected, a request to oneself, or a record for the pair exists.
pub open spec fn send_error(cur: Option<User>, sel: Option<User>) -> RelationError {
    if cur is None || sel is None {
        RelationError::Validation
    } else if cur->Some_0.id == sel->Some_0.id {
        RelationError::InvalidRelation
    } else {
        RelationError::AlreadyRelated
    }
}

/// Why an answer of `cur` about `other` is refused: no user signed in, an
/// answer about oneself, or no record for the pair.
pub open spec fn answer_error(cur: Option<User>, other: i32) -> RelationError {
    if cur is None {
        RelationError::Validation
    } else if cur->Some_0.id == other {
        RelationError::InvalidRelation
    } else {
        RelationError::NotFound
    }
}

/// `after` is `before` with the record of `(lo, hi)` accepted on both sides.
pub open spec fn accepted_in(before: Seq<UserToUserFriend>, after: Seq<UserToUserFriend>, lo: i32, hi: i32) -> bool {
    exists|i: int|
        0 <= i < before.len() && before[i].user_one_id == lo && before[i].user_two_id == hi && after
            == before.update(
            i,
            UserToUserFriend { user_one_id: lo, user_two_id: hi, accepted_user_one: true, accepted_user_two: true },
        )
}

/// `after` is `before` without the record of `(lo, hi)`.
pub open spec fn removed_from(before: Seq<UserToUserFriend>, after: Seq<UserToUserFriend>, lo: i32, hi: i32) -> bool {
    exists|i: int|
        0 <= i < before.len() && before[i].user_one_id == lo && before[i].user_two_id == hi && after
            == before.remove(i)
}

/// The canonical pair of the signed-in user and `other`.
pub open spec fn pair_with(cur: Option<User>, other: i32) -> (i32, i32) {
    spec_canonical_pair(cur->Some_0.id, other)
}

/// A copy of the list without the entries equal to `u`.
fn remove_user(v: &Vec<User>, u: &User) -> (r: Vec<User>)
    ensures
        r@ == without(v@, *u),
{
    let mut r: Vec<User> = Vec::new();
    let mut i: usize = 0;
    while i < v.len()
        invariant
            i <= v@.len(),
            r@ == without(v@.subrange(0, i as int), *u),
        decreases v@.len() - i,
    {
        proof {
            assert(v@.subrange(0, i + 1).drop_last() =~= v@.subrange(0, i as int));
            reveal(Seq::filter);
        }
        if v[i] != *u {
            r.push(v[i].duplicate());
        }
        i = i + 1;
    }
    assert(v@.subrange(0, i as int) =~= v@);
    r
}

/// What one event does to the friends screen `a`, giving `b`, and to the
/// store `sa`, giving `sb`, with the result `r`.
pub open spec fn user_tab_step(
    a: UserTab,
    b: UserTab,
    sa: Store,
    sb: Store,
    message: UserTabMessage,
    r: Result<(), RelationError>,
) -> bool {
    &&& b.current() == a.current()
    &&& sb.membership_records() == sa.membership_records()
    &&& sb.group_records() == sa.group_records()
    &&& sb.user_records() == sa.user_records()
    &&& match message {
        UserTabMessage::UserSelected(u) => r is Ok && b.selected() == Some(u)
            && b.chat_partner() == a.chat_partner() && b.lists() == a.lists()
            && sb == sa,
        UserTabMessage::ChatWithUser(u) => r is Ok && b.chat_partner() == Some(u)
            && b.selected() == a.selected() && b.lists() == a.lists()
            && sb == sa,
        UserTabMessage::SendFriendRequestToSelectedUser => b.chat_partner() == a.chat_partner()
            && if can_send(a.current(), a.selected(), sa.friend_records()) {
                &&& r is Ok
                &&& sb.friend_records() == sa.friend_records().push(
                    spec_request_record(a.current()->Some_0.id, a.selected()->Some_0.id),
                )
                &&& b.selected() is None
                &&& b.lists() == (
                    without_first(a.lists().0, a.selected()->Some_0.id),
                    a.lists().1,
                    a.lists().2,
                    a.lists().3.push(a.selected()->Some_0),
                )
            } else {
                &&& r == Err::<(), RelationError>(send_error(a.current(), a.selected()))
                &&& sb.friend_records() == sa.friend_records()
                &&& b.selected() == a.selected()
                &&& b.lists() == a.lists()
            },
        UserTabMessage::AcceptFriendRequest(u) => b.chat_partner() == a.chat_partner()
            && b.selected() == a.selected() && if linked(a.current(), u.id, sa.friend_records()) {
                &&& r is Ok
                &&& accepted_in(
                    sa.friend_records(),
                    sb.friend_records(),
                    pair_with(a.current(), u.id).0,
                    pair_with(a.current(), u.id).1,
                )
                &&& b.lists() == (
                    a.lists().0,
                    a.lists().1.push(u),
                    without(a.lists().2, u),
                    a.lists().3,
                )
            } else {
                &&& r == Err::<(), RelationError>(answer_error(a.current(), u.id))
                &&& sb.friend_records() == sa.friend_records()
                &&& b.lists() == a.lists()
            },
        UserTabMessage::RemoveFriend(u) => b.chat_partner() == a.chat_partner()
            && b.selected() == a.selected() && if linked(a.current(), u.id, sa.friend_records()) {
                &&& r is Ok
                &&& removed_from(
                    sa.friend_records(),
                    sb.friend_records(),
                    pair_with(a.current(), u.id).0,
                    pair_with(a.current(), u.id).1,
                )
                &&& b.lists() == (
                    a.lists().0.push(u),
                    without(a.lists().1, u),
                    a.lists().2,
                    a.lists().3,
                )
            } else {
                &&& r == Err::<(), RelationError>(answer_error(a.current(), u.id))
                &&& sb.friend_records() == sa.friend_records()
                &&& b.lists() == a.lists()
            },
        UserTabMessage::DeclineFriendRequest(u) => b.chat_partner() == a.chat_partner()
            && b.selected() == a.selected() && if linked(a.current(), u.id, sa.friend_records()) {
                &&& r is Ok
                &&& removed_from(
                    sa.friend_records(),
                    sb.friend_records(),
                    pair_with(a.current(), u.id).0,
                    pair_with(a.current(), u.id).1,
                )
                &&& b.lists() == (
                    a.lists().0.push(u),
                    a.lists().1,
                    without(a.lists().2, u),
                    a.lists().3,
                )
            } else {
                &&& r == Err::<(), RelationError>(answer_error(a.current(), u.id))
                &&& sb.friend_records() == sa.friend_records()
                &&& b.lists() == a.lists()
            },
        UserTabMessage::RemoveFriendRequest(u) => b.chat_partner() == a.chat_partner()
            && b.selected() == a.selected() && if linked(a.current(), u.id, sa.friend_records()) {
                &&& r is Ok
                &&& removed_from(
                    sa.friend_records(),
                    sb.friend_records(),
                    pair_with(a.current(), u.id).0,
                    pair_with(a.current(), u.id).1,
                )
                &&& b.lists() == (
                    a.lists().0.push(u),
                    a.lists().1,
                    a.lists().2,
                    without(a.lists().3, u),
                )
            } else {
                &&& r == Err::<(), RelationError>(answer_error(a.current(), u.id))
                &&& sb.friend_records() == sa.friend_records()
                &&& b.lists() == a.lists()
            },
        UserTabMessage::Tick(users) => r is Ok && sb == sa && b.selected()
            == a.selected() && b.chat_partner() == a.chat_partner() && (a.current() is Some
                ==> b.lists() == classify_all(
        a.current()->Some_0.id,
        users@,
        relations_of(sa.friend_records(), a.current()->Some_0.id),
    )) && (a.current() is None ==> b.lists() == a.lists()),
    }
}

impl UserTab {
    /// The signed-in user.
    pub closed spec fn current(&self) -> Option<User> {
        self.current_user
    }

    /// The user chosen to chat with.
    pub closed spec fn chat_partner(&self) -> Option<User> {
        self.user_to_chat_with
    }

    /// The user picked as the target of the next friend request.
    pub closed spec fn selected(&self) -> Option<User> {
        self.selected_user
    }

    /// The lists: unrelated users, friends, incoming and outgoing requests.
    pub closed spec fn lists(&self) -> Partition {
        (self.all_users_not_friends@, self.friends@, self.friend_requests@, self.send_friend_request@)
    }

    /// A screen with no user and empty lists.
    pub fn new() -> (r: UserTab)
        ensures
            r.current() is None,
            r.chat_partner() is None,
            r.selected() is None,
            r.lists() == (Seq::<User>::empty(), Seq::<User>::empty(), Seq::<User>::empty(), Seq::<
                User,
            >::empty()),
    {
        UserTab {
            current_user: None,
            user_to_chat_with: None,
            all_users_not_friends: Vec::new(),
            selected_user: None,
            friends: Vec::new(),
            friend_requests: Vec::new(),
            send_friend_request: Vec::new(),
        }
    }

    /// Sets the signed-in user.
    pub fn set_current_user(&mut self, user: User)
        ensures
            final(self).current() == Some(user),
            final(self).chat_partner() == old(self).chat_partner(),
            final(self).selected() == old(self).selected(),
            final(self).lists() == old(self).lists(),
    {
        self.current_user = Some(user);
    }

    /// Sends a friend request from the signed-in user to the selected user.
    /// On success the target leaves the unrelated users, joins the outgoing
    /// requests, and the selection is cleared; on failure nothing changes and
    /// the reason is returned.
    fn send_request(&mut self, store: &mut Store) -> (r: Result<(), RelationError>)
        requires
            old(store).wf(),
        ensures
            final(store).wf(),
            final(self).current() == old(self).current(),
            final(store).membership_records() == old(store).membership_records(),
            final(store).group_records() == old(store).group_records(),
            final(store).user_records() == old(store).user_records(),
            final(self).chat_partner() == old(self).chat_partner(),
            if can_send(old(self).current(), old(self).selected(), old(store).friend_records()) {
                &&& r is Ok
                &&& final(store).friend_records() == old(store).friend_records().push(
                    spec_request_record(old(self).current()->Some_0.id, old(self).selected()->Some_0.id),
                )
                &&& final(self).selected() is None
                &&& final(self).lists() == (
                    without_first(old(self).lists().0, old(self).selected()->Some_0.id),
                    old(self).lists().1,
                    old(self).lists().2,
                    old(self).lists().3.push(old(self).selected()->Some_0),
                )
            } else {
                &&& r == Err::<(), RelationError>(send_error(old(self).current(), old(self).selected()))
                &&& final(store).friend_records() == old(store).friend_records()
                &&& final(self).selected() == old(self).selected()
                &&& final(self).lists() == old(self).lists()
            },
    {
        let me = match &self.current_user {
            Some(u) => u.id,
            None => {
                return Err(RelationError::Validation);
            },
        };
        let target = match &self.selected_user {
            Some(u) => u.duplicate(),
            None => {
                return Err(RelationError::Validation);
            },
        };
        let rec = match request_record(me, target.id) {
            Ok(rec) => rec,
            Err(e) => {
                return Err(e);
            },
        };
        match store.create_user_friend(
            rec.user_one_id,
            rec.user_two_id,
            rec.accepted_user_one,
            rec.accepted_user_two,
        ) {
            Ok(_) => {
                match find_user(&self.all_users_not_friends, target.id) {
                    Some(j) => {
                        self.all_users_not_friends.remove(j);
                    },
                    None => {},
                }
                self.send_friend_request.push(target);
                self.selected_user = None;
                Ok(())
            },
            Err(e) => Err(e),
        }
    }

    /// Deletes the relation between the signed-in user and `other`.
    fn delete_relation(&self, store: &mut Store, other: i32) -> (r: Result<(), RelationError>)
        requires
            old(store).wf(),
        ensures
            final(store).wf(),
            final(store).membership_records() == old(store).membership_records(),
            final(store).group_records() == old(store).group_records(),
            final(store).user_records() == old(store).user_records(),
            linked(self.current(), other, old(store).friend_records()) ==> r is Ok && removed_from(
                old(store).friend_records(),
                final(store).friend_records(),
                pair_with(self.current(), other).0,
                pair_with(self.current(), other).1,
            ),
            !linked(self.current(), other, old(store).friend_records()) ==> r == Err::<(), RelationError>(
                answer_error(self.current(), other),
            ) && final(store).friend_records() == old(store).friend_records(),
    {
        let me = match &self.current_user {
            Some(u) => u.id,
            None => {
                return Err(RelationError::Validation);
            },
        };
        match canonical_pair(me, other) {
            Ok((lo, hi)) => store.delete_friend_to_friend_relation(lo, hi),
            Err(e) => Err(e),
        }
    }

    /// Accepts the relation between the signed-in user and `other`.
    fn accept_relation(&self, store: &mut Store, other: i32) -> (r: Result<(), RelationError>)
        requires
            old(store).wf(),
        ensures
            final(store).wf(),
            final(store).membership_records() == old(store).membership_records(),
            final(store).group_records() == old(store).group_records(),
            final(store).user_records() == old(store).user_records(),
            linked(self.current(), other, old(store).friend_records()) ==> r is Ok && accepted_in(
                old(store).friend_records(),
                final(store).friend_records(),
                pair_with(self.current(), other).0,
                pair_with(self.current(), other).1,
            ),
            !linked(self.current(), other, old(store).friend_records()) ==> r == Err::<(), RelationError>(
                answer_error(self.current(), other),
            ) && final(store).friend_records() == old(store).friend_records(),
    {
        let me = match &self.current_user {
            Some(u) => u.id,
            None => {
                return Err(RelationError::Validation);
            },
        };
        match canonical_pair(me, other) {
            Ok((lo, hi)) => store.acccepte_friend_request(lo, hi),
            Err(e) => Err(e),
        }
    }

    /// Applies one event of the screen and reports whether it succeeded.
    /// Selecting a user or a chat partner always succeeds. A friend request,
    /// an acceptance, a decline, a removal or a retraction changes the store
    /// and moves the user between the lists on success; on failure it
    /// changes nothing and returns the reason. A refresh rebuilds the four
    /// lists from the store and the directory.
    pub fn update(&mut self, store: &mut Store, message: UserTabMessage) -> (r: Result<(), RelationError>)
        requires
            old(store).wf(),
        ensures
            final(store).wf(),
            user_tab_step(*old(self), *final(self), *old(store), *final(store), message, r),
    {
        match message {
            UserTabMessage::UserSelected(user) => {
                self.selected_user = Some(user);
                Ok(())
            },
            UserTabMessage::ChatWithUser(user) => {
                self.user_to_chat_with = Some(user);
                Ok(())
            },
            UserTabMessage::SendFriendRequestToSelectedUser => self.send_request(store),
            UserTabMessage::RemoveFriend(user) => {
                match self.delete_relation(store, user.id) {
                    Ok(()) => {
                        self.friends = remove_user(&self.friends, &user);
                        self.all_users_not_friends.push(user);
                        Ok(())
                    },
                    Err(e) => Err(e),
                }
            },
            UserTabMessage::AcceptFriendRequest(user) => {
                match self.accept_relation(store, user.id) {
                    Ok(()) => {
                        self.friend_requests = remove_user(&self.friend_requests, &user);
                        self.friends.push(user);
                        Ok(())
                    },
                    Err(e) => Err(e),
                }
            },
            UserTabMessage::DeclineFriendRequest(user) => {
                match self.delete_relation(store, user.id) {
                    Ok(()) => {
                        self.friend_requests = remove_user(&self.friend_requests, &user);
                        self.all_users_not_friends.push(user);
                        Ok(())
                    },
                    Err(e) => Err(e),
                }
            },
            UserTabMessage::RemoveFriendRequest(user) => {
                match self.delete_relation(store, user.id) {
                    Ok(()) => {
                        self.send_friend_request = remove_user(&self.send_friend_request, &user);
                        self.all_users_not_friends.push(user);
                        Ok(())
                    },
                    Err(e) => Err(e),
                }
            },
            UserTabMessage::Tick(users) => {
                self.handle_tick(store, &users);
                Ok(())
            },
        }
    }

    /// Rebuilds the four lists from the store and the user directory.
    fn handle_tick(&mut self, store: &Store, users: &Vec<User>)
        requires
            store.wf(),
        ensures
            final(self).current() == old(self).current(),
            final(self).chat_partner() == old(self).chat_partner(),
            final(self).selected() == old(self).selected(),
            old(self).current() is None ==> final(self).lists() == old(self).lists(),
            old(self).current() is Some ==> final(self).lists() == classify_all(
                old(self).current()->Some_0.id,
                users@,
                relations_of(store.friend_records(), old(self).current()->Some_0.id),
            ),
    {
        let me = match &self.current_user {
            Some(u) => u.id,
            None => {
                return;
            },
        };
        let relations = store.find_all_user_to_user_friend_entries(me);
        proof {
            store.lemma_wf_records();
            lemma_no_broken(store.friend_records(), me);
        }
        match reconcile_friends(me, users, &relations) {
            Ok(views) => {
                self.friends = views.friends;
                self.friend_requests = views.incoming;
                self.send_friend_request = views.outgoing;
                self.all_users_not_friends = views.unrelated;
            },
            Err(_) => {},
        }
    }

    /// The signed-in user.
    pub fn get_current_user(&self) -> (r: Option<&User>)
        ensures
            r is Some <==> self.current() is Some,
            r is Some ==> *r->Some_0 == self.current()->Some_0,
    {
        self.current_user.as_ref()
    }

    /// The user chosen to chat with.
    pub fn get_user_to_chat_with(&self) -> (r: Option<&User>)
        ensures
            r is Some <==> self.chat_partner() is Some,
            r is Some ==> *r->Some_0 == self.chat_partner()->Some_0,
    {
        self.user_to_chat_with.as_ref()
    }

    /// The users with no relation to the signed-in user.
    pub fn get_all_users_not_friends(&self) -> (r: &Vec<User>)
        ensures
            r@ == self.lists().0,
    {
        &self.all_users_not_friends
    }

    /// The user picked as the target of the next friend request.
    pub fn get_selected_user(&self) -> (r: Option<&User>)
        ensures
            r is Some <==> self.selected() is Some,
            r is Some ==> *r->Some_0 == self.selected()->Some_0,
    {
        self.selected_user.as_ref()
    }

    /// The friends of the signed-in user.
    pub fn get_friends(&self) -> (r: &Vec<User>)
        ensures
            r@ == self.lists().1,
    {
        &self.friends
    }

    /// The friend requests that the signed-in user has received.
    pub fn get_friend_requests(&self) -> (r: &Vec<User>)
        ensures
            r@ == self.lists().2,
    {
        &self.friend_requests
    }

    /// The friend requests that the signed-in user has sent.
    pub fn get_send_friend_requests(&self) -> (r: &Vec<User>)
        ensures
            r@ == self.lists().3,
    {
        &self.send_friend_request
    }

    /// Adds a user to the friends.
    pub fn push_friend(&mut self, user: User)
        ensures
            final(self).lists() == (old(self).lists().0, old(self).lists().1.push(user), old(self).lists().2, old(self).lists().3),
            final(self).current() == old(self).current(),
            final(self).selected() == old(self).selected(),
            final(self).chat_partner() == old(self).chat_partner(),
    {
        self.friends.push(user);
    }

    /// Adds a user to the incoming friend requests.
    pub fn push_friend_request(&mut self, user: User)
        ensures
            final(self).lists() == (old(self).lists().0, old(self).lists().1, old(self).lists().2.push(user), old(self).lists().3),
            final(self).current() == old(self).current(),
            final(self).selected() == old(self).selected(),
            final(self).chat_partner() == old(self).chat_partner(),
    {
        self.friend_requests.push(user);
    }

    /// Adds a user to the sent friend requests.
    pub fn push_send_friend_request(&mut self, user: User)
        ensures
            final(self).lists() == (old(self).lists().0, old(self).lists().1, old(self).lists().2, old(self).lists().3.push(user)),
            final(self).current() == old(self).current(),
            final(self).selected() == old(self).selected(),
            final(self).chat_partner() == old(self).chat_partner(),
    {
        self.send_friend_request.push(user);
    }
}

impl Default for UserTab {
    fn default() -> (r: UserTab)
        ensures
            r.current() is None,
            r.chat_partner() is None,
            r.selected() is None,
            r.lists() == (Seq::<User>::empty(), Seq::<User>::empty(), Seq::<User>::empty(), Seq::<
                User,
            >::empty()),
    {
        UserTab::new()
    }
}

/// Through the screens: after `a` sends `b` a friend request and `b` accepts
/// it, the next refresh of each screen lists the other among the friends and
/// in neither request list. The directory must list both users.
pub proof fn request_then_accept_on_screens(
    ta0: UserTab,
    ta1: UserTab,
    ta2: UserTab,
    tb0: UserTab,
    tb1: UserTab,
    tb2: UserTab,
    s0: Store,
    s1: Store,
    s2: Store,
    s3: Store,
    s4: Store,
    a: User,
    b: User,
    users: Vec<User>,
    r: Seq<Result<(), RelationError>>,
)
    requires
        s0.wf(),
        r.len() == 4,
        ta0.current() == Some(a),
        ta0.selected() == Some(b),
        tb0.current() == Some(b),
        has_id(users@, a.id),
        has_id(users@, b.id),
        user_tab_step(ta0, ta1, s0, s1, UserTabMessage::SendFriendRequestToSelectedUser, r[0]),
        r[0] is Ok,
        user_tab_step(tb0, tb1, s1, s2, UserTabMessage::AcceptFriendRequest(a), r[1]),
        r[1] is Ok,
        user_tab_step(ta1, ta2, s2, s3, UserTabMessage::Tick(users), r[2]),
        user_tab_step(tb1, tb2, s3, s4, UserTabMessage::Tick(users), r[3]),
    ensures
        has_id(ta2.lists().1, b.id),
        !has_id(ta2.lists().2, b.id),
        !has_id(ta2.lists().3, b.id),
        has_id(tb2.lists().1, a.id),
        !has_id(tb2.lists().2, a.id),
        !has_id(tb2.lists().3, a.id),
{
    s0.lemma_wf_records();
    assert(can_send(ta0.current(), ta0.selected(), s0.friend_records()));
    assert(linked(tb0.current(), a.id, s1.friend_records()));
    assert(spec_canonical_pair(b.id, a.id) == spec_canonical_pair(a.id, b.id));
    request_then_accept_makes_friends(
        s0.friend_records(),
        s1.friend_records(),
        s2.friend_records(),
        users@,
        a.id,
        b.id,
    );
}

/// Through the screens: after `a` removes its friend `b`, the next refresh of
/// each screen lists the other among the unrelated users and in no other
/// list. The directory must list both users.
pub proof fn removal_on_screens(
    ta0: UserTab,
    ta1: UserTab,
    ta2: UserTab,
    tb0: UserTab,
    tb1: UserTab,
    s0: Store,
    s1: Store,
    s2: Store,
    s3: Store,
    a: User,
    b: User,
    users: Vec<User>,
    r: Seq<Result<(), RelationError>>,
)
    requires
        s0.wf(),
        r.len() == 3,
        ta0.current() == Some(a),
        tb0.current() == Some(b),
        has_id(users@, a.id),
        has_id(users@, b.id),
        user_tab_step(ta0, ta1, s0, s1, UserTabMessage::RemoveFriend(b), r[0]),
        r[0] is Ok,
        user_tab_step(ta1, ta2, s1, s2, UserTabMessage::Tick(users), r[1]),
        user_tab_step(tb0, tb1, s2, s3, UserTabMessage::Tick(users), r[2]),
    ensures
        has_id(ta2.lists().0, b.id),
        !has_id(ta2.lists().1, b.id),
        !has_id(ta2.lists().2, b.id),
        !has_id(ta2.lists().3, b.id),
        has_id(tb1.lists().0, a.id),
        !has_id(tb1.lists().1, a.id),
        !has_id(tb1.lists().2, a.id),
        !has_id(tb1.lists().3, a.id),
{
    s0.lemma_wf_records();
    assert(linked(ta0.current(), b.id, s0.friend_records()));
    removal_makes_unrelated(s0.friend_records(), s1.friend_records(), users@, a.id, b.id);
}

} // verus!
