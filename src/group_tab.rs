//! The groups screen: creating groups, inviting friends, accepting
//! invitations and leaving groups.
use vstd::prelude::*;

use crate::friends::{classify_all, lemma_no_broken, reconcile_friends};
use crate::groups::{
    created_group_is_member_view, deleted_group_leaves_views, group_view, lists_group,
    accept_invite, create_group_with_creator, has_pending, ids_with_flag, invite_user, leave_group,
    reconcile_groups,
};
use crate::models::{Group, User, UserToGroup};
use crate::relation::RelationError;
use crate::store::{
    groups_for_ids, has_group, has_membership, memberships_of_group, memberships_of_user, relations_of, Store,
};
use crate::text::concat;

verus! {

/// The groups screen.
#[derive(Debug, Clone)]
pub struct GroupTab {
    current_user: Option<User>,
    group_to_chat_with: Option<Group>,
    new_group_name: String,
    friends_of_user: Vec<User>,
    selected_user: Option<User>,
    groups_of_user: Vec<Group>,
    invited_groups: Vec<Group>,
    error: String,
    info: String,
}

/// The events of the groups screen.
#[derive(Debug, Clone)]
pub enum GroupTabMessage {
    GroupNameChanged(String),
    CreateGroup,
    UserSelected(User),
    InviteUserToGroup(Group),
    ChatWithGroup(Group),
    LeaveGroup(Group),
    AcceptGroup(Group),
    Tick(Vec<User>),
}

/// The list without the groups of the id.
pub open spec fn without_group(s: Seq<Group>, id: i32) -> Seq<Group> {
    s.filter(|g: Group| g.id != id)
}

/// `after` is `before` with the membership of the user in the group accepted.
pub open spec fn invite_accepted(before: Seq<UserToGroup>, after: Seq<UserToGroup>, user_id: i32, group_id: i32) -> bool {
    exists|i: int|
        0 <= i < before.len() && before[i].user_id == user_id && before[i].group_id == group_id && after
            == before.update(i, UserToGroup { user_id, group_id, accepted_invite: true })
}

/// `after` is `before` without the membership of the user in the group.
pub open spec fn membership_removed(before: Seq<UserToGroup>, after: Seq<UserToGroup>, user_id: i32, group_id: i32) -> bool {
    exists|i: int|
        0 <= i < before.len() && before[i].user_id == user_id && before[i].group_id == group_id && after
            == before.remove(i)
}

/// Why accepting or leaving is refused: no user signed in, or no such
/// membership.
pub open spec fn membership_error(cur: Option<User>) -> RelationError {
    if cur is None {
        RelationError::Validation
    } else {
        RelationError::NotFound
    }
}

/// A copy of the list without the groups of the id.
fn remove_group(v: &Vec<Group>, id: i32) -> (r: Vec<Group>)
    ensures
        r@ == without_group(v@, id),
{
    let mut r: Vec<Group> = Vec::new();
    let mut i: usize = 0;
    while i < v.len()
        invariant
            i <= v@.len(),
            r@ == without_group(v@.subrange(0, i as int), id),
        decreases v@.len() - i,
    {
        proof {
            assert(v@.subrange(0, i + 1).drop_last() =~= v@.subrange(0, i as int));
            reveal(Seq::filter);
        }
        if v[i].id != id {
            r.push(v[i].duplicate());
        }
        i = i + 1;
    }
    assert(v@.subrange(0, i as int) =~= v@);
    r
}

/// What one event does to the groups screen `a`, giving `b`, and to the
/// store `sa`, giving `sb`, with the result `r`.
pub open spec fn group_tab_step(
    a: GroupTab,
    b: GroupTab,
    sa: Store,
    sb: Store,
    message: GroupTabMessage,
    r: Result<(), RelationError>,
) -> bool {
    &&& b.current() == a.current()
    &&& sb.friend_records() == sa.friend_records()
    &&& sb.user_records() == sa.user_records()
    &&& match message {
        GroupTabMessage::GroupNameChanged(name) => r is Ok && b.group_name() == name@
            && sb == sa && b.member_groups() == a.member_groups() && b.invitations() == a.invitations()
                && b.friends() == a.friends() && b.selected() == a.selected(),
        GroupTabMessage::UserSelected(u) => r is Ok && b.selected() == Some(u) && sb
            == sa && b.member_groups() == a.member_groups() && b.invitations() == a.invitations()
                && b.friends() == a.friends() && b.chat_group() == a.chat_group()
                && b.group_name() == a.group_name(),
        GroupTabMessage::ChatWithGroup(g) => r is Ok && b.chat_group() == Some(g) && sb
            == sa && b.member_groups() == a.member_groups() && b.invitations() == a.invitations()
                && b.friends() == a.friends() && b.group_name() == a.group_name(),
        GroupTabMessage::CreateGroup => b.chat_group() == a.chat_group()
            && b.group_name() == a.group_name() && b.selected() == a.selected()
            && b.invitations() == a.invitations() && if a.group_name().len() == 0 {
                &&& r == Err::<(), RelationError>(RelationError::Validation)
                &&& b.error_text() == "Group name cannot be empty"@
                &&& b.info_text() == Seq::<char>::empty()
                &&& sb == sa
                &&& b.member_groups() == a.member_groups()
            } else if a.current() is None || !sa.can_create_group() {
                &&& r == Err::<(), RelationError>(
                    if a.current() is None {
                        RelationError::Validation
                    } else {
                        RelationError::Storage
                    },
                )
                &&& b.error_text() == "Error creating group: "@ + a.group_name()
                &&& b.info_text() == Seq::<char>::empty()
                &&& sb.group_records() == sa.group_records()
                &&& sb.membership_records() == sa.membership_records()
                &&& b.member_groups() == a.member_groups()
            } else {
                &&& r is Ok
                &&& b.error_text() == Seq::<char>::empty()
                &&& b.info_text() == "Group "@ + a.group_name() + " created"@
                &&& exists|g: Group|
                    #![trigger sa.group_records().push(g)]
                    g.name@ == a.group_name() && !has_group(sa.group_records(), g.id)
                        && memberships_of_group(sa.membership_records(), g.id).len() == 0
                        && sb.group_records() == sa.group_records().push(g)
                        && sb.membership_records() == sa.membership_records().push(
                        UserToGroup { user_id: a.current()->Some_0.id, group_id: g.id, accepted_invite: true },
                    ) && b.member_groups() == a.member_groups().push(g)
            },
        GroupTabMessage::InviteUserToGroup(g) => b.chat_group() == a.chat_group()
            && b.group_name() == a.group_name() && sb.group_records() == sa.group_records()
            && b.member_groups() == a.member_groups() && b.invitations() == a.invitations()
            && b.friends() == a.friends() && if a.selected() is None {
                &&& r == Err::<(), RelationError>(RelationError::Validation)
                &&& b.error_text() == "Select a user to invite"@
                &&& b.info_text() == Seq::<char>::empty()
                &&& sb.membership_records() == sa.membership_records()
            } else {
                let t = a.selected()->Some_0;
                let who = "User "@ + t.first_name@ + " "@ + t.last_name@;
                &&& b.selected() is None
                &&& if has_group(sa.group_records(), g.id) && !has_membership(
                    sa.membership_records(),
                    t.id,
                    g.id,
                ) {
                    &&& r is Ok
                    &&& sb.membership_records() == sa.membership_records().push(
                        UserToGroup { user_id: t.id, group_id: g.id, accepted_invite: false },
                    )
                    &&& b.info_text() == who + " invited to group "@ + g.name@
                    &&& b.error_text() == Seq::<char>::empty()
                } else {
                    &&& r == Err::<(), RelationError>(
                        if has_membership(sa.membership_records(), t.id, g.id) {
                            RelationError::AlreadyMember
                        } else {
                            RelationError::NotFound
                        },
                    )
                    &&& sb.membership_records() == sa.membership_records()
                    &&& b.error_text() == who + " is already in group "@ + g.name@
                    &&& b.info_text() == Seq::<char>::empty()
                }
            },
        GroupTabMessage::AcceptGroup(g) => b.chat_group() == a.chat_group()
            && b.group_name() == a.group_name() && sb.group_records() == sa.group_records()
            && b.selected() == a.selected() && if a.current() is Some && has_pending(
        sa.membership_records(),
        a.current()->Some_0.id,
        g.id,
    ) {
                &&& r is Ok
                &&& invite_accepted(
                    sa.membership_records(),
                    sb.membership_records(),
                    a.current()->Some_0.id,
                    g.id,
                )
                &&& b.invitations() == without_group(a.invitations(), g.id)
                &&& b.member_groups() == a.member_groups().push(g)
                &&& b.info_text() == "Accepted invite to group "@ + g.name@
                &&& b.error_text() == Seq::<char>::empty()
            } else {
                &&& r == Err::<(), RelationError>(membership_error(a.current()))
                &&& sb.membership_records() == sa.membership_records()
                &&& b.invitations() == a.invitations()
                &&& b.member_groups() == a.member_groups()
                &&& b.error_text() == "Error accepting invite to group: "@ + g.name@
                &&& b.info_text() == Seq::<char>::empty()
            },
        GroupTabMessage::LeaveGroup(g) => b.chat_group() == a.chat_group()
            && b.group_name() == a.group_name() && b.selected() == a.selected() && if a.current() is Some
            && has_membership(
        sa.membership_records(),
        a.current()->Some_0.id,
        g.id,
    ) {
                &&& r is Ok
                &&& membership_removed(
                    sa.membership_records(),
                    sb.membership_records(),
                    a.current()->Some_0.id,
                    g.id,
                )
                &&& memberships_of_group(sb.membership_records(), g.id).len() == 0 ==> !has_group(
                    sb.group_records(),
                    g.id,
                )
                &&& memberships_of_group(sb.membership_records(), g.id).len() > 0
                    ==> sb.group_records() == sa.group_records()
                &&& b.invitations() == without_group(a.invitations(), g.id)
                &&& b.member_groups() == without_group(a.member_groups(), g.id)
                &&& b.info_text() == "Left group "@ + g.name@
                &&& b.error_text() == Seq::<char>::empty()
            } else {
                &&& r == Err::<(), RelationError>(membership_error(a.current()))
                &&& sb.membership_records() == sa.membership_records()
                &&& sb.group_records() == sa.group_records()
                &&& b.invitations() == a.invitations()
                &&& b.member_groups() == a.member_groups()
                &&& b.error_text() == "Error leaving group: "@ + g.name@
                &&& b.info_text() == Seq::<char>::empty()
            },
        GroupTabMessage::Tick(users) => r is Ok && sb == sa && b.chat_group() == a.chat_group()
            && b.group_name() == a.group_name() && b.selected() == a.selected() && (a.current() is None
            ==> b.member_groups() == a.member_groups()
        && b.invitations() == a.invitations() && b.friends() == a.friends()) && (a.current() is Some ==> {
                let me = a.current()->Some_0.id;
                let ms = memberships_of_user(sa.membership_records(), me);
                &&& b.member_groups() == groups_for_ids(sa.group_records(), ids_with_flag(ms, true))
                &&& b.invitations() == groups_for_ids(sa.group_records(), ids_with_flag(ms, false))
                &&& b.friends() == classify_all(me, users@, relations_of(sa.friend_records(), me)).1
            }),
    }
}

impl GroupTab {
    /// The signed-in user.
    pub closed spec fn current(&self) -> Option<User> {
        self.current_user
    }

    /// The group chosen to chat in.
    pub closed spec fn chat_group(&self) -> Option<Group> {
        self.group_to_chat_with
    }

    /// The friend picked for the next invitation.
    pub closed spec fn selected(&self) -> Option<User> {
        self.selected_user
    }

    /// The name typed for a new group.
    pub closed spec fn group_name(&self) -> Seq<char> {
        self.new_group_name@
    }

    /// The friends of the signed-in user.
    pub closed spec fn friends(&self) -> Seq<User> {
        self.friends_of_user@
    }

    /// The groups the signed-in user belongs to.
    pub closed spec fn member_groups(&self) -> Seq<Group> {
        self.groups_of_user@
    }

    /// The groups the signed-in user is invited to.
    pub closed spec fn invitations(&self) -> Seq<Group> {
        self.invited_groups@
    }

    /// The error line.
    pub closed spec fn error_text(&self) -> Seq<char> {
        self.error@
    }

    /// The information line.
    pub closed spec fn info_text(&self) -> Seq<char> {
        self.info@
    }

    /// A screen with no user, no name and empty lists.
    pub fn new() -> (r: GroupTab)
        ensures
            r.current() is None,
            r.chat_group() is None,
            r.selected() is None,
            r.group_name() == Seq::<char>::empty(),
            r.friends() == Seq::<User>::empty(),
            r.member_groups() == Seq::<Group>::empty(),
            r.invitations() == Seq::<Group>::empty(),
            r.error_text() == Seq::<char>::empty(),
            r.info_text() == Seq::<char>::empty(),
    {
        GroupTab {
            current_user: None,
            group_to_chat_with: None,
            new_group_name: String::new(),
            friends_of_user: Vec::new(),
            selected_user: None,
            groups_of_user: Vec::new(),
            invited_groups: Vec::new(),
            error: String::new(),
            info: String::new(),
        }
    }

    /// Sets the signed-in user.
    pub fn set_current_user(&mut self, user: User)
        ensures
            final(self).current() == Some(user),
            final(self).member_groups() == old(self).member_groups(),
            final(self).invitations() == old(self).invitations(),
            final(self).selected() == old(self).selected(),
            final(self).group_name() == old(self).group_name(),
    {
        self.current_user = Some(user);
    }

    /// Creates a group with the typed name and the signed-in user as member.
    fn create_group(&mut self, store: &mut Store) -> (r: Result<(), RelationError>)
        requires
            old(store).wf(),
        ensures
            final(store).wf(),
            final(self).current() == old(self).current(),
            final(store).friend_records() == old(store).friend_records(),
            final(store).user_records() == old(store).user_records(),
            final(self).chat_group() == old(self).chat_group(),
            final(self).group_name() == old(self).group_name(),
            if old(self).group_name().len() == 0 {
                &&& r == Err::<(), RelationError>(RelationError::Validation)
                &&& final(self).error_text() == "Group name cannot be empty"@
                &&& final(self).info_text() == Seq::<char>::empty()
                &&& *final(store) == *old(store)
                &&& final(self).member_groups() == old(self).member_groups()
            } else if old(self).current() is None || !old(store).can_create_group() {
                &&& r == Err::<(), RelationError>(
                    if old(self).current() is None {
                        RelationError::Validation
                    } else {
                        RelationError::Storage
                    },
                )
                &&& final(self).error_text() == "Error creating group: "@ + old(self).group_name()
                &&& final(self).info_text() == Seq::<char>::empty()
                &&& final(store).group_records() == old(store).group_records()
                &&& final(store).membership_records() == old(store).membership_records()
                &&& final(self).member_groups() == old(self).member_groups()
            } else {
                &&& r is Ok
                &&& final(self).error_text() == Seq::<char>::empty()
                &&& final(self).info_text() == "Group "@ + old(self).group_name() + " created"@
                &&& exists|g: Group|
                    #![trigger old(store).group_records().push(g)]
                    g.name@ == old(self).group_name() && !has_group(old(store).group_records(), g.id)
                        && memberships_of_group(old(store).membership_records(), g.id).len() == 0
                        && final(store).group_records() == old(store).group_records().push(g)
                        && final(store).membership_records() == old(store).membership_records().push(
                        UserToGroup { user_id: old(self).current()->Some_0.id, group_id: g.id, accepted_invite: true },
                    ) && final(self).member_groups() == old(self).member_groups().push(g)
            },
            final(self).selected() == old(self).selected(),
            final(self).invitations() == old(self).invitations(),
            final(self).friends() == old(self).friends(),
    {
        if self.new_group_name.as_str().is_empty() {
            self.error = "Group name cannot be empty".to_string();
            self.info = String::new();
            return Err(RelationError::Validation);
        }
        let me = match &self.current_user {
            Some(u) => u.id,
            None => {
                self.error = concat("Error creating group: ", self.new_group_name.as_str());
                self.info = String::new();
                return Err(RelationError::Validation);
            },
        };
        match create_group_with_creator(store, me, self.new_group_name.as_str()) {
            Ok(group) => {
                let with_name = concat("Group ", group.name.as_str());
                self.info = concat(with_name.as_str(), " created");
                self.error = String::new();
                self.groups_of_user.push(group);
                Ok(())
            },
            Err(e) => {
                self.error = concat("Error creating group: ", self.new_group_name.as_str());
                self.info = String::new();
                Err(e)
            },
        }
    }

    /// Invites the selected friend to the group.
    fn invite_selected(&mut self, store: &mut Store, g: Group) -> (r: Result<(), RelationError>)
        requires
            old(store).wf(),
        ensures
            final(store).wf(),
            final(self).current() == old(self).current(),
            final(store).friend_records() == old(store).friend_records(),
            final(store).user_records() == old(store).user_records(),
            final(self).chat_group() == old(self).chat_group(),
            final(self).group_name() == old(self).group_name(),
            if old(self).selected() is None {
                &&& r == Err::<(), RelationError>(RelationError::Validation)
                &&& final(self).error_text() == "Select a user to invite"@
                &&& final(self).info_text() == Seq::<char>::empty()
                &&& final(store).membership_records() == old(store).membership_records()
            } else {
                let t = old(self).selected()->Some_0;
                let who = "User "@ + t.first_name@ + " "@ + t.last_name@;
                &&& final(self).selected() is None
                &&& if has_group(old(store).group_records(), g.id) && !has_membership(
                    old(store).membership_records(),
                    t.id,
                    g.id,
                ) {
                    &&& r is Ok
                    &&& final(store).membership_records() == old(store).membership_records().push(
                        UserToGroup { user_id: t.id, group_id: g.id, accepted_invite: false },
                    )
                    &&& final(self).info_text() == who + " invited to group "@ + g.name@
                    &&& final(self).error_text() == Seq::<char>::empty()
                } else {
                    &&& r == Err::<(), RelationError>(
                        if has_membership(old(store).membership_records(), t.id, g.id) {
                            RelationError::AlreadyMember
                        } else {
                            RelationError::NotFound
                        },
                    )
                    &&& final(store).membership_records() == old(store).membership_records()
                    &&& final(self).error_text() == who + " is already in group "@ + g.name@
                    &&& final(self).info_text() == Seq::<char>::empty()
                }
            },
            final(store).group_records() == old(store).group_records(),
            final(self).member_groups() == old(self).member_groups(),
            final(self).invitations() == old(self).invitations(),
            final(self).friends() == old(self).friends(),
    {
        match &self.selected_user {
            Some(user) => {
                let first = concat("User ", user.first_name.as_str());
                let space = concat(first.as_str(), " ");
                let full = concat(space.as_str(), user.last_name.as_str());
                let r = match invite_user(store, user.id, g.id) {
                    Ok(_) => {
                        let lead = concat(full.as_str(), " invited to group ");
                        self.info = concat(lead.as_str(), g.name.as_str());
                        self.error = String::new();
                        Ok(())
                    },
                    Err(e) => {
                        let lead = concat(full.as_str(), " is already in group ");
                        self.error = concat(lead.as_str(), g.name.as_str());
                        self.info = String::new();
                        Err(e)
                    },
                };
                self.selected_user = None;
                r
            },
            None => {
                self.error = "Select a user to invite".to_string();
                self.info = String::new();
                Err(RelationError::Validation)
            },
        }
    }

    /// Accepts the signed-in user's invitation to the group.
    fn accept_group(&mut self, store: &mut Store, g: Group) -> (r: Result<(), RelationError>)
        requires
            old(store).wf(),
        ensures
            final(store).wf(),
            final(self).current() == old(self).current(),
            final(store).friend_records() == old(store).friend_records(),
            final(store).user_records() == old(store).user_records(),
            final(self).chat_group() == old(self).chat_group(),
            final(self).group_name() == old(self).group_name(),
            if old(self).current() is Some && has_pending(
                old(store).membership_records(),
                old(self).current()->Some_0.id,
                g.id,
            ) {
                &&& r is Ok
                &&& invite_accepted(
                    old(store).membership_records(),
                    final(store).membership_records(),
                    old(self).current()->Some_0.id,
                    g.id,
                )
                &&& final(self).invitations() == without_group(old(self).invitations(), g.id)
                &&& final(self).member_groups() == old(self).member_groups().push(g)
                &&& final(self).info_text() == "Accepted invite to group "@ + g.name@
                &&& final(self).error_text() == Seq::<char>::empty()
            } else {
                &&& r == Err::<(), RelationError>(membership_error(old(self).current()))
                &&& final(store).membership_records() == old(store).membership_records()
                &&& final(self).invitations() == old(self).invitations()
                &&& final(self).member_groups() == old(self).member_groups()
                &&& final(self).error_text() == "Error accepting invite to group: "@ + g.name@
                &&& final(self).info_text() == Seq::<char>::empty()
            },
            final(store).group_records() == old(store).group_records(),
            final(self).selected() == old(self).selected(),
            final(self).friends() == old(self).friends(),
    {
        let me = match &self.current_user {
            Some(u) => u.id,
            None => {
                self.error = concat("Error accepting invite to group: ", g.name.as_str());
                self.info = String::new();
                return Err(RelationError::Validation);
            },
        };
        match accept_invite(store, me, g.id) {
            Ok(_) => {
                self.info = concat("Accepted invite to group ", g.name.as_str());
                self.error = String::new();
                self.invited_groups = remove_group(&self.invited_groups, g.id);
                self.groups_of_user.push(g);
                Ok(())
            },
            Err(e) => {
                self.error = concat("Error accepting invite to group: ", g.name.as_str());
                self.info = String::new();
                Err(e)
            },
        }
    }

    /// Leaves the group, or declines the invitation to it; a group left without members is deleted.
    fn leave(&mut self, store: &mut Store, g: Group) -> (r: Result<(), RelationError>)
        requires
            old(store).wf(),
        ensures
            final(store).wf(),
            final(self).current() == old(self).current(),
            final(store).friend_records() == old(store).friend_records(),
            final(store).user_records() == old(store).user_records(),
            final(self).chat_group() == old(self).chat_group(),
            final(self).group_name() == old(self).group_name(),
            if old(self).current() is Some && has_membership(
                old(store).membership_records(),
                old(self).current()->Some_0.id,
                g.id,
            ) {
                &&& r is Ok
                &&& membership_removed(
                    old(store).membership_records(),
                    final(store).membership_records(),
                    old(self).current()->Some_0.id,
                    g.id,
                )
                &&& memberships_of_group(final(store).membership_records(), g.id).len() == 0 ==> !has_group(
                    final(store).group_records(),
                    g.id,
                )
                &&& memberships_of_group(final(store).membership_records(), g.id).len() > 0
                    ==> final(store).group_records() == old(store).group_records()
                &&& final(self).invitations() == without_group(old(self).invitations(), g.id)
                &&& final(self).member_groups() == without_group(old(self).member_groups(), g.id)
                &&& final(self).info_text() == "Left group "@ + g.name@
                &&& final(self).error_text() == Seq::<char>::empty()
            } else {
                &&& r == Err::<(), RelationError>(membership_error(old(self).current()))
                &&& final(store).membership_records() == old(store).membership_records()
                &&& final(store).group_records() == old(store).group_records()
                &&& final(self).invitations() == old(self).invitations()
                &&& final(self).member_groups() == old(self).member_groups()
                &&& final(self).error_text() == "Error leaving group: "@ + g.name@
                &&& final(self).info_text() == Seq::<char>::empty()
            },
            final(self).selected() == old(self).selected(),
            final(self).friends() == old(self).friends(),
    {
        let me = match &self.current_user {
            Some(u) => u.id,
            None => {
                self.error = concat("Error leaving group: ", g.name.as_str());
                self.info = String::new();
                return Err(RelationError::Validation);
            },
        };
        match leave_group(store, me, g.id) {
            Ok(_) => {
                self.info = concat("Left group ", g.name.as_str());
                self.error = String::new();
                self.groups_of_user = remove_group(&self.groups_of_user, g.id);
                self.invited_groups = remove_group(&self.invited_groups, g.id);
                Ok(())
            },
            Err(e) => {
                self.error = concat("Error leaving group: ", g.name.as_str());
                self.info = String::new();
                Err(e)
            },
        }
    }

    /// Rebuilds the friends, groups and invitations of the signed-in user.
    fn handle_tick(&mut self, store: &Store, users: &Vec<User>)
        requires
            store.wf(),
        ensures
            final(self).current() == old(self).current(),
            final(self).selected() == old(self).selected(),
            final(self).chat_group() == old(self).chat_group(),
            final(self).group_name() == old(self).group_name(),
            final(self).error_text() == old(self).error_text(),
            final(self).info_text() == old(self).info_text(),
            ({
                let old_store = store;
                (old(self).current() is None ==> final(self).member_groups() == old(self).member_groups()
                && final(self).invitations() == old(self).invitations()
                    && final(self).friends() == old(self).friends()) && (old(self).current() is Some ==> {
                let me = old(self).current()->Some_0.id;
                let ms = memberships_of_user(old_store.membership_records(), me);
                &&& final(self).member_groups() == groups_for_ids(old_store.group_records(), ids_with_flag(ms, true))
                &&& final(self).invitations() == groups_for_ids(old_store.group_records(), ids_with_flag(ms, false))
                &&& final(self).friends() == classify_all(me, users@, relations_of(old_store.friend_records(), me)).1
            })
            }),
    {
        let me = match &self.current_user {
            Some(u) => u.id,
            None => {
                return;
            },
        };
        let relations = store.find_all_user_to_user_friend_entries(me);
        proof {
            store.lemma_wf_records();
            lemma_no_broken(store.friend_records(), me);
        }
        match reconcile_friends(me, users, &relations) {
            Ok(views) => {
                self.friends_of_user = views.friends;
            },
            Err(_) => {},
        }
        let views = reconcile_groups(store, me);
        self.groups_of_user = views.member;
        self.invited_groups = views.invited;
    }

    /// Applies one event of the screen and reports whether it succeeded.
    /// Creating a group, inviting, accepting and leaving change the store on
    /// success and set the information line; on failure they leave the store
    /// and the lists as they were, set the error line and return the reason.
    /// A refresh rebuilds the friends, groups and invitations.
    pub fn update(&mut self, store: &mut Store, message: GroupTabMessage) -> (r: Result<(), RelationError>)
        requires
            old(store).wf(),
        ensures
            final(store).wf(),
            group_tab_step(*old(self), *final(self), *old(store), *final(store), message, r),
    {
        match message {
            GroupTabMessage::UserSelected(user) => {
                self.selected_user = Some(user);
                Ok(())
            },
            GroupTabMessage::GroupNameChanged(name) => {
                self.new_group_name = name;
                Ok(())
            },
            GroupTabMessage::ChatWithGroup(group) => {
                self.group_to_chat_with = Some(group);
                Ok(())
            },
            GroupTabMessage::CreateGroup => self.create_group(store),
            GroupTabMessage::InviteUserToGroup(group) => self.invite_selected(store, group),
            GroupTabMessage::LeaveGroup(group) => self.leave(store, group),
            GroupTabMessage::AcceptGroup(group) => self.accept_group(store, group),
            GroupTabMessage::Tick(users) => {
                self.handle_tick(store, &users);
                Ok(())
            },
        }
    }

    /// The signed-in user.
    pub fn get_current_user(&self) -> (r: &Option<User>)
        ensures
            *r == self.current(),
    {
        &self.current_user
    }

    /// The group chosen to chat in.
    pub fn get_group_to_chat_with(&self) -> (r: &Option<Group>)
        ensures
            *r == self.chat_group(),
    {
        &self.group_to_chat_with
    }

    /// The name typed for a new group.
    pub fn get_new_group_name(&self) -> (r: &str)
        ensures
            r@ == self.group_name(),
    {
        self.new_group_name.as_str()
    }

    /// The friend picked for the next invitation.
    pub fn get_selected_user(&self) -> (r: &Option<User>)
        ensures
            *r == self.selected(),
    {
        &self.selected_user
    }

    /// The groups the signed-in user belongs to.
    pub fn get_groups_of_user(&self) -> (r: &Vec<Group>)
        ensures
            r@ == self.member_groups(),
    {
        &self.groups_of_user
    }

    /// The groups the signed-in user is invited to.
    pub fn get_invited_groups(&self) -> (r: &Vec<Group>)
        ensures
            r@ == self.invitations(),
    {
        &self.invited_groups
    }

    /// The friends of the signed-in user.
    pub fn get_friends_of_user(&self) -> (r: &Vec<User>)
        ensures
            r@ == self.friends(),
    {
        &self.friends_of_user
    }

    /// The error line.
    pub fn get_error(&self) -> (r: &str)
        ensures
            r@ == self.error_text(),
    {
        self.error.as_str()
    }

    /// The information line.
    pub fn get_info(&self) -> (r: &str)
        ensures
            r@ == self.info_text(),
    {
        self.info.as_str()
    }

    /// Replaces the error line.
    pub fn set_error(&mut self, error: String)
        ensures
            final(self).error_text() == error@,
            final(self).info_text() == old(self).info_text(),
    {
        self.error = error;
    }

    /// Replaces the information line.
    pub fn set_info(&mut self, info: String)
        ensures
            final(self).info_text() == info@,
            final(self).error_text() == old(self).error_text(),
    {
        self.info = info;
    }

    /// Adds a group to the invitations.
    pub fn push_invited_groups(&mut self, group: Group)
        ensures
            final(self).invitations() == old(self).invitations().push(group),
            final(self).member_groups() == old(self).member_groups(),
    {
        self.invited_groups.push(group);
    }

    /// Adds a group to the groups of the user.
    pub fn push_groups_of_user(&mut self, group: Group)
        ensures
            final(self).member_groups() == old(self).member_groups().push(group),
            final(self).invitations() == old(self).invitations(),
    {
        self.groups_of_user.push(group);
    }
}

impl Default for GroupTab {
    fn default() -> (r: GroupTab)
        ensures
            r.current() is None,
            r.selected() is None,
            r.group_name() == Seq::<char>::empty(),
            r.member_groups() == Seq::<Group>::empty(),
            r.invitations() == Seq::<Group>::empty(),
            r.error_text() == Seq::<char>::empty(),
            r.info_text() == Seq::<char>::empty(),
    {
        GroupTab::new()
    }
}

/// A group that its creator has just formed through the screen shows, on the
/// creator's next refresh, among the creator's groups and never among the
/// invitations.
pub proof fn created_group_shows_as_member(
    t0: GroupTab,
    t1: GroupTab,
    t2: GroupTab,
    s0: Store,
    s1: Store,
    s2: Store,
    users: Vec<User>,
    r1: Result<(), RelationError>,
    r2: Result<(), RelationError>,
)
    requires
        group_tab_step(t0, t1, s0, s1, GroupTabMessage::CreateGroup, r1),
        r1 is Ok,
        group_tab_step(t1, t2, s1, s2, GroupTabMessage::Tick(users), r2),
    ensures
        t0.current() is Some,
        exists|g: Group|
            g.name@ == t0.group_name() && lists_group(t2.member_groups(), g.id) && !lists_group(
                t2.invitations(),
                g.id,
            ),
{
    let me = t0.current()->Some_0.id;
    let g = choose|g: Group|
        #![trigger s0.group_records().push(g)]
        g.name@ == t0.group_name() && !has_group(s0.group_records(), g.id) && memberships_of_group(
            s0.membership_records(),
            g.id,
        ).len() == 0 && s1.group_records() == s0.group_records().push(g) && s1.membership_records()
            == s0.membership_records().push(UserToGroup { user_id: me, group_id: g.id, accepted_invite: true })
            && t1.member_groups() == t0.member_groups().push(g);
    created_group_is_member_view(s0.group_records(), s0.membership_records(), me, g);
    assert(t2.member_groups() == group_view(s1.group_records(), s1.membership_records(), me, true));
    assert(t2.invitations() == group_view(s1.group_records(), s1.membership_records(), me, false));
}

/// Once the last member has left a group through the screen, the group is
/// gone from the store, and no user's next refresh lists it among groups or
/// invitations.
pub proof fn left_group_leaves_every_view(
    t0: GroupTab,
    t1: GroupTab,
    u0: GroupTab,
    u1: GroupTab,
    s0: Store,
    s1: Store,
    s2: Store,
    g: Group,
    users: Vec<User>,
    r1: Result<(), RelationError>,
    r2: Result<(), RelationError>,
)
    requires
        group_tab_step(t0, t1, s0, s1, GroupTabMessage::LeaveGroup(g), r1),
        r1 is Ok,
        memberships_of_group(s1.membership_records(), g.id).len() == 0,
        group_tab_step(u0, u1, s1, s2, GroupTabMessage::Tick(users), r2),
        u0.current() is Some,
    ensures
        !has_group(s1.group_records(), g.id),
        !lists_group(u1.member_groups(), g.id),
        !lists_group(u1.invitations(), g.id),
{
    let v = u0.current()->Some_0.id;
    deleted_group_leaves_views(s1.group_records(), s1.membership_records(), g.id, v, true);
    deleted_group_leaves_views(s1.group_records(), s1.membership_records(), g.id, v, false);
    assert(u1.member_groups() == group_view(s1.group_records(), s1.membership_records(), v, true));
    assert(u1.invitations() == group_view(s1.group_records(), s1.membership_records(), v, false));
}

} // verus!
