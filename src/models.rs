//! Plain records of users, groups, friend relations and memberships.
use vstd::prelude::*;

use crate::dates::SendDate;
use crate::text::concat;

verus! {

/// A user as the rest of the application sees it: an id and a two-part name.
#[derive(Debug, Clone)]
pub struct User {
    pub id: i32,
    pub first_name: String,
    pub last_name: String,
}

impl User {
    /// A field-by-field copy.
    pub fn duplicate(&self) -> (r: User)
        ensures
            r == *self,
    {
        User { id: self.id, first_name: self.first_name.clone(), last_name: self.last_name.clone() }
    }

    /// The name as shown in lists: first name, a comma and a space, last name.
    pub fn to_display_string(&self) -> (r: String)
        ensures
            r@ == self.first_name@ + ", "@ + self.last_name@,
    {
        let head = concat(self.first_name.as_str(), ", ");
        concat(head.as_str(), self.last_name.as_str())
    }
}

impl PartialEq for User {
    fn eq(&self, o: &User) -> (r: bool) {
        self.id == o.id && self.first_name == o.first_name && self.last_name == o.last_name
    }
}

impl vstd::std_specs::cmp::PartialEqSpecImpl for User {
    open spec fn obeys_eq_spec() -> bool {
        true
    }

    open spec fn eq_spec(&self, o: &User) -> bool {
        self.id == o.id && self.first_name@ == o.first_name@ && self.last_name@ == o.last_name@
    }
}

impl Eq for User {
}

/// The fields of a user that is about to be registered.
#[derive(Debug, Clone)]
pub struct NewUser {
    pub first_name: String,
    pub last_name: String,
    pub email: String,
    pub password: String,
}

/// A user's id with the stored password hash.
#[derive(Debug)]
pub struct UserPassword {
    pub id: i32,
    pub password: String,
}

/// A direct message that is about to be stored.
#[derive(Debug)]
pub struct NewUserMessage {
    pub sender_id: i32,
    pub receiver_id: i32,
    pub message: String,
}

/// A friend relation between two users, stored under its canonical pair:
/// `user_one_id` is the lower id, `user_two_id` the higher one, and each side
/// has its own acceptance flag.
#[derive(Debug, Clone, Copy, PartialEq, Eq, Structural)]
pub struct UserToUserFriend {
    pub user_one_id: i32,
    pub user_two_id: i32,
    pub accepted_user_one: bool,
    pub accepted_user_two: bool,
}

/// The fields of a group that is about to be created.
#[derive(Debug)]
pub struct NewGroup {
    pub name: String,
}

/// A chat group.
#[derive(Debug, Clone)]
pub struct Group {
    pub id: i32,
    pub name: String,
}

impl Group {
    /// A field-by-field copy.
    pub fn duplicate(&self) -> (r: Group)
        ensures
            r == *self,
    {
        Group { id: self.id, name: self.name.clone() }
    }
}

impl PartialEq for Group {
    fn eq(&self, o: &Group) -> (r: bool) {
        self.id == o.id && self.name == o.name
    }
}

impl vstd::std_specs::cmp::PartialEqSpecImpl for Group {
    open spec fn obeys_eq_spec() -> bool {
        true
    }

    open spec fn eq_spec(&self, o: &Group) -> bool {
        self.id == o.id && self.name@ == o.name@
    }
}

impl Eq for Group {
}

/// A user's membership in a group; `accepted_invite` is false while the
/// membership is a pending invitation.
#[derive(Debug, Clone, Copy, PartialEq, Eq, Structural)]
pub struct UserToGroup {
    pub user_id: i32,
    pub group_id: i32,
    pub accepted_invite: bool,
}

/// A group message that is about to be stored.
#[derive(Debug)]
pub struct NewGroupMessage {
    pub sender_id: i32,
    pub receiver_id: i32,
    pub message: String,
}

/// A stored direct message.
#[derive(Debug, Clone)]
pub struct UserMessage {
    pub sender_id: i32,
    pub receiver_id: i32,
    pub message: String,
    pub send_date: SendDate,
}

impl UserMessage {
    /// A field-by-field copy.
    pub fn duplicate(&self) -> (r: UserMessage)
        ensures
            r == *self,
    {
        UserMessage {
            sender_id: self.sender_id,
            receiver_id: self.receiver_id,
            message: self.message.clone(),
            send_date: self.send_date,
        }
    }
}

/// A stored group message; `receiver_id` is the group's id.
#[derive(Debug, Clone)]
pub struct GroupMessage {
    pub sender_id: i32,
    pub receiver_id: i32,
    pub message: String,
    pub send_date: SendDate,
}

impl GroupMessage {
    /// A field-by-field copy.
    pub fn duplicate(&self) -> (r: GroupMessage)
        ensures
            r == *self,
    {
        GroupMessage {
            sender_id: self.sender_id,
            receiver_id: self.receiver_id,
            message: self.message.clone(),
            send_date: self.send_date,
        }
    }
}

} // verus!
