//! The group chat screen.
use vstd::prelude::*;

use crate::dates::local_now;
use crate::models::{Group, GroupMessage, User};
use crate::store::{messages_of_group, user_list, users_with_ids, Store};

verus! {

/// The group chat screen.
#[derive(Debug, Clone)]
pub struct GroupChat {
    current_user: User,
    current_group: Group,
    messages: Vec<GroupMessage>,
    users_of_group: Vec<User>,
    input_value: String,
}

/// The events of the group chat screen.
#[derive(Debug, Clone)]
pub enum GroupChatMessage {
    SendMessage,
    InputChanged(String),
    Back,
    Tick,
}

/// The senders of the messages, in order.
pub open spec fn sender_ids(ms: Seq<GroupMessage>) -> Seq<i32> {
    ms.map_values(|m: GroupMessage| m.sender_id)
}

/// The senders of the messages, in order.
fn collect_senders(ms: &Vec<GroupMessage>) -> (r: Vec<i32>)
    ensures
        r@ == sender_ids(ms@),
{
    let mut r: Vec<i32> = Vec::new();
    let mut i: usize = 0;
    while i < ms.len()
        invariant
            i <= ms@.len(),
            r@ == sender_ids(ms@.subrange(0, i as int)),
        decreases ms@.len() - i,
    {
        r.push(ms[i].sender_id);
        assert(sender_ids(ms@.subrange(0, i + 1)) =~= sender_ids(ms@.subrange(0, i as int)).push(
            ms@[i as int].sender_id,
        ));
        i = i + 1;
    }
    assert(ms@.subrange(0, i as int) =~= ms@);
    r
}

impl GroupChat {
    /// The signed-in user.
    pub closed spec fn me(&self) -> User {
        self.current_user
    }

    /// The group chatted in.
    pub closed spec fn group(&self) -> Group {
        self.current_group
    }

    /// The messages shown.
    pub closed spec fn shown(&self) -> Seq<GroupMessage> {
        self.messages@
    }

    /// The users who wrote the messages shown.
    pub closed spec fn members(&self) -> Seq<User> {
        self.users_of_group@
    }

    /// The typed text.
    pub closed spec fn input(&self) -> Seq<char> {
        self.input_value@
    }

    /// A screen with a placeholder user and group of id -1 and no messages.
    pub fn new() -> (r: GroupChat)
        ensures
            r.me().id == -1,
            r.group().id == -1,
            r.shown() == Seq::<GroupMessage>::empty(),
            r.members() == Seq::<User>::empty(),
            r.input() == Seq::<char>::empty(),
    {
        GroupChat {
            current_user: User { id: -1, first_name: String::new(), last_name: String::new() },
            current_group: Group { id: -1, name: String::new() },
            messages: Vec::new(),
            users_of_group: Vec::new(),
            input_value: String::new(),
        }
    }

    /// Sets the user and the group.
    pub fn set_properties(&mut self, current_user: User, current_group: Group)
        ensures
            final(self).me() == current_user,
            final(self).group() == current_group,
            final(self).shown() == old(self).shown(),
            final(self).members() == old(self).members(),
            final(self).input() == old(self).input(),
    {
        self.current_user = current_user;
        self.current_group = current_group;
    }

    /// Applies one event of the screen. Sending stores the typed text, unless
    /// it is empty, shows it and clears the input; a refresh reloads the
    /// group's messages and their writers.
    pub fn update(&mut self, store: &mut Store, message: GroupChatMessage)
        requires
            old(store).wf(),
        ensures
            final(store).wf(),
            final(self).me() == old(self).me(),
            final(self).group() == old(self).group(),
            final(store).friend_records() == old(store).friend_records(),
            final(store).membership_records() == old(store).membership_records(),
            final(store).group_records() == old(store).group_records(),
            final(store).user_records() == old(store).user_records(),
            final(store).user_message_records() == old(store).user_message_records(),
            message matches GroupChatMessage::InputChanged(v) ==> final(self).input() == v@,
            message is SendMessage && old(self).input().len() == 0 ==> *final(self) == *old(self)
                && final(store).group_message_records() == old(store).group_message_records(),
            message is SendMessage && old(self).input().len() > 0 ==> {
                let m = final(store).group_message_records().last();
                &&& final(store).group_message_records() == old(store).group_message_records().push(m)
                &&& m.sender_id == old(self).me().id
                &&& m.receiver_id == old(self).group().id
                &&& m.message@ == old(self).input()
                &&& final(self).shown() == old(self).shown().push(m)
                &&& final(self).input() == Seq::<char>::empty()
            },
            message is Tick ==> {
                let ms = messages_of_group(old(store).group_message_records(), old(self).group().id);
                &&& final(self).shown() == ms
                &&& final(self).members() == user_list(users_with_ids(old(store).user_records(), sender_ids(ms)))
                &&& final(store).group_message_records() == old(store).group_message_records()
            },
            message is Back ==> *final(self) == *old(self) && final(store).group_message_records() == old(
                store).group_message_records(),
    {
        match message {
            GroupChatMessage::SendMessage => {
                if self.input_value.as_str().is_empty() {
                    return;
                }
                let now = local_now();
                let sent = store.create_group_message(
                    self.current_user.id,
                    self.current_group.id,
                    self.input_value.as_str(),
                    now,
                );
                self.input_value = String::new();
                self.messages.push(sent);
            },
            GroupChatMessage::InputChanged(value) => {
                self.input_value = value;
            },
            GroupChatMessage::Back => {},
            GroupChatMessage::Tick => {
                let messages = store.find_all_messages_of_group(self.current_group.id);
                let senders = collect_senders(&messages);
                self.users_of_group = store.find_users_by_ids(&senders);
                self.messages = messages;
            },
        }
    }

    /// The signed-in user.
    pub fn get_current_user(&self) -> (r: &User)
        ensures
            *r == self.me(),
    {
        &self.current_user
    }

    /// The group chatted in.
    pub fn get_current_group(&self) -> (r: &Group)
        ensures
            *r == self.group(),
    {
        &self.current_group
    }

    /// The messages shown.
    pub fn get_messages(&self) -> (r: &Vec<GroupMessage>)
        ensures
            r@ == self.shown(),
    {
        &self.messages
    }

    /// The users who wrote the messages shown.
    pub fn get_users_of_group(&self) -> (r: &Vec<User>)
        ensures
            r@ == self.members(),
    {
        &self.users_of_group
    }

    /// The typed text.
    pub fn get_input_value(&self) -> (r: &String)
        ensures
            r@ == self.input(),
    {
        &self.input_value
    }

    /// Adds a message to those shown.
    pub fn push_message(&mut self, message: GroupMessage)
        ensures
            final(self).shown() == old(self).shown().push(message),
            final(self).members() == old(self).members(),
            final(self).input() == old(self).input(),
    {
        self.messages.push(message);
    }

    /// Adds a user to the writers shown.
    pub fn push_users_of_group(&mut self, user: User)
        ensures
            final(self).members() == old(self).members().push(user),
            final(self).shown() == old(self).shown(),
    {
        self.users_of_group.push(user);
    }
}

impl Default for GroupChat {
    fn default() -> (r: GroupChat)
        ensures
            r.me().id == -1,
            r.group().id == -1,
            r.shown() == Seq::<GroupMessage>::empty(),
            r.members() == Seq::<User>::empty(),
            r.input() == Seq::<char>::empty(),
    {
        GroupChat::new()
    }
}

} // verus!
