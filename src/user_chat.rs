//! The direct chat screen between the signed-in user and a friend.
use vstd::prelude::*;

use crate::dates::local_now;
use crate::models::{User, UserMessage};
use crate::store::{messages_between, Store};

verus! {

/// The direct chat screen.
#[derive(Debug, Clone)]
pub struct UserChat {
    current_user: User,
    other_user: User,
    messages: Vec<UserMessage>,
    input_value: String,
}

/// The events of the direct chat screen.
#[derive(Debug, Clone)]
pub enum UserChatMessage {
    SendMessage,
    InputChanged(String),
    Back,
    Tick,
}

impl UserChat {
    /// The signed-in user.
    pub closed spec fn me(&self) -> User {
        self.current_user
    }

    /// The chat partner.
    pub closed spec fn partner(&self) -> User {
        self.other_user
    }

    /// The messages shown.
    pub closed spec fn shown(&self) -> Seq<UserMessage> {
        self.messages@
    }

    /// The typed text.
    pub closed spec fn input(&self) -> Seq<char> {
        self.input_value@
    }

    /// A screen with placeholder users of id -1 and no messages.
    pub fn new() -> (r: UserChat)
        ensures
            r.me().id == -1,
            r.partner().id == -1,
            r.shown() == Seq::<UserMessage>::empty(),
            r.input() == Seq::<char>::empty(),
    {
        UserChat {
            current_user: User { id: -1, first_name: String::new(), last_name: String::new() },
            other_user: User { id: -1, first_name: String::new(), last_name: String::new() },
            messages: Vec::new(),
            input_value: String::new(),
        }
    }

    /// Sets the two participants.
    pub fn set_properties(&mut self, current_user: User, other_user: User)
        ensures
            final(self).me() == current_user,
            final(self).partner() == other_user,
            final(self).shown() == old(self).shown(),
            final(self).input() == old(self).input(),
    {
        self.current_user = current_user;
        self.other_user = other_user;
    }

    /// Applies one event of the screen. Sending stores the typed text, unless
    /// it is empty, shows it and clears the input; a refresh reloads the
    /// conversation.
    pub fn update(&mut self, store: &mut Store, message: UserChatMessage)
        requires
            old(store).wf(),
        ensures
            final(store).wf(),
            final(self).me() == old(self).me(),
            final(self).partner() == old(self).partner(),
            final(store).friend_records() == old(store).friend_records(),
            final(store).membership_records() == old(store).membership_records(),
            final(store).group_records() == old(store).group_records(),
            final(store).user_records() == old(store).user_records(),
            final(store).group_message_records() == old(store).group_message_records(),
            message matches UserChatMessage::InputChanged(v) ==> final(self).input() == v@,
            message is SendMessage && old(self).input().len() == 0 ==> *final(self) == *old(self)
                && final(store).user_message_records() == old(store).user_message_records(),
            message is SendMessage && old(self).input().len() > 0 ==> {
                let m = final(store).user_message_records().last();
                &&& final(store).user_message_records() == old(store).user_message_records().push(m)
                &&& m.sender_id == old(self).me().id
                &&& m.receiver_id == old(self).partner().id
                &&& m.message@ == old(self).input()
                &&& final(self).shown() == old(self).shown().push(m)
                &&& final(self).input() == Seq::<char>::empty()
            },
            message is Tick ==> final(self).shown() == messages_between(
                old(store).user_message_records(),
                old(self).me().id,
                old(self).partner().id,
            ) && final(store).user_message_records() == old(store).user_message_records(),
            message is Back ==> *final(self) == *old(self) && final(store).user_message_records() == old(
                store).user_message_records(),
    {
        match message {
            UserChatMessage::SendMessage => {
                if self.input_value.as_str().is_empty() {
                    return;
                }
                let now = local_now();
                let sent = store.create_user_message(
                    self.current_user.id,
                    self.other_user.id,
                    self.input_value.as_str(),
                    now,
                );
                self.messages.push(sent);
                self.input_value = String::new();
            },
            UserChatMessage::InputChanged(value) => {
                self.input_value = value;
            },
            UserChatMessage::Back => {},
            UserChatMessage::Tick => {
                self.messages = store.find_all_messages_between_users(self.current_user.id, self.other_user.id);
            },
        }
    }

    /// The messages shown.
    pub fn get_messages(&self) -> (r: &Vec<UserMessage>)
        ensures
            r@ == self.shown(),
    {
        &self.messages
    }

    /// The typed text.
    pub fn get_input_value(&self) -> (r: &String)
        ensures
            r@ == self.input(),
    {
        &self.input_value
    }

    /// The signed-in user.
    pub fn get_current_user(&self) -> (r: &User)
        ensures
            *r == self.me(),
    {
        &self.current_user
    }

    /// The chat partner.
    pub fn get_other_user(&self) -> (r: &User)
        ensures
            *r == self.partner(),
    {
        &self.other_user
    }

    /// Adds a message to those shown.
    pub fn push_message(&mut self, message: UserMessage)
        ensures
            final(self).shown() == old(self).shown().push(message),
            final(self).me() == old(self).me(),
            final(self).partner() == old(self).partner(),
            final(self).input() == old(self).input(),
    {
        self.messages.push(message);
    }
}

impl Default for UserChat {
    fn default() -> (r: UserChat)
        ensures
            r.me().id == -1,
            r.partner().id == -1,
            r.shown() == Seq::<UserMessage>::empty(),
            r.input() == Seq::<char>::empty(),
    {
        UserChat::new()
    }
}

} // verus!
