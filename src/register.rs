//! The registration screen.
use vstd::prelude::*;

use crate::credentials::{
    is_strong_password, is_valid_email, lowercase_of, spec_is_strong_password, spec_is_valid_email,
    to_lowercase,
};
use crate::store::{has_email, spec_account_message, AccountError, Store};

verus! {

/// The registration screen.
#[derive(Debug, Clone)]
pub struct Register {
    email: String,
    password: String,
    first_name: String,
    last_name: String,
    error: String,
    info: String,
}

/// The events of the registration screen.
#[derive(Debug, Clone)]
pub enum RegisterMessage {
    EmailChanged(String),
    PasswordChanged(String),
    FirstNameChanged(String),
    LastNameChanged(String),
    SubmitRegister,
    NavigateToLogin,
}

impl Register {
    /// The typed address.
    pub closed spec fn email_text(&self) -> Seq<char> {
        self.email@
    }

    /// The typed password.
    pub closed spec fn password_text(&self) -> Seq<char> {
        self.password@
    }

    /// The typed first name.
    pub closed spec fn first_name_text(&self) -> Seq<char> {
        self.first_name@
    }

    /// The typed last name.
    pub closed spec fn last_name_text(&self) -> Seq<char> {
        self.last_name@
    }

    /// The error line.
    pub closed spec fn error_text(&self) -> Seq<char> {
        self.error@
    }

    /// The information line.
    pub closed spec fn info_text(&self) -> Seq<char> {
        self.info@
    }

    /// An empty screen.
    pub fn new() -> (r: Register)
        ensures
            r.email_text() == Seq::<char>::empty(),
            r.password_text() == Seq::<char>::empty(),
            r.first_name_text() == Seq::<char>::empty(),
            r.last_name_text() == Seq::<char>::empty(),
            r.error_text() == Seq::<char>::empty(),
            r.info_text() == Seq::<char>::empty(),
    {
        Register {
            email: String::new(),
            password: String::new(),
            first_name: String::new(),
            last_name: String::new(),
            error: String::new(),
            info: String::new(),
        }
    }

    /// Validates the fields and registers the account.
    fn submit_register(&mut self, store: &mut Store)
        requires
            old(store).wf(),
        ensures
            final(store).wf(),
            final(self).email_text() == old(self).email_text(),
            final(self).password_text() == old(self).password_text(),
            ({
                let empty = old(self).email_text().len() == 0 || old(self).password_text().len() == 0
                    || old(self).first_name_text().len() == 0 || old(self).last_name_text().len() == 0;
                let valid = spec_is_valid_email(old(self).email_text());
                let strong = spec_is_strong_password(old(self).password_text());
                let taken = has_email(old(store).user_records(), lowercase_of(old(self).email_text()));
                let failed = final(self).info_text() == Seq::<char>::empty()
                    && final(store).user_records() == old(store).user_records();
                &&& empty ==> final(self).error_text() == "Please fill in all fields"@ && failed
                &&& !empty && !valid ==> final(self).error_text() == "Invalid email format"@ && failed
                &&& !empty && valid && !strong ==> final(self).error_text() == spec_account_message(
                    AccountError::WeakPassword,
                ) && failed
                &&& !empty && valid && strong && taken ==> final(self).error_text() == spec_account_message(
                    AccountError::EmailInUse,
                ) && failed
                &&& !empty && valid && strong && !taken && !old(store).can_create_user()
                    ==> final(self).error_text()
                    == spec_account_message(AccountError::Storage) && failed
                &&& !empty && valid && strong && !taken && old(store).can_create_user()
                    ==> (final(self).info_text()
                    == "Account has been registered"@ && final(self).error_text() == Seq::<char>::empty()
                    && final(store).user_records().len() == old(store).user_records().len() + 1
                    && final(store).user_records().drop_last() == old(store).user_records()
                    && final(store).user_records().last().email@ == lowercase_of(old(self).email_text()))
                    || (final(self).error_text() == spec_account_message(AccountError::HashFailure) && failed)
            }),
            final(store).friend_records() == old(store).friend_records(),
            final(store).membership_records() == old(store).membership_records(),
            final(store).group_records() == old(store).group_records(),
    {
        proof {
            reveal_strlit("Account has been registered");
        }
        if self.email.as_str().is_empty() || self.password.as_str().is_empty()
            || self.first_name.as_str().is_empty() || self.last_name.as_str().is_empty() {
            self.error = "Please fill in all fields".to_string();
            self.info = String::new();
        } else if !is_valid_email(self.email.as_str()) {
            self.error = "Invalid email format".to_string();
            self.info = String::new();
        } else if !is_strong_password(self.password.as_str()) {
            self.error = AccountError::WeakPassword.message();
            self.info = String::new();
        } else {
            let email = to_lowercase(self.email.as_str());
            match store.create_user(
                self.first_name.as_str(),
                self.last_name.as_str(),
                email.as_str(),
                self.password.as_str(),
            ) {
                Ok(_) => {
                    self.error = String::new();
                    self.info = "Account has been registered".to_string();
                },
                Err(e) => {
                    self.error = e.message();
                    self.info = String::new();
                },
            }
        }
    }

    /// Applies one event of the screen.
    pub fn update(&mut self, store: &mut Store, message: RegisterMessage)
        requires
            old(store).wf(),
        ensures
            final(store).wf(),
            message matches RegisterMessage::EmailChanged(e) ==> final(self).email_text() == e@
                && final(self).password_text() == old(self).password_text(),
            message matches RegisterMessage::PasswordChanged(p) ==> final(self).password_text() == p@
                && final(self).email_text() == old(self).email_text(),
            message matches RegisterMessage::FirstNameChanged(n) ==> final(self).first_name_text() == n@,
            message matches RegisterMessage::LastNameChanged(n) ==> final(self).last_name_text() == n@,
            !(message is SubmitRegister) ==> *final(store) == *old(store),
            message is NavigateToLogin ==> *final(self) == *old(self),
            message is SubmitRegister ==> ({
                let empty = old(self).email_text().len() == 0 || old(self).password_text().len() == 0
                    || old(self).first_name_text().len() == 0 || old(self).last_name_text().len() == 0;
                let valid = spec_is_valid_email(old(self).email_text());
                let strong = spec_is_strong_password(old(self).password_text());
                let taken = has_email(old(store).user_records(), lowercase_of(old(self).email_text()));
                let failed = final(self).info_text() == Seq::<char>::empty()
                    && final(store).user_records() == old(store).user_records();
                &&& empty ==> final(self).error_text() == "Please fill in all fields"@ && failed
                &&& !empty && !valid ==> final(self).error_text() == "Invalid email format"@ && failed
                &&& !empty && valid && !strong ==> final(self).error_text() == spec_account_message(
                    AccountError::WeakPassword,
                ) && failed
                &&& !empty && valid && strong && taken ==> final(self).error_text() == spec_account_message(
                    AccountError::EmailInUse,
                ) && failed
                &&& !empty && valid && strong && !taken && !old(store).can_create_user()
                    ==> final(self).error_text()
                    == spec_account_message(AccountError::Storage) && failed
                &&& !empty && valid && strong && !taken && old(store).can_create_user()
                    ==> (final(self).info_text()
                    == "Account has been registered"@ && final(self).error_text() == Seq::<char>::empty()
                    && final(store).user_records().len() == old(store).user_records().len() + 1
                    && final(store).user_records().drop_last() == old(store).user_records()
                    && final(store).user_records().last().email@ == lowercase_of(old(self).email_text()))
                    || (final(self).error_text() == spec_account_message(AccountError::HashFailure) && failed)
            }),
    {
        match message {
            RegisterMessage::EmailChanged(email) => {
                self.email = email;
            },
            RegisterMessage::PasswordChanged(password) => {
                self.password = password;
            },
            RegisterMessage::FirstNameChanged(first_name) => {
                self.first_name = first_name;
            },
            RegisterMessage::LastNameChanged(last_name) => {
                self.last_name = last_name;
            },
            RegisterMessage::SubmitRegister => {
                self.submit_register(store);
            },
            RegisterMessage::NavigateToLogin => {},
        }
    }

    /// The typed first name.
    pub fn get_first_name(&self) -> (r: &str)
        ensures
            r@ == self.first_name_text(),
    {
        self.first_name.as_str()
    }

    /// The typed last name.
    pub fn get_last_name(&self) -> (r: &str)
        ensures
            r@ == self.last_name_text(),
    {
        self.last_name.as_str()
    }

    /// The typed address.
    pub fn get_email(&self) -> (r: &str)
        ensures
            r@ == self.email_text(),
    {
        self.email.as_str()
    }

    /// The typed password.
    pub fn get_password(&self) -> (r: &str)
        ensures
            r@ == self.password_text(),
    {
        self.password.as_str()
    }

    /// The error line.
    pub fn get_error(&self) -> (r: &str)
        ensures
            r@ == self.error_text(),
    {
        self.error.as_str()
    }

    /// The information line.
    pub fn get_info(&self) -> (r: &str)
        ensures
            r@ == self.info_text(),
    {
        self.info.as_str()
    }

    /// Replaces the error line.
    pub fn set_error(&mut self, error: String)
        ensures
            final(self).error_text() == error@,
            final(self).info_text() == old(self).info_text(),
    {
        self.error = error;
    }

    /// Replaces the information line.
    pub fn set_info(&mut self, info: String)
        ensures
            final(self).info_text() == info@,
            final(self).error_text() == old(self).error_text(),
    {
        self.info = info;
    }
}

impl Default for Register {
    fn default() -> (r: Register)
        ensures
            r.email_text() == Seq::<char>::empty(),
            r.password_text() == Seq::<char>::empty(),
            r.first_name_text() == Seq::<char>::empty(),
            r.last_name_text() == Seq::<char>::empty(),
            r.error_text() == Seq::<char>::empty(),
            r.info_text() == Seq::<char>::empty(),
    {
        Register::new()
    }
}

} // verus!
