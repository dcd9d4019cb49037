//! The sign-in screen.
use vstd::prelude::*;

use crate::credentials::{bcrypt_check, check_password, lowercase_of, to_lowercase};
use crate::models::User;
use crate::store::{email_position, has_email, public_user, Store};

verus! {

/// The sign-in screen. `found_user` holds the signed-in user once the
/// address and password were accepted, and a user with id -1 before.
#[derive(Debug, Clone)]
pub struct Login {
    email: String,
    password: String,
    error: String,
    found_user: User,
}

/// The events of the sign-in screen.
#[derive(Debug, Clone)]
pub enum LoginMessage {
    EmailChanged(String),
    PasswordChanged(String),
    SubmitLogin,
    LoginSuccess,
    NavigateToRegister,
}

/// The error shown when the address or the password is wrong.
pub open spec fn login_failed_text() -> Seq<char> {
    "Login failed. Either the email or password was incorrect."@
}

impl Login {
    /// The typed address.
    pub closed spec fn email_text(&self) -> Seq<char> {
        self.email@
    }

    /// The typed password.
    pub closed spec fn password_text(&self) -> Seq<char> {
        self.password@
    }

    /// The error line.
    pub closed spec fn error_text(&self) -> Seq<char> {
        self.error@
    }

    /// The signed-in user, or the placeholder with id -1.
    pub closed spec fn found(&self) -> User {
        self.found_user
    }

    /// An empty screen with the placeholder user.
    pub fn new() -> (r: Login)
        ensures
            r.email_text() == Seq::<char>::empty(),
            r.password_text() == Seq::<char>::empty(),
            r.error_text() == Seq::<char>::empty(),
            r.found().id == -1,
            r.found().first_name@ == Seq::<char>::empty(),
            r.found().last_name@ == Seq::<char>::empty(),
    {
        Login {
            email: String::new(),
            password: String::new(),
            error: String::new(),
            found_user: User { id: -1, first_name: String::new(), last_name: String::new() },
        }
    }

    /// The signed-in user, or the placeholder with id -1.
    pub fn get_found_user(&self) -> (r: &User)
        ensures
            *r == self.found(),
    {
        &self.found_user
    }

    /// Replaces the signed-in user.
    pub fn set_found_user(&mut self, user: User)
        ensures
            final(self).found() == user,
            final(self).email_text() == old(self).email_text(),
            final(self).password_text() == old(self).password_text(),
            final(self).error_text() == old(self).error_text(),
    {
        self.found_user = user;
    }

    /// The typed address.
    pub fn get_email(&self) -> (r: &str)
        ensures
            r@ == self.email_text(),
    {
        self.email.as_str()
    }

    /// The typed password.
    pub fn get_password(&self) -> (r: &str)
        ensures
            r@ == self.password_text(),
    {
        self.password.as_str()
    }

    /// The error line.
    pub fn get_error(&self) -> (r: &str)
        ensures
            r@ == self.error_text(),
    {
        self.error.as_str()
    }

    /// Looks the lowercased address up and checks the password against the
    /// stored hash.
    fn handle_login(&mut self, store: &Store)
        requires
            store.wf(),
        ensures
            final(self).email_text() == old(self).email_text(),
            final(self).password_text() == old(self).password_text(),
            old(self).email_text().len() == 0 || old(self).password_text().len() == 0
                ==> final(self).error_text() == "Please fill in both email and password fields."@
                && final(self).found()
                == old(self).found(),
            old(self).email_text().len() > 0 && old(self).password_text().len() > 0 ==> {
                let e = lowercase_of(old(self).email_text());
                let users = store.user_records();
                if has_email(users, e) && bcrypt_check(
                    old(self).password_text(),
                    users[email_position(users, e)].password@,
                ) == Some(true) {
                    final(self).found() == public_user(users[email_position(users, e)])
                        && final(self).error_text() == old(self).error_text()
                } else {
                    final(self).found() == old(self).found() && final(self).error_text()
                        == login_failed_text()
                }
            },
    {
        if self.email.as_str().is_empty() || self.password.as_str().is_empty() {
            self.error = "Please fill in both email and password fields.".to_string();
            return;
        }
        let email = to_lowercase(self.email.as_str());
        match store.find_user_by_email(email.as_str()) {
            Ok(user) => {
                proof {
                    let users = store.user_records();
                    store.lemma_user_position(email_position(users, email@));
                }
                match store.find_user_with_password_by_id(user.id) {
                    Ok(stored) => {
                        match check_password(self.password.as_str(), stored.password.as_str()) {
                            Some(true) => {
                                self.found_user = user;
                                return;
                            },
                            _ => {},
                        }
                    },
                    Err(_) => {},
                }
            },
            Err(_) => {},
        }
        self.error = "Login failed. Either the email or password was incorrect.".to_string();
    }

    /// Applies one event of the screen.
    pub fn update(&mut self, store: &Store, message: LoginMessage)
        requires
            store.wf(),
        ensures
            message matches LoginMessage::EmailChanged(e) ==> final(self).email_text() == e@
                && final(self).password_text() == old(self).password_text()
                    && final(self).error_text() == old(self).error_text()
                    && final(self).found() == old(self).found(),
            message matches LoginMessage::PasswordChanged(p) ==> final(self).password_text() == p@
                && final(self).email_text() == old(self).email_text()
                    && final(self).error_text() == old(self).error_text()
                    && final(self).found() == old(self).found(),
            message is SubmitLogin ==> final(self).email_text() == old(self).email_text()
                && final(self).password_text()
                == old(self).password_text(),
            message is SubmitLogin && (old(self).email_text().len() == 0 || old(self).password_text().len()
                == 0) ==> final(self).error_text() == "Please fill in both email and password fields."@
                && final(self).found() == old(self).found(),
            message is SubmitLogin && old(self).email_text().len() > 0 && old(self).password_text().len() > 0
                ==> {
                let e = lowercase_of(old(self).email_text());
                let users = store.user_records();
                if has_email(users, e) && bcrypt_check(
                    old(self).password_text(),
                    users[email_position(users, e)].password@,
                ) == Some(true) {
                    final(self).found() == public_user(users[email_position(users, e)])
                        && final(self).error_text() == old(self).error_text()
                } else {
                    final(self).found() == old(self).found() && final(self).error_text()
                        == login_failed_text()
                }
            },
            message is LoginSuccess || message is NavigateToRegister ==> *final(self) == *old(self),
    {
        match message {
            LoginMessage::EmailChanged(email) => {
                self.email = email;
            },
            LoginMessage::PasswordChanged(password) => {
                self.password = password;
            },
            LoginMessage::SubmitLogin => {
                self.handle_login(store);
            },
            LoginMessage::LoginSuccess => {},
            LoginMessage::NavigateToRegister => {},
        }
    }
}

impl Default for Login {
    fn default() -> (r: Login)
        ensures
            r.email_text() == Seq::<char>::empty(),
            r.password_text() == Seq::<char>::empty(),
            r.error_text() == Seq::<char>::empty(),
            r.found().id == -1,
            r.found().first_name@ == Seq::<char>::empty(),
            r.found().last_name@ == Seq::<char>::empty(),
    {
        Login::new()
    }
}

} // verus!
