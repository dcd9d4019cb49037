//! The settings screen: theme, e-mail address, password and account deletion.
use vstd::prelude::*;

use crate::credentials::{bcrypt_check, is_valid_email, spec_is_strong_password, spec_is_valid_email};
use crate::models::User;
use crate::store::{
    has_email, has_user, password_replaced, spec_account_message, user_position, AccountError, Store, UserRecord,
};
use crate::text::concat;

verus! {

/// The colour themes of the application.
#[derive(Debug, Clone, Copy, PartialEq, Eq, Structural)]
pub enum AppTheme {
    Moonfly,
    Oxocarbon,
    Dracula,
    KanagawaWave,
    Light,
}

/// The settings screen.
#[derive(Debug, Clone)]
pub struct SettingTab {
    current_user: Option<User>,
    error: String,
    info: String,
    app_theme: AppTheme,
    new_email_value: String,
    new_password_value: String,
    current_password_value: String,
    delete_button_pressed: bool,
    account_deleted: bool,
}

/// The events of the settings screen.
#[derive(Debug, Clone)]
pub enum SettingsTabMessage {
    UpdateEmail,
    UpdatePassword,
    EmailInputChanged(String),
    NewPasswordInputChanged(String),
    CurrentPasswordInputChanged(String),
    DeleteAccount,
    ChangeTheme(AppTheme),
}

/// `after` is `before` with the address of the account `id` replaced by
/// `email`, every other field and account unchanged.
pub open spec fn address_set(before: Seq<UserRecord>, after: Seq<UserRecord>, id: i32, email: Seq<char>) -> bool {
    &&& after.len() == before.len()
    &&& forall|k: int|
        0 <= k < before.len() ==> {
            let x = before[k];
            let y = #[trigger] after[k];
            &&& y.id == x.id
            &&& y.first_name == x.first_name
            &&& y.last_name == x.last_name
            &&& y.password == x.password
            &&& y.email@ == if x.id == id {
                email
            } else {
                x.email@
            }
        }
}

/// A password change of the signed-in user `cur` succeeded: the account
/// exists, the current password matched its stored hash, the new password
/// is strong, and the stored hash now accepts the new password.
pub open spec fn password_set(
    before: Seq<UserRecord>,
    after: Seq<UserRecord>,
    cur: Option<User>,
    current_password: Seq<char>,
    new_password: Seq<char>,
) -> bool {
    &&& cur is Some
    &&& has_user(before, cur->Some_0.id)
    &&& spec_is_strong_password(new_password)
    &&& bcrypt_check(current_password, before[user_position(before, cur->Some_0.id)].password@) == Some(true)
    &&& bcrypt_check(new_password, after[user_position(before, cur->Some_0.id)].password@) == Some(true)
    &&& password_replaced(before, after, user_position(before, cur->Some_0.id))
}

impl SettingTab {
    /// The signed-in user.
    pub closed spec fn current(&self) -> Option<User> {
        self.current_user
    }

    /// The error line.
    pub closed spec fn error_text(&self) -> Seq<char> {
        self.error@
    }

    /// The information line.
    pub closed spec fn info_text(&self) -> Seq<char> {
        self.info@
    }

    /// The chosen theme.
    pub closed spec fn theme(&self) -> AppTheme {
        self.app_theme
    }

    /// The typed new e-mail address.
    pub closed spec fn new_email(&self) -> Seq<char> {
        self.new_email_value@
    }

    /// The typed new password.
    pub closed spec fn new_password(&self) -> Seq<char> {
        self.new_password_value@
    }

    /// The typed current password.
    pub closed spec fn current_password(&self) -> Seq<char> {
        self.current_password_value@
    }

    /// Whether deletion was asked for once already.
    pub closed spec fn delete_armed(&self) -> bool {
        self.delete_button_pressed
    }

    /// Whether the account was deleted.
    pub closed spec fn deleted(&self) -> bool {
        self.account_deleted
    }

    /// A screen with no user, the default theme and empty fields.
    pub fn new() -> (r: SettingTab)
        ensures
            r.current() is None,
            r.error_text() == Seq::<char>::empty(),
            r.info_text() == Seq::<char>::empty(),
            r.theme() == AppTheme::Moonfly,
            r.new_email() == Seq::<char>::empty(),
            r.new_password() == Seq::<char>::empty(),
            r.current_password() == Seq::<char>::empty(),
            !r.delete_armed(),
            !r.deleted(),
    {
        SettingTab {
            current_user: None,
            error: String::new(),
            info: String::new(),
            app_theme: AppTheme::Moonfly,
            new_email_value: String::new(),
            new_password_value: String::new(),
            current_password_value: String::new(),
            delete_button_pressed: false,
            account_deleted: false,
        }
    }

    /// Sets the signed-in user.
    pub fn set_current_user(&mut self, user: User)
        ensures
            final(self).current() == Some(user),
            final(self).theme() == old(self).theme(),
            final(self).delete_armed() == old(self).delete_armed(),
            final(self).deleted() == old(self).deleted(),
            final(self).error_text() == old(self).error_text(),
            final(self).info_text() == old(self).info_text(),
            final(self).new_email() == old(self).new_email(),
            final(self).new_password() == old(self).new_password(),
            final(self).current_password() == old(self).current_password(),
    {
        self.current_user = Some(user);
    }

    /// Sets the theme.
    pub fn set_app_theme(&mut self, app_theme: AppTheme)
        ensures
            final(self).theme() == app_theme,
            final(self).current() == old(self).current(),
    {
        self.app_theme = app_theme;
    }

    /// The chosen theme.
    pub fn get_app_theme(&self) -> (r: AppTheme)
        ensures
            r == self.theme(),
    {
        self.app_theme
    }

    /// Whether the account was deleted.
    pub fn get_account_deleted(&self) -> (r: bool)
        ensures
            r == self.deleted(),
    {
        self.account_deleted
    }

    /// Changes the password of the signed-in user.
    fn update_password(&mut self, store: &mut Store)
        requires
            old(store).wf(),
        ensures
            final(store).wf(),
            final(self).current() == old(self).current(),
            old(self).new_password().len() == 0 || old(self).current_password().len() == 0
                ==> final(self).error_text() == "Password fields cannot be empty"@
                && *final(store) == *old(store),
            old(self).new_password().len() > 0 && old(self).current_password().len() > 0
                && old(self).current() is Some
                && has_user(old(store).user_records(), old(self).current()->Some_0.id)
                && !spec_is_strong_password(old(self).new_password()) ==> final(self).error_text()
                == spec_account_message(AccountError::WeakPassword)
                    && final(store).user_records() == old(store).user_records(),
            old(self).new_password().len() > 0 && old(self).current_password().len() > 0
                && old(self).current() is Some
                && has_user(old(store).user_records(), old(self).current()->Some_0.id)
                    && spec_is_strong_password(
                old(self).new_password(),
            ) && bcrypt_check(
                old(self).current_password(),
                old(store).user_records()[user_position(
                    old(store).user_records(),
                    old(self).current()->Some_0.id,
                )].password@,
            ) == Some(false) ==> final(self).error_text() == spec_account_message(AccountError::WrongPassword)
                && final(store).user_records() == old(store).user_records(),
            final(self).info_text() == "Password updated successfully"@ || final(self).info_text()
                == Seq::<char>::empty(),
            final(self).info_text() == "Password updated successfully"@ ==> final(self).error_text()
                == Seq::<char>::empty()
                    && password_set(old(store).user_records(), final(store).user_records(), old(self).current(), old(self).current_password(), old(self).new_password()),
            final(store).friend_records() == old(store).friend_records(),
            final(store).membership_records() == old(store).membership_records(),
            final(store).group_records() == old(store).group_records(),
    {
        proof {
            reveal_strlit("Password updated successfully");
        }
        if self.new_password_value.as_str().is_empty() || self.current_password_value.as_str().is_empty() {
            self.info = String::new();
            self.error = "Password fields cannot be empty".to_string();
            return;
        }
        let me = match &self.current_user {
            Some(u) => u.id,
            None => {
                self.info = String::new();
                self.error = AccountError::NotFound.message();
                return;
            },
        };
        match store.update_password(
            me,
            self.current_password_value.as_str(),
            self.new_password_value.as_str(),
        ) {
            Ok(_) => {
                self.error = String::new();
                self.info = "Password updated successfully".to_string();
            },
            Err(e) => {
                self.error = e.message();
                self.info = String::new();
            },
        }
    }

    /// Changes the e-mail address of the signed-in user.
    fn update_email(&mut self, store: &mut Store)
        requires
            old(store).wf(),
        ensures
            final(store).wf(),
            final(self).current() == old(self).current(),
            old(self).new_email().len() == 0 ==> final(self).error_text()
                == "Email and password fields cannot be empty"@ && *final(store) == *old(store),
            old(self).new_email().len() > 0 && !spec_is_valid_email(old(self).new_email())
                ==> final(self).error_text() == "Invalid email format"@ && *final(store) == *old(store),
            old(self).new_email().len() > 0 && spec_is_valid_email(old(self).new_email())
                && old(self).current() is Some
                && has_user(old(store).user_records(), old(self).current()->Some_0.id)
                && !has_email(old(store).user_records(), old(self).new_email()) ==> final(self).info_text()
                == "Email updated successfully"@ && final(self).error_text() == Seq::<char>::empty()
                && address_set(old(store).user_records(), final(store).user_records(), old(self).current()->Some_0.id, old(self).new_email()),
            final(store).friend_records() == old(store).friend_records(),
            final(store).membership_records() == old(store).membership_records(),
            final(store).group_records() == old(store).group_records(),
    {
        if self.new_email_value.as_str().is_empty() {
            self.info = String::new();
            self.error = "Email and password fields cannot be empty".to_string();
            return;
        }
        if !is_valid_email(self.new_email_value.as_str()) {
            self.info = String::new();
            self.error = "Invalid email format".to_string();
            return;
        }
        let me = match &self.current_user {
            Some(u) => u.id,
            None => {
                self.info = String::new();
                self.error = AccountError::NotFound.message();
                return;
            },
        };
        match store.update_email(me, self.new_email_value.as_str()) {
            Ok(_) => {
                self.error = String::new();
                self.info = "Email updated successfully".to_string();
            },
            Err(e) => {
                self.info = String::new();
                let text = e.message();
                self.error = concat("Error updating email: ", text.as_str());
            },
        }
    }

    /// Applies one event of the screen. Deleting the account takes two
    /// presses: the first only arms the button.
    pub fn update(&mut self, store: &mut Store, message: SettingsTabMessage)
        requires
            old(store).wf(),
        ensures
            final(store).wf(),
            final(self).current() == old(self).current(),
            final(store).friend_records() == old(store).friend_records(),
            final(store).membership_records() == old(store).membership_records(),
            final(store).group_records() == old(store).group_records(),
            message matches SettingsTabMessage::ChangeTheme(t) ==> final(self).theme() == t,
            message matches SettingsTabMessage::EmailInputChanged(e) ==> final(self).new_email() == e@,
            message matches SettingsTabMessage::NewPasswordInputChanged(p) ==> final(self).new_password()
                == p@,
            message matches SettingsTabMessage::CurrentPasswordInputChanged(p)
                ==> final(self).current_password() == p@,
            message is DeleteAccount && !old(self).delete_armed() ==> final(self).delete_armed()
                && final(self).deleted() == old(self).deleted() && *final(store) == *old(store),
            message is DeleteAccount && old(self).delete_armed() && old(self).current() is Some
                ==> (final(self).deleted() <==> has_user(old(store).user_records(), old(self).current()->Some_0.id) || old(self).deleted()) && !has_user(final(store).user_records(), old(self).current()->Some_0.id),
            message is DeleteAccount && old(self).delete_armed() && old(self).current() is Some && !has_user(
                old(store).user_records(),
                old(self).current()->Some_0.id,
            ) ==> final(self).error_text() == "Error deleting account: "@ + spec_account_message(AccountError::NotFound)
                && final(self).info_text() == Seq::<char>::empty()
                    && final(store).user_records() == old(store).user_records(),
            message is DeleteAccount && old(self).delete_armed() && old(self).current() is None
                ==> final(self).error_text() == "Error deleting account: "@ + "no user is signed in"@
                && final(self).info_text()
                == Seq::<char>::empty() && *final(store) == *old(store),
            message is UpdateEmail && old(self).new_email().len() > 0
                && spec_is_valid_email(old(self).new_email())
                && old(self).current() is Some
                    && has_user(old(store).user_records(), old(self).current()->Some_0.id)
                && !has_email(old(store).user_records(), old(self).new_email()) ==> final(self).info_text()
                == "Email updated successfully"@
                    && address_set(old(store).user_records(), final(store).user_records(), old(self).current()->Some_0.id, old(self).new_email()),
            message is UpdatePassword && final(self).info_text() == "Password updated successfully"@
                ==> final(self).error_text() == Seq::<char>::empty()
                && password_set(old(store).user_records(), final(store).user_records(), old(self).current(), old(self).current_password(), old(self).new_password()),
            message is UpdatePassword && old(self).new_password().len() > 0
                && old(self).current_password().len()
                > 0 && old(self).current() is Some
                    && has_user(old(store).user_records(), old(self).current()->Some_0.id)
                && spec_is_strong_password(old(self).new_password()) && bcrypt_check(
                old(self).current_password(),
                old(store).user_records()[user_position(
                    old(store).user_records(),
                    old(self).current()->Some_0.id,
                )].password@,
            ) == Some(false)
                ==> final(self).error_text() == spec_account_message(AccountError::WrongPassword),
            message is UpdateEmail && old(self).new_email().len() > 0 && !spec_is_valid_email(
                old(self).new_email(),
            ) ==> final(self).error_text() == "Invalid email format"@,
            message is UpdatePassword && old(self).new_password().len() > 0
                && old(self).current_password().len() > 0 && old(self).current() is Some && has_user(
                old(store).user_records(),
                old(self).current()->Some_0.id,
            ) && !spec_is_strong_password(old(self).new_password()) ==> final(self).error_text()
                == spec_account_message(AccountError::WeakPassword),
    {
        match message {
            SettingsTabMessage::ChangeTheme(app_theme) => {
                self.app_theme = app_theme;
            },
            SettingsTabMessage::EmailInputChanged(email) => {
                self.new_email_value = email;
            },
            SettingsTabMessage::NewPasswordInputChanged(new_password) => {
                self.new_password_value = new_password;
            },
            SettingsTabMessage::CurrentPasswordInputChanged(current_password) => {
                self.current_password_value = current_password;
            },
            SettingsTabMessage::DeleteAccount => {
                if !self.delete_button_pressed {
                    self.delete_button_pressed = true;
                    return;
                }
                let me = match &self.current_user {
                    Some(u) => u.id,
                    None => {
                        self.info = String::new();
                        self.error = concat("Error deleting account: ", "no user is signed in");
                        return;
                    },
                };
                match store.delete_user(me) {
                    Ok(_) => {
                        self.account_deleted = true;
                    },
                    Err(e) => {
                        self.info = String::new();
                        let text = e.message();
                        self.error = concat("Error deleting account: ", text.as_str());
                    },
                }
            },
            SettingsTabMessage::UpdateEmail => {
                self.update_email(store);
            },
            SettingsTabMessage::UpdatePassword => {
                self.update_password(store);
            },
        }
    }

    /// The signed-in user.
    pub fn get_current_user(&self) -> (r: Option<&User>)
        ensures
            r is Some <==> self.current() is Some,
            r is Some ==> *r->Some_0 == self.current()->Some_0,
    {
        self.current_user.as_ref()
    }

    /// The error line.
    pub fn get_error(&self) -> (r: &str)
        ensures
            r@ == self.error_text(),
    {
        self.error.as_str()
    }

    /// The information line.
    pub fn get_info(&self) -> (r: &str)
        ensures
            r@ == self.info_text(),
    {
        self.info.as_str()
    }

    /// The typed new password.
    pub fn get_new_password_value(&self) -> (r: &str)
        ensures
            r@ == self.new_password(),
    {
        self.new_password_value.as_str()
    }

    /// The typed new e-mail address.
    pub fn get_new_email_value(&self) -> (r: &str)
        ensures
            r@ == self.new_email(),
    {
        self.new_email_value.as_str()
    }

    /// The typed current password.
    pub fn get_current_password_value(&self) -> (r: &str)
        ensures
            r@ == self.current_password(),
    {
        self.current_password_value.as_str()
    }

    /// Whether deletion was asked for once already.
    pub fn get_delete_button_pressed(&self) -> (r: bool)
        ensures
            r == self.delete_armed(),
    {
        self.delete_button_pressed
    }

    /// Replaces the error line.
    pub fn set_error(&mut self, error: String)
        ensures
            final(self).error_text() == error@,
            final(self).info_text() == old(self).info_text(),
    {
        self.error = error;
    }

    /// Replaces the information line.
    pub fn set_info(&mut self, info: String)
        ensures
            final(self).info_text() == info@,
            final(self).error_text() == old(self).error_text(),
    {
        self.info = info;
    }

    /// Arms or disarms account deletion.
    pub fn set_delete_button_pressed(&mut self, pressed: bool)
        ensures
            final(self).delete_armed() == pressed,
            final(self).deleted() == old(self).deleted(),
    {
        self.delete_button_pressed = pressed;
    }
}

impl Default for SettingTab {
    fn default() -> (r: SettingTab)
        ensures
            r.current() is None,
            r.error_text() == Seq::<char>::empty(),
            r.info_text() == Seq::<char>::empty(),
            r.theme() == AppTheme::Moonfly,
            !r.delete_armed(),
            !r.deleted(),
    {
        SettingTab::new()
    }
}

} // verus!
