//! The application: which page is shown, and the routing of every event to
//! the screen it belongs to.
use vstd::prelude::*;

use crate::group_chat::{GroupChat, GroupChatMessage};
use crate::group_tab::GroupTabMessage;
use crate::home::{Home, HomeMessage, TabId};
use crate::login::{Login, LoginMessage};
use crate::models::User;
use crate::register::{Register, RegisterMessage};
use crate::setting_tab::{AppTheme, SettingsTabMessage};
use crate::relation::RelationError;
use crate::store::Store;
use crate::user_chat::{UserChat, UserChatMessage};
use crate::user_tab::UserTabMessage;

verus! {

/// The pages of the application.
#[derive(Debug, Clone, Copy, PartialEq, Eq, Structural)]
pub enum Page {
    Home,
    Login,
    Register,
    UserChat,
    GroupChat,
}

/// The application state.
#[derive(Debug, Clone)]
pub struct App {
    current_user: Option<User>,
    current_page: Page,
    app_theme: AppTheme,
    login: Login,
    home: Home,
    register: Register,
    user_chat: UserChat,
    group_chat: GroupChat,
}

/// The events of the application, each for one page.
#[derive(Debug, Clone)]
pub enum Message {
    SwitchPage(Page),
    LoginMessage(LoginMessage),
    HomeMessage(HomeMessage),
    RegisterMessage(RegisterMessage),
    UserChatMessage(UserChatMessage),
    GroupChatMessage(GroupChatMessage),
}

/// How often, in seconds, the page is refreshed: the home page every ten
/// seconds, a chat every five, the other pages never.
pub open spec fn spec_tick_interval(page: Page) -> Option<u64> {
    match page {
        Page::Home => Some(10),
        Page::UserChat => Some(5),
        Page::GroupChat => Some(5),
        _ => None,
    }
}

/// How often, in seconds, the page is refreshed.
pub fn tick_interval(page: Page) -> (r: Option<u64>)
    ensures
        r == spec_tick_interval(page),
{
    match page {
        Page::Home => Some(10),
        Page::UserChat => Some(5),
        Page::GroupChat => Some(5),
        _ => None,
    }
}

impl App {
    /// The signed-in user.
    pub closed spec fn user(&self) -> Option<User> {
        self.current_user
    }

    /// The page shown.
    pub closed spec fn page(&self) -> Page {
        self.current_page
    }

    /// The theme.
    pub closed spec fn theme(&self) -> AppTheme {
        self.app_theme
    }

    /// The sign-in screen.
    pub closed spec fn login_screen(&self) -> Login {
        self.login
    }

    /// The registration screen.
    pub closed spec fn register_screen(&self) -> Register {
        self.register
    }

    /// The direct chat screen.
    pub closed spec fn user_chat_screen(&self) -> UserChat {
        self.user_chat
    }

    /// The group chat screen.
    pub closed spec fn group_chat_screen(&self) -> GroupChat {
        self.group_chat
    }

    /// The home screen.
    pub closed spec fn home_screen(&self) -> Home {
        self.home
    }

    /// A signed-out application on the sign-in page.
    pub fn new() -> (r: App)
        ensures
            r.user() is None,
            r.page() == Page::Login,
            r.theme() == AppTheme::Moonfly,
    {
        App {
            current_user: None,
            current_page: Page::Login,
            app_theme: AppTheme::Moonfly,
            login: Login::new(),
            home: Home::new(),
            register: Register::new(),
            user_chat: UserChat::new(),
            group_chat: GroupChat::new(),
        }
    }

    /// The window title.
    pub fn title(&self) -> (r: String)
        ensures
            r@ == "SecSE24 Group08"@,
    {
        "SecSE24 Group08".to_string()
    }

    /// How often, in seconds, the page shown is refreshed.
    pub fn subscription_interval(&self) -> (r: Option<u64>)
        ensures
            r == spec_tick_interval(self.page()),
    {
        tick_interval(self.current_page)
    }

    fn handle_login_message(&mut self, store: &mut Store, message: LoginMessage)
        requires
            old(store).wf(),
        ensures
            final(store).wf(),
            final(self).theme() == old(self).theme(),
            message is NavigateToRegister ==> final(self).page() == Page::Register,
            !(message is NavigateToRegister) && !(message is SubmitLogin)
                ==> final(self).page() == old(self).page(),
            message is SubmitLogin ==> (final(self).user() is Some && final(self).page() == Page::Home) || (
            final(self).user() == old(self).user() && final(self).page() == old(self).page()),
    {
        match message {
            LoginMessage::NavigateToRegister => {
                self.register = Register::new();
                self.current_page = Page::Register;
            },
            LoginMessage::SubmitLogin => {
                self.login.update(store, LoginMessage::SubmitLogin);
                let found = self.login.get_found_user();
                if found.id != -1 {
                    let user = found.duplicate();
                    self.home = Home::new();
                    self.home.set_current_user(user.duplicate());
                    self.current_user = Some(user);
                    let _ = self.home.update(store, HomeMessage::Tick);
                    self.current_page = Page::Home;
                }
            },
            other => {
                self.login.update(store, other);
            },
        }
    }

    fn handle_home_message(&mut self, store: &mut Store, message: HomeMessage) -> (r: Result<(), RelationError>)
        requires
            old(store).wf(),
        ensures
            final(store).wf(),
            message is NavigateToLogin ==> final(self).page() == Page::Login,
            !(message is UserTab) && !(message is GroupTab) ==> r is Ok,
    {
        match message {
            HomeMessage::NavigateToLogin => {
                self.login = Login::new();
                self.current_page = Page::Login;
            },
            HomeMessage::TabSelected(tab_id) => {
                match tab_id {
                    TabId::Settings => {
                        let theme = self.app_theme;
                        self.home.get_settings_tab().set_app_theme(theme);
                        let _ = self.home.update(store, HomeMessage::TabSelected(tab_id));
                    },
                    _ => {
                        let _ = self.home.update(store, HomeMessage::TabSelected(tab_id));
                    },
                }
            },
            HomeMessage::UserTab(user_tab_message) => {
                match user_tab_message {
                    UserTabMessage::ChatWithUser(other) => {
                        match &self.current_user {
                            Some(me) => {
                                self.user_chat.set_properties(me.duplicate(), other);
                                self.user_chat.update(store, UserChatMessage::Tick);
                                self.current_page = Page::UserChat;
                            },
                            None => {},
                        }
                    },
                    other => {
                        return self.home.get_user_tab().update(store, other);
                    },
                }
            },
            HomeMessage::GroupTab(group_tab_message) => {
                match group_tab_message {
                    GroupTabMessage::ChatWithGroup(group) => {
                        match &self.current_user {
                            Some(me) => {
                                self.group_chat.set_properties(me.duplicate(), group);
                                self.group_chat.update(store, GroupChatMessage::Tick);
                                self.current_page = Page::GroupChat;
                            },
                            None => {},
                        }
                    },
                    other => {
                        return self.home.get_group_tab().update(store, other);
                    },
                }
            },
            HomeMessage::SettingsTab(settings_message) => {
                match settings_message {
                    SettingsTabMessage::DeleteAccount => {
                        self.home.get_settings_tab().update(store, SettingsTabMessage::DeleteAccount);
                        if self.home.get_settings_tab().get_account_deleted() {
                            self.current_user = None;
                            self.login = Login::new();
                            self.home = Home::new();
                            self.current_page = Page::Login;
                        }
                    },
                    SettingsTabMessage::ChangeTheme(theme) => {
                        self.home.get_settings_tab().update(store, SettingsTabMessage::ChangeTheme(theme));
                        self.app_theme = self.home.get_settings_tab().get_app_theme();
                    },
                    other => {
                        self.home.get_settings_tab().update(store, other);
                    },
                }
            },
            HomeMessage::Tick => {
                let _ = self.home.update(store, HomeMessage::Tick);
            },
        }
        Ok(())
    }

    /// Applies one event. Signing in opens the home page with a fresh
    /// refresh; deleting the account signs out; leaving a chat returns home.
    pub fn update(&mut self, store: &mut Store, message: Message) -> (r: Result<(), RelationError>)
        requires
            old(store).wf(),
        ensures
            final(store).wf(),
            !(message is HomeMessage) ==> r is Ok,
            message matches Message::SwitchPage(p) ==> final(self).page() == p
                && *final(store) == *old(store),
            message matches Message::LoginMessage(m) && m is NavigateToRegister ==> final(self).page()
                == Page::Register,
            message matches Message::HomeMessage(m) && m is NavigateToLogin
                ==> final(self).page() == Page::Login,
            message matches Message::RegisterMessage(m) && m is NavigateToLogin ==> final(self).page()
                == Page::Login,
            message matches Message::UserChatMessage(m) && m is Back ==> final(self).page() == Page::Home,
            message matches Message::GroupChatMessage(m) && m is Back ==> final(self).page() == Page::Home,
    {
        match message {
            Message::SwitchPage(page) => {
                self.current_page = page;
            },
            Message::LoginMessage(m) => {
                self.handle_login_message(store, m);
            },
            Message::HomeMessage(m) => {
                return self.handle_home_message(store, m);
            },
            Message::RegisterMessage(m) => {
                match m {
                    RegisterMessage::NavigateToLogin => {
                        self.login = Login::new();
                        self.current_page = Page::Login;
                    },
                    other => {
                        self.register.update(store, other);
                    },
                }
            },
            Message::UserChatMessage(m) => {
                match m {
                    UserChatMessage::Back => {
                        self.user_chat = UserChat::new();
                        self.current_page = Page::Home;
                    },
                    other => {
                        self.user_chat.update(store, other);
                    },
                }
            },
            Message::GroupChatMessage(m) => {
                match m {
                    GroupChatMessage::Back => {
                        self.group_chat = GroupChat::new();
                        self.current_page = Page::Home;
                    },
                    other => {
                        self.group_chat.update(store, other);
                    },
                }
            },
        }
        Ok(())
    }

    /// The page shown.
    pub fn get_current_page(&self) -> (r: Page)
        ensures
            r == self.page(),
    {
        self.current_page
    }

    /// The signed-in user.
    pub fn get_current_user(&self) -> (r: Option<User>)
        ensures
            r == self.user(),
    {
        match &self.current_user {
            Some(u) => Some(u.duplicate()),
            None => None,
        }
    }

    /// The home screen.
    pub fn get_home(&self) -> (r: &Home)
        ensures
            *r == self.home_screen(),
    {
        &self.home
    }

    /// The sign-in screen.
    pub fn login(&self) -> (r: &Login)
        ensures
            *r == self.login_screen(),
    {
        &self.login
    }

    /// The registration screen.
    pub fn register(&self) -> (r: &Register)
        ensures
            *r == self.register_screen(),
    {
        &self.register
    }

    /// The direct chat screen.
    pub fn user_chat(&self) -> (r: &UserChat)
        ensures
            *r == self.user_chat_screen(),
    {
        &self.user_chat
    }

    /// The group chat screen.
    pub fn group_chat(&self) -> (r: &GroupChat)
        ensures
            *r == self.group_chat_screen(),
    {
        &self.group_chat
    }

    /// The theme.
    pub fn get_app_theme(&self) -> (r: AppTheme)
        ensures
            r == self.theme(),
    {
        self.app_theme
    }

    /// Signs the user in on every screen that shows it.
    pub fn set_current_user(&mut self, user: User)
        ensures
            final(self).user() == Some(user),
            final(self).home_screen().current() == Some(user),
            final(self).page() == old(self).page(),
    {
        self.current_user = Some(user.duplicate());
        self.home.set_current_user(user.duplicate());
        self.login.set_found_user(user);
    }
}

impl Default for App {
    fn default() -> (r: App)
        ensures
            r.user() is None,
            r.page() == Page::Login,
            r.theme() == AppTheme::Moonfly,
    {
        App::new()
    }
}

} // verus!
