//! The home screen: the three tabs and the periodic refresh that rebuilds the
//! active tab's lists.
use vstd::prelude::*;

use crate::friends::classify_all;
use crate::group_tab::{group_tab_step, GroupTab, GroupTabMessage};
use crate::groups::ids_with_flag;
use crate::models::User;
use crate::relation::RelationError;
use crate::setting_tab::{AppTheme, SettingTab, SettingsTabMessage};
use crate::store::{groups_for_ids, memberships_of_user, relations_of, user_list, Store};
use crate::user_tab::{user_tab_step, UserTab, UserTabMessage};

verus! {

/// The tabs of the home screen.
#[derive(Debug, Clone, Copy, PartialEq, Eq, Structural)]
pub enum TabId {
    User,
    Group,
    Settings,
}

/// The home screen.
#[derive(Debug, Clone)]
pub struct Home {
    current_user: Option<User>,
    active_tab: TabId,
    user_tab: UserTab,
    group_tab: GroupTab,
    settings_tab: SettingTab,
}

/// The events of the home screen.
#[derive(Debug, Clone)]
pub enum HomeMessage {
    NavigateToLogin,
    TabSelected(TabId),
    UserTab(UserTabMessage),
    GroupTab(GroupTabMessage),
    SettingsTab(SettingsTabMessage),
    Tick,
}

/// The users other than `self_id`, in order.
pub open spec fn users_except(users: Seq<User>, self_id: i32) -> Seq<User> {
    users.filter(|u: User| u.id != self_id)
}

/// The friends tab shows the refreshed lists of `me`.
pub open spec fn friends_refreshed(tab: UserTab, store: Store, me: i32) -> bool {
    tab.lists() == classify_all(
        me,
        users_except(user_list(store.user_records()), me),
        relations_of(store.friend_records(), me),
    )
}

/// The groups tab shows the refreshed groups, invitations and friends of
/// `me`.
pub open spec fn groups_refreshed(tab: GroupTab, store: Store, me: i32) -> bool {
    let ms = memberships_of_user(store.membership_records(), me);
    &&& tab.friends() == classify_all(
        me,
        users_except(user_list(store.user_records()), me),
        relations_of(store.friend_records(), me),
    ).1
    &&& tab.member_groups() == groups_for_ids(store.group_records(), ids_with_flag(ms, true))
    &&& tab.invitations() == groups_for_ids(store.group_records(), ids_with_flag(ms, false))
}

/// A settings tab in its initial state.
pub open spec fn settings_reset(tab: SettingTab) -> bool {
    &&& tab.current() is None
    &&& tab.theme() == AppTheme::Moonfly
    &&& !tab.delete_armed()
    &&& !tab.deleted()
    &&& tab.error_text() == Seq::<char>::empty()
    &&& tab.info_text() == Seq::<char>::empty()
    &&& tab.new_email() == Seq::<char>::empty()
    &&& tab.new_password() == Seq::<char>::empty()
    &&& tab.current_password() == Seq::<char>::empty()
}

impl Home {
    /// The signed-in user.
    pub closed spec fn current(&self) -> Option<User> {
        self.current_user
    }

    /// The active tab.
    pub closed spec fn active(&self) -> TabId {
        self.active_tab
    }

    /// The friends tab.
    pub closed spec fn friends_tab(&self) -> UserTab {
        self.user_tab
    }

    /// The groups tab.
    pub closed spec fn groups_tab(&self) -> GroupTab {
        self.group_tab
    }

    /// The settings tab.
    pub closed spec fn settings(&self) -> SettingTab {
        self.settings_tab
    }

    /// A home screen with no user, showing the friends tab.
    pub fn new() -> (r: Home)
        ensures
            r.current() is None,
            r.active() == TabId::User,
    {
        Home {
            current_user: None,
            active_tab: TabId::User,
            user_tab: UserTab::new(),
            group_tab: GroupTab::new(),
            settings_tab: SettingTab::new(),
        }
    }

    /// The signed-in user.
    pub fn get_current_user(&self) -> (r: Option<User>)
        ensures
            r == self.current(),
    {
        match &self.current_user {
            Some(u) => Some(u.duplicate()),
            None => None,
        }
    }

    /// Sets the signed-in user.
    pub fn set_current_user(&mut self, user: User)
        ensures
            final(self).current() == Some(user),
            final(self).active() == old(self).active(),
    {
        self.current_user = Some(user);
    }

    /// The active tab.
    pub fn get_active_tab(&self) -> (r: TabId)
        ensures
            r == self.active(),
    {
        self.active_tab
    }

    /// The friends tab.
    pub fn user_tab(&self) -> (r: &UserTab)
        ensures
            *r == self.friends_tab(),
    {
        &self.user_tab
    }

    /// The groups tab.
    pub fn group_tab(&self) -> (r: &GroupTab)
        ensures
            *r == self.groups_tab(),
    {
        &self.group_tab
    }

    /// The settings tab.
    pub fn settings_tab(&self) -> (r: &SettingTab)
        ensures
            *r == self.settings(),
    {
        &self.settings_tab
    }

    /// The friends tab, for changes in place.
    pub fn get_user_tab(&mut self) -> (r: &mut UserTab)
        ensures
            *r == old(self).friends_tab(),
            final(self).friends_tab() == *final(r),
            final(self).current() == old(self).current(),
            final(self).active() == old(self).active(),
    {
        &mut self.user_tab
    }

    /// The groups tab, for changes in place.
    pub fn get_group_tab(&mut self) -> (r: &mut GroupTab)
        ensures
            *r == old(self).groups_tab(),
            final(self).groups_tab() == *final(r),
            final(self).current() == old(self).current(),
            final(self).active() == old(self).active(),
    {
        &mut self.group_tab
    }

    /// The settings tab, for changes in place.
    pub fn get_settings_tab(&mut self) -> (r: &mut SettingTab)
        ensures
            *r == old(self).settings(),
            final(self).settings() == *final(r),
            final(self).current() == old(self).current(),
            final(self).active() == old(self).active(),
    {
        &mut self.settings_tab
    }

    /// The user directory without the signed-in user.
    fn load_data(&self, store: &Store, me: i32) -> (r: Vec<User>)
        ensures
            r@ == users_except(user_list(store.user_records()), me),
    {
        let users = store.find_all_user();
        let mut r: Vec<User> = Vec::new();
        let mut i: usize = 0;
        while i < users.len()
            invariant
                i <= users@.len(),
                r@ == users_except(users@.subrange(0, i as int), me),
            decreases users@.len() - i,
        {
            proof {
                assert(users@.subrange(0, i + 1).drop_last() =~= users@.subrange(0, i as int));
                reveal(Seq::filter);
            }
            if users[i].id != me {
                r.push(users[i].duplicate());
            }
            i = i + 1;
        }
        assert(users@.subrange(0, i as int) =~= users@);
        r
    }

    /// Refreshes the active tab from the store.
    fn tick(&mut self, store: &mut Store)
        requires
            old(store).wf(),
        ensures
            final(store).wf(),
            *final(store) == *old(store),
            final(self).current() == old(self).current(),
            final(self).active() == old(self).active(),
            final(self).settings() == old(self).settings(),
            (old(self).current() is Some && old(self).active() == TabId::User
                ==> final(self).friends_tab().current()
                == old(self).current()
                    && friends_refreshed(final(self).friends_tab(), *old(store), old(self).current()->Some_0.id))
                && (old(self).current() is Some && old(self).active() == TabId::Group
                    ==> final(self).groups_tab().current()
                == old(self).current()
                    && groups_refreshed(final(self).groups_tab(), *old(store), old(self).current()->Some_0.id)),
    {
        let me = match &self.current_user {
            Some(u) => u.duplicate(),
            None => {
                return;
            },
        };
        let users = self.load_data(store, me.id);
        match self.active_tab {
            TabId::User => {
                self.user_tab.set_current_user(me);
                let _ = self.user_tab.update(store, UserTabMessage::Tick(users));
            },
            TabId::Group => {
                self.group_tab.set_current_user(me);
                let _ = self.group_tab.update(store, GroupTabMessage::Tick(users));
            },
            TabId::Settings => {},
        }
    }

    /// Applies one event of the screen and passes on the result of a tab's
    /// event. Selecting the friends or groups tab resets the settings tab and
    /// refreshes the chosen tab at once; a refresh rebuilds the active tab.
    pub fn update(&mut self, store: &mut Store, message: HomeMessage) -> (r: Result<(), RelationError>)
        requires
            old(store).wf(),
        ensures
            final(store).wf(),
            final(self).current() == old(self).current(),
            message is NavigateToLogin ==> *final(store) == *old(store)
                && final(self).active() == old(self).active()
                && final(self).friends_tab() == old(self).friends_tab() && final(self).groups_tab() == old(
                self).groups_tab() && final(self).settings() == old(self).settings(),
            message is NavigateToLogin ==> r is Ok,
            message matches HomeMessage::TabSelected(t) ==> r is Ok && final(self).active() == t
                && *final(store) == *old(store)
                    && (t == TabId::User || t == TabId::Group ==> settings_reset(final(self).settings()))
                    && (t == TabId::User && old(self).current() is Some
                        ==> final(self).friends_tab().current()
                    == old(self).current()
                        && friends_refreshed(final(self).friends_tab(), *old(store), old(self).current()->Some_0.id))
                    && (t == TabId::Group && old(self).current() is Some
                        ==> final(self).groups_tab().current()
                    == old(self).current()
                        && groups_refreshed(final(self).groups_tab(), *old(store), old(self).current()->Some_0.id))
                    && (t == TabId::Settings ==> (old(self).current() is Some
                        ==> final(self).settings().current() == old(self).current())
                    && final(self).friends_tab() == old(self).friends_tab()
                        && final(self).groups_tab() == old(self).groups_tab()),
            message matches HomeMessage::UserTab(m) ==> user_tab_step(
                old(self).friends_tab(),
                final(self).friends_tab(),
                *old(store),
                *final(store),
                m,
                r,
            ) && final(self).active() == old(self).active()
                && final(self).groups_tab() == old(self).groups_tab()
                && final(self).settings() == old(self).settings(),
            message matches HomeMessage::GroupTab(m) ==> group_tab_step(
                old(self).groups_tab(),
                final(self).groups_tab(),
                *old(store),
                *final(store),
                m,
                r,
            ) && final(self).active() == old(self).active()
                && final(self).friends_tab() == old(self).friends_tab()
                && final(self).settings() == old(self).settings(),
            message is SettingsTab ==> r is Ok && final(self).active() == old(self).active() && final(
                    self).friends_tab() == old(self).friends_tab()
                        && final(self).groups_tab() == old(self).groups_tab(),
            message is Tick ==> r is Ok && *final(store) == *old(store)
                && final(self).active() == old(self).active()
                    && (old(self).current() is Some && old(self).active() == TabId::User
                        ==> final(self).friends_tab().current()
                == old(self).current()
                    && friends_refreshed(final(self).friends_tab(), *old(store), old(self).current()->Some_0.id))
                && (old(self).current() is Some && old(self).active() == TabId::Group
                    ==> final(self).groups_tab().current()
                == old(self).current()
                    && groups_refreshed(final(self).groups_tab(), *old(store), old(self).current()->Some_0.id)),
    {
        match message {
            HomeMessage::NavigateToLogin => Ok(()),
            HomeMessage::TabSelected(tab_id) => {
                match tab_id {
                    TabId::User => {
                        self.settings_tab = SettingTab::new();
                        self.active_tab = tab_id;
                        self.tick(store);
                    },
                    TabId::Group => {
                        self.settings_tab = SettingTab::new();
                        self.active_tab = tab_id;
                        self.tick(store);
                    },
                    TabId::Settings => {
                        match &self.current_user {
                            Some(u) => {
                                self.settings_tab.set_current_user(u.duplicate());
                            },
                            None => {},
                        }
                        self.active_tab = tab_id;
                    },
                }
                Ok(())
            },
            HomeMessage::UserTab(message) => self.user_tab.update(store, message),
            HomeMessage::GroupTab(message) => self.group_tab.update(store, message),
            HomeMessage::SettingsTab(message) => {
                self.settings_tab.update(store, message);
                Ok(())
            },
            HomeMessage::Tick => {
                self.tick(store);
                Ok(())
            },
        }
    }

    /// The active tab.
    pub fn active_tab(&self) -> (r: TabId)
        ensures
            r == self.active(),
    {
        self.active_tab
    }
}

impl Default for Home {
    fn default() -> (r: Home)
        ensures
            r.current() is None,
            r.active() == TabId::User,
    {
        Home::new()
    }
}

} // verus!
