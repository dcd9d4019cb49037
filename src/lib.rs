//! Friend and group relationships for a small chat application: the
//! canonical encoding of symmetric friend pairs, an in-memory relation store,
//! the reconciliation engines that classify a user's relations into the lists
//! a user interface shows, and the state machines of the screens that drive
//! them.

pub mod application;
pub mod credentials;
pub mod dates;
pub mod friends;
pub mod group_chat;
pub mod group_tab;
pub mod groups;
pub mod home;
pub mod login;
pub mod models;
pub mod register;
pub mod relation;
pub mod setting_tab;
pub mod store;
pub mod text;
pub mod user_chat;
pub mod user_tab;
