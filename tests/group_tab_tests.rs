use secse24_group08::group_tab::{GroupTab, GroupTabMessage};
use secse24_group08::groups::{accept_invite, create_group_with_creator, invite_user, leave_group, reconcile_groups};
use secse24_group08::models::{Group, User};
use secse24_group08::relation::RelationError;
use secse24_group08::store::Store;

fn create_test_user(id: i32, first_name: &str, last_name: &str) -> User {
    User { id, first_name: first_name.to_string(), last_name: last_name.to_string() }
}

fn setup_group_tab_with_user(id: i32, first_name: &str, last_name: &str) -> GroupTab {
    let mut group_tab = GroupTab::default();
    let user = create_test_user(id, first_name, last_name);
    group_tab.set_current_user(user);
    group_tab
}

fn create_test_group(store: &mut Store, name: &str) -> Group {
    store.create_group(name).expect("Failed to create group")
}

fn clean_up_group(store: &mut Store, group_id: i32) {
    let result = store.delete_group(group_id);
    assert!(result.is_ok());
}

#[test]
fn group_tab_tests_test_set_current_user() {
    let mut group_tab = GroupTab::default();
    let user = create_test_user(1, "Alice", "Doe");
    group_tab.set_current_user(user.clone());
    let result = group_tab.get_current_user();
    assert!(result.clone().is_some());
}

#[test]
fn test_group_name_changed() {
    let mut store = Store::new();
    let mut group_tab = GroupTab::default();
    group_tab.update(&mut store, GroupTabMessage::GroupNameChanged("New Group".to_string()));
    assert_eq!(group_tab.get_new_group_name(), "New Group");
}

#[test]
fn test_create_group() {
    let mut store = Store::new();
    let mut group_tab = setup_group_tab_with_user(1, "John", "Doe");
    group_tab.update(&mut store, GroupTabMessage::GroupNameChanged("Test Group".to_string()));
    group_tab.update(&mut store, GroupTabMessage::CreateGroup);
    assert_eq!(group_tab.get_error(), "");
    assert!(!group_tab.get_groups_of_user().is_empty());
    assert_eq!(group_tab.get_groups_of_user()[0].name, "Test Group");
    assert_eq!(group_tab.get_info(), "Group Test Group created");
    let id = group_tab.get_groups_of_user()[0].id;
    clean_up_group(&mut store, id);
}

#[test]
fn create_group_with_empty_name() {
    let mut store = Store::new();
    let mut group_tab = setup_group_tab_with_user(1, "John", "Doe");
    group_tab.update(&mut store, GroupTabMessage::CreateGroup);
    assert_eq!(group_tab.get_error(), "Group name cannot be empty");
    assert!(group_tab.get_groups_of_user().is_empty());
    assert_eq!(create_group_with_creator(&mut store, 1, "").err(), Some(RelationError::Validation));
}

#[test]
fn test_user_selected() {
    let mut store = Store::new();
    let mut group_tab = GroupTab::default();
    let user = create_test_user(2, "John", "Doe");
    group_tab.update(&mut store, GroupTabMessage::UserSelected(user.clone()));
    let result = group_tab.get_selected_user();
    assert!(result.is_some());
}

#[test]
fn test_chat_with_group() {
    let mut store = Store::new();
    let mut group_tab = GroupTab::default();
    let group = create_test_group(&mut store, "Test Group");
    group_tab.update(&mut store, GroupTabMessage::ChatWithGroup(group.clone()));
    let result = group_tab.get_group_to_chat_with();
    assert!(result.is_some());
    clean_up_group(&mut store, group.id);
}

#[test]
fn test_accept_group() {
    let mut store = Store::new();
    let mut group_tab = setup_group_tab_with_user(1, "John", "Doe");
    let group = create_test_group(&mut store, "Test Group");
    // Acceptance needs a pending invitation.
    assert!(invite_user(&mut store, 1, group.id).is_ok());
    group_tab.update(&mut store, GroupTabMessage::AcceptGroup(group.clone()));
    assert!(!group_tab.get_groups_of_user().is_empty());
    assert_eq!(group_tab.get_groups_of_user()[0], group);
    clean_up_group(&mut store, group.id);
}

#[test]
fn accept_without_invitation_is_refused() {
    let mut store = Store::new();
    let mut group_tab = setup_group_tab_with_user(1, "John", "Doe");
    let group = create_test_group(&mut store, "Test Group");
    assert_eq!(
        group_tab.update(&mut store, GroupTabMessage::AcceptGroup(group.clone())),
        Err(RelationError::NotFound)
    );
    assert!(group_tab.get_groups_of_user().is_empty());
    assert_eq!(group_tab.get_error(), "Error accepting invite to group: Test Group");
}

#[test]
fn test_leave_group() {
    let mut store = Store::new();
    let mut group_tab = setup_group_tab_with_user(1, "John", "Doe");
    let group = create_group_with_creator(&mut store, 1, "Test Group").unwrap();
    group_tab.push_groups_of_user(group.clone());
    group_tab.update(&mut store, GroupTabMessage::LeaveGroup(group.clone()));
    assert!(group_tab.get_groups_of_user().is_empty());
    assert_eq!(group_tab.get_info(), "Left group Test Group");
}

#[test]
fn test_invite_user_to_group() {
    let mut store = Store::new();
    let mut group_tab = setup_group_tab_with_user(1, "John", "Doe");
    let invited_user = create_test_user(2, "Jane", "Doe");
    group_tab.update(&mut store, GroupTabMessage::UserSelected(invited_user.clone()));
    let group = create_test_group(&mut store, "Test Group");
    group_tab.update(&mut store, GroupTabMessage::InviteUserToGroup(group.clone()));
    assert_eq!(group_tab.get_info(), "User Jane Doe invited to group Test Group");
    clean_up_group(&mut store, group.id);
}

#[test]
fn invite_twice_reports_membership() {
    let mut store = Store::new();
    let mut group_tab = setup_group_tab_with_user(1, "John", "Doe");
    let invited_user = create_test_user(2, "Jane", "Doe");
    let group = create_test_group(&mut store, "Test Group");
    group_tab.update(&mut store, GroupTabMessage::UserSelected(invited_user.clone()));
    group_tab.update(&mut store, GroupTabMessage::InviteUserToGroup(group.clone()));
    group_tab.update(&mut store, GroupTabMessage::UserSelected(invited_user.clone()));
    assert_eq!(
        group_tab.update(&mut store, GroupTabMessage::InviteUserToGroup(group.clone())),
        Err(RelationError::AlreadyMember)
    );
    assert_eq!(group_tab.get_error(), "User Jane Doe is already in group Test Group");
    assert_eq!(group_tab.get_info(), "");
    group_tab.update(&mut store, GroupTabMessage::InviteUserToGroup(group.clone()));
    assert_eq!(group_tab.get_error(), "Select a user to invite");
    assert_eq!(invite_user(&mut store, 2, group.id).err(), Some(RelationError::AlreadyMember));
}

#[test]
fn group_tab_tests_test_handle_tick() {
    let mut store = Store::new();
    let mut group_tab = setup_group_tab_with_user(1, "John", "Doe");
    let group = create_group_with_creator(&mut store, 1, "Test Group").unwrap();
    group_tab.push_groups_of_user(group.clone());
    let users = store.find_all_user();
    group_tab.update(&mut store, GroupTabMessage::Tick(users));
    assert_eq!(group_tab.get_groups_of_user().len(), 1);
    clean_up_group(&mut store, group.id);
}

#[test]
fn created_group_is_member_not_invited() {
    let mut store = Store::new();
    let group = create_group_with_creator(&mut store, 7, "Crew").unwrap();
    let views = reconcile_groups(&store, 7);
    assert_eq!(views.member, vec![group]);
    assert!(views.invited.is_empty());
}

#[test]
fn invite_then_accept_moves_group() {
    let mut store = Store::new();
    let group = create_group_with_creator(&mut store, 1, "Crew").unwrap();
    invite_user(&mut store, 2, group.id).unwrap();
    let before = reconcile_groups(&store, 2);
    assert_eq!(before.invited, vec![group.clone()]);
    assert!(before.member.is_empty());
    assert_eq!(accept_invite(&mut store, 2, group.id), Ok(()));
    let after = reconcile_groups(&store, 2);
    assert_eq!(after.member, vec![group.clone()]);
    assert!(after.invited.is_empty());
    assert_eq!(accept_invite(&mut store, 2, group.id), Err(RelationError::NotFound));
}

#[test]
fn last_member_leaving_deletes_group() {
    let mut store = Store::new();
    let group = create_group_with_creator(&mut store, 1, "Crew").unwrap();
    invite_user(&mut store, 2, group.id).unwrap();
    assert_eq!(leave_group(&mut store, 1, group.id), Ok(false));
    assert_eq!(store.find_groups_by_ids(&vec![group.id]), vec![group.clone()]);
    assert_eq!(leave_group(&mut store, 2, group.id), Ok(true));
    assert!(store.find_groups_by_ids(&vec![group.id]).is_empty());
    assert!(reconcile_groups(&store, 1).member.is_empty());
    assert!(reconcile_groups(&store, 2).invited.is_empty());
    assert_eq!(leave_group(&mut store, 2, group.id), Err(RelationError::NotFound));
    assert_eq!(store.delete_group(group.id), Err(RelationError::NotFound));
}

#[test]
fn leaving_with_other_members_keeps_the_group() {
    let mut store = Store::new();
    let group = create_group_with_creator(&mut store, 1, "Crew").unwrap();
    invite_user(&mut store, 2, group.id).unwrap();
    let mut tab = setup_group_tab_with_user(1, "John", "Doe");
    tab.push_groups_of_user(group.clone());
    assert_eq!(tab.update(&mut store, GroupTabMessage::LeaveGroup(group.clone())), Ok(()));
    assert_eq!(tab.get_error(), "");
    assert_eq!(store.find_groups_by_ids(&vec![group.id]), vec![group.clone()]);
    assert_eq!(store.find_all_user_groups_of_group(group.id).len(), 1);
    let mut other = setup_group_tab_with_user(2, "Jane", "Doe");
    assert_eq!(other.update(&mut store, GroupTabMessage::LeaveGroup(group.clone())), Ok(()));
    assert!(store.find_groups_by_ids(&vec![group.id]).is_empty());
    assert_eq!(
        other.update(&mut store, GroupTabMessage::LeaveGroup(group.clone())),
        Err(RelationError::NotFound)
    );
}

#[test]
fn deleting_a_group_removes_its_memberships() {
    let mut store = Store::new();
    let group = create_group_with_creator(&mut store, 1, "Crew").unwrap();
    invite_user(&mut store, 2, group.id).unwrap();
    let other = create_group_with_creator(&mut store, 2, "Other").unwrap();
    assert_eq!(store.delete_group(group.id), Ok(()));
    assert!(store.find_all_user_groups_of_group(group.id).is_empty());
    assert_eq!(store.find_all_user_groups_of_user(2).len(), 1);
    assert_eq!(store.find_all_user_groups_of_group(other.id).len(), 1);
    assert_eq!(invite_user(&mut store, 2, group.id).err(), Some(RelationError::NotFound));
}

#[test]
fn existing_membership_is_reported_before_a_missing_group() {
    let mut store = Store::new();
    let group = create_group_with_creator(&mut store, 1, "Crew").unwrap();
    assert_eq!(store.create_user_group(1, group.id, false).err(), Some(RelationError::AlreadyMember));
    assert_eq!(store.create_user_group(1, group.id + 100, false).err(), Some(RelationError::NotFound));
}
