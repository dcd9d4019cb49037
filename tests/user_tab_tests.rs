use secse24_group08::models::User;
use secse24_group08::relation::RelationError;
use secse24_group08::store::Store;
use secse24_group08::user_tab::{UserTab, UserTabMessage};

fn create_test_user(store: &mut Store, first_name: &str, last_name: &str, email: &str, password: &str) -> User {
    let user = store.create_user(first_name, last_name, email, password);
    assert!(user.is_ok());
    user.unwrap()
}

fn delete_friends(store: &mut Store, users: Vec<User>) {
    for user in users {
        let result = store.delete_user(user.id);
        assert!(result.is_ok());
    }
}

#[test]
fn user_tab_tests_test_set_current_user() {
    let mut user_tab = UserTab::default();
    let user = User { id: 1, first_name: "Alice".to_string(), last_name: "Doe".to_string() };
    user_tab.set_current_user(user.clone());
    assert_eq!(user_tab.get_current_user(), Some(&user));
}

#[test]
fn test_send_friend_request() {
    let mut store = Store::new();
    let mut user_tab = UserTab::default();
    let current_user = create_test_user(&mut store, "Alice", "Doe", "friend1@mail.de", "wta3xr{F)o{uDh$w");
    let selected_user = create_test_user(&mut store, "Bob", "Doe", "friend2@mail.de", "wta3xr{F)o{uDh$w");
    user_tab.set_current_user(current_user.clone());
    user_tab.update(&mut store, UserTabMessage::UserSelected(selected_user.clone()));
    user_tab.update(&mut store, UserTabMessage::Tick(vec![selected_user.clone(), current_user.clone()]));
    user_tab.update(&mut store, UserTabMessage::SendFriendRequestToSelectedUser);
    assert!(!user_tab.get_all_users_not_friends().contains(&selected_user));
    assert!(user_tab.get_send_friend_requests().contains(&selected_user));
    assert!(user_tab.get_selected_user().is_none());
    delete_friends(&mut store, vec![current_user, selected_user]);
}

#[test]
fn user_tab_tests_test_handle_tick() {
    let mut store = Store::new();
    let mut user_tab = UserTab::default();
    let current_user = create_test_user(&mut store, "Alice", "Doe", "friend3@mail.de", "wta3xr{F)o{uDh$w");
    let other_user = create_test_user(&mut store, "Bob", "Doe", "friend4@mail.de", "wta3xr{F)o{uDh$w");
    user_tab.set_current_user(current_user.clone());
    user_tab.update(&mut store, UserTabMessage::Tick(vec![other_user.clone(), current_user.clone()]));
    assert!(user_tab.get_all_users_not_friends().contains(&other_user));
    assert!(!user_tab.get_all_users_not_friends().contains(&current_user));
    delete_friends(&mut store, vec![current_user, other_user]);
}

#[test]
fn test_remove_friend() {
    let mut store = Store::new();
    let mut user_tab = UserTab::default();
    let current_user = create_test_user(&mut store, "Alice", "Doe", "friend5@mail.de", "wta3xr{F)o{uDh$w");
    let other_user = create_test_user(&mut store, "Bob", "Doe", "friend6@mail.de", "wta3xr{F)o{uDh$w");
    user_tab.set_current_user(current_user.clone());
    let friends = store.create_user_friend(current_user.id, other_user.id, true, true);
    assert!(friends.is_ok());
    let users = store.find_all_user();
    user_tab.update(&mut store, UserTabMessage::Tick(users));
    assert!(user_tab.get_friends().contains(&other_user));
    user_tab.update(&mut store, UserTabMessage::RemoveFriend(other_user.clone()));
    assert!(user_tab.get_all_users_not_friends().contains(&other_user));
    assert!(!user_tab.get_friends().contains(&other_user));
    delete_friends(&mut store, vec![current_user, other_user]);
}

#[test]
fn test_accept_friend_request() {
    let mut store = Store::new();
    let mut user_tab = UserTab::default();
    let current_user = create_test_user(&mut store, "Alice", "Doe", "friend7@mail.de", "wta3xr{F)o{uDh$w");
    let other_user = create_test_user(&mut store, "Bob", "Doe", "friend8@mail.de", "wta3xr{F)o{uDh$w");
    user_tab.set_current_user(current_user.clone());
    user_tab.update(&mut store, UserTabMessage::Tick(vec![other_user.clone(), current_user.clone()]));
    user_tab.update(&mut store, UserTabMessage::UserSelected(other_user.clone()));
    user_tab.update(&mut store, UserTabMessage::SendFriendRequestToSelectedUser);
    user_tab.set_current_user(other_user.clone());
    user_tab.update(&mut store, UserTabMessage::UserSelected(current_user.clone()));
    user_tab.update(&mut store, UserTabMessage::AcceptFriendRequest(current_user.clone()));
    assert!(!user_tab.get_send_friend_requests().contains(&current_user));
    assert!(user_tab.get_friends().contains(&current_user));
    delete_friends(&mut store, vec![current_user, other_user]);
}

#[test]
fn test_remove_friend_request() {
    let mut store = Store::new();
    let mut user_tab = UserTab::default();
    let current_user = create_test_user(&mut store, "Alice", "Doe", "friend9@mail.de", "wta3xr{F)o{uDh$w");
    let other_user = create_test_user(&mut store, "Bob", "Doe", "friend10@mail.de", "wta3xr{F)o{uDh$w");
    user_tab.set_current_user(current_user.clone());
    user_tab.update(&mut store, UserTabMessage::UserSelected(other_user.clone()));
    user_tab.update(&mut store, UserTabMessage::Tick(vec![other_user.clone(), current_user.clone()]));
    user_tab.update(&mut store, UserTabMessage::SendFriendRequestToSelectedUser);
    assert!(user_tab.get_send_friend_requests().contains(&other_user));
    user_tab.update(&mut store, UserTabMessage::RemoveFriendRequest(other_user.clone()));
    assert!(!user_tab.get_send_friend_requests().contains(&other_user));
    delete_friends(&mut store, vec![current_user, other_user]);
}

#[test]
fn test_decline_friend_request() {
    let mut store = Store::new();
    let mut user_tab = UserTab::default();
    let current_user = create_test_user(&mut store, "Alice", "Doe", "friend11@mail.de", "wta3xr{F)o{uDh$w");
    let other_user = create_test_user(&mut store, "Bob", "Doe", "friend12@mail.de", "wta3xr{F)o{uDh$w");
    user_tab.set_current_user(current_user.clone());
    user_tab.update(&mut store, UserTabMessage::UserSelected(other_user.clone()));
    user_tab.update(&mut store, UserTabMessage::Tick(vec![other_user.clone(), current_user.clone()]));
    user_tab.update(&mut store, UserTabMessage::SendFriendRequestToSelectedUser);
    user_tab.set_current_user(other_user.clone());
    user_tab.update(&mut store, UserTabMessage::UserSelected(current_user.clone()));
    user_tab.update(&mut store, UserTabMessage::DeclineFriendRequest(current_user.clone()));
    assert!(!user_tab.get_send_friend_requests().contains(&current_user));
    assert!(!user_tab.get_friends().contains(&current_user));
    delete_friends(&mut store, vec![current_user, other_user]);
}

#[test]
fn test_update_user_selected() {
    let mut store = Store::new();
    let mut user_tab = UserTab::default();
    let user = User { id: 2, first_name: "Bob".to_string(), last_name: "Doe".to_string() };
    user_tab.update(&mut store, UserTabMessage::UserSelected(user.clone()));
    assert_eq!(user_tab.get_selected_user(), Some(user).as_ref());
}

#[test]
fn test_update_chat_with_user() {
    let mut store = Store::new();
    let mut user_tab = UserTab::default();
    let user = User { id: 2, first_name: "Bob".to_string(), last_name: "Doe".to_string() };
    user_tab.update(&mut store, UserTabMessage::ChatWithUser(user.clone()));
    assert_eq!(user_tab.get_user_to_chat_with(), Some(user).as_ref());
}

#[test]
fn duplicate_request_leaves_views_unchanged() {
    let mut store = Store::new();
    let a = User { id: 1, first_name: "A".to_string(), last_name: "X".to_string() };
    let b = User { id: 2, first_name: "B".to_string(), last_name: "X".to_string() };
    assert!(store.create_user_friend(1, 2, false, true).is_ok());
    let mut user_tab = UserTab::default();
    user_tab.set_current_user(a.clone());
    user_tab.update(&mut store, UserTabMessage::UserSelected(b.clone()));
    assert_eq!(
        user_tab.update(&mut store, UserTabMessage::SendFriendRequestToSelectedUser),
        Err(RelationError::AlreadyRelated)
    );
    assert!(user_tab.get_send_friend_requests().is_empty());
    assert_eq!(user_tab.get_selected_user(), Some(&b));
}

#[test]
fn scenario_request_accept_and_bystander() {
    let mut store = Store::new();
    let u1 = User { id: 1, first_name: "One".to_string(), last_name: "X".to_string() };
    let u2 = User { id: 2, first_name: "Two".to_string(), last_name: "X".to_string() };
    let u3 = User { id: 3, first_name: "Three".to_string(), last_name: "X".to_string() };
    let all = vec![u1.clone(), u2.clone(), u3.clone()];

    let mut tab1 = UserTab::default();
    tab1.set_current_user(u1.clone());
    tab1.update(&mut store, UserTabMessage::UserSelected(u2.clone()));
    tab1.update(&mut store, UserTabMessage::SendFriendRequestToSelectedUser);
    tab1.update(&mut store, UserTabMessage::Tick(all.clone()));
    assert_eq!(tab1.get_send_friend_requests(), &vec![u2.clone()]);
    assert_eq!(tab1.get_all_users_not_friends(), &vec![u3.clone()]);

    let mut tab2 = UserTab::default();
    tab2.set_current_user(u2.clone());
    tab2.update(&mut store, UserTabMessage::Tick(all.clone()));
    tab2.update(&mut store, UserTabMessage::AcceptFriendRequest(u1.clone()));
    tab2.update(&mut store, UserTabMessage::Tick(all.clone()));
    tab1.update(&mut store, UserTabMessage::Tick(all.clone()));
    assert_eq!(tab1.get_friends(), &vec![u2.clone()]);
    assert_eq!(tab2.get_friends(), &vec![u1.clone()]);
    assert!(tab1.get_send_friend_requests().is_empty());
    assert!(tab2.get_send_friend_requests().is_empty());
    assert_eq!(tab1.get_all_users_not_friends(), &vec![u3.clone()]);
    assert_eq!(tab2.get_all_users_not_friends(), &vec![u3.clone()]);

    tab1.update(&mut store, UserTabMessage::RemoveFriend(u2.clone()));
    tab1.update(&mut store, UserTabMessage::Tick(all.clone()));
    tab2.update(&mut store, UserTabMessage::Tick(all.clone()));
    assert_eq!(tab1.get_all_users_not_friends(), &vec![u2.clone(), u3.clone()]);
    assert_eq!(tab2.get_all_users_not_friends(), &vec![u1.clone(), u3.clone()]);
    assert!(tab1.get_friends().is_empty() && tab2.get_friends().is_empty());
}

#[test]
fn answers_without_a_record_are_refused() {
    let mut store = Store::new();
    let a = User { id: 1, first_name: "A".to_string(), last_name: "X".to_string() };
    let b = User { id: 2, first_name: "B".to_string(), last_name: "X".to_string() };
    let mut user_tab = UserTab::default();
    assert_eq!(
        user_tab.update(&mut store, UserTabMessage::AcceptFriendRequest(b.clone())),
        Err(RelationError::Validation)
    );
    user_tab.set_current_user(a.clone());
    user_tab.push_friend_request(b.clone());
    assert_eq!(
        user_tab.update(&mut store, UserTabMessage::AcceptFriendRequest(b.clone())),
        Err(RelationError::NotFound)
    );
    assert_eq!(user_tab.get_friend_requests(), &vec![b.clone()]);
    assert_eq!(
        user_tab.update(&mut store, UserTabMessage::DeclineFriendRequest(b.clone())),
        Err(RelationError::NotFound)
    );
    assert_eq!(
        user_tab.update(&mut store, UserTabMessage::RemoveFriend(a.clone())),
        Err(RelationError::InvalidRelation)
    );
    assert_eq!(
        user_tab.update(&mut store, UserTabMessage::SendFriendRequestToSelectedUser),
        Err(RelationError::Validation)
    );
    assert_eq!(user_tab.update(&mut store, UserTabMessage::UserSelected(a.clone())), Ok(()));
    assert_eq!(
        user_tab.update(&mut store, UserTabMessage::SendFriendRequestToSelectedUser),
        Err(RelationError::InvalidRelation)
    );
}

#[test]
fn accepting_sets_both_flags_and_declining_deletes() {
    let mut store = Store::new();
    let a = User { id: 1, first_name: "A".to_string(), last_name: "X".to_string() };
    let b = User { id: 2, first_name: "B".to_string(), last_name: "X".to_string() };
    store.create_user_friend(1, 2, false, true).unwrap();
    let mut tab = UserTab::default();
    tab.set_current_user(a.clone());
    assert_eq!(tab.update(&mut store, UserTabMessage::AcceptFriendRequest(b.clone())), Ok(()));
    let rec = store.find_all_user_to_user_friend_entries(1);
    assert_eq!(rec.len(), 1);
    assert!(rec[0].accepted_user_one && rec[0].accepted_user_two);
    assert_eq!(tab.update(&mut store, UserTabMessage::DeclineFriendRequest(b.clone())), Ok(()));
    assert!(store.find_all_user_to_user_friend_entries(1).is_empty());
}
