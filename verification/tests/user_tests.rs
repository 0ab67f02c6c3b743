use fprint_core::users::{resolve_users, select_user, UserOption};

fn user(name: &str, real: &str) -> UserOption {
    UserOption { username: name.to_string(), realname: real.to_string() }
}

#[test]
fn test_user_option_display_with_realname() {
    let user_option = user("jdoe", "John Doe");
    assert_eq!(user_option.display_label(), "John Doe (jdoe)");
}

#[test]
fn test_user_option_display_without_realname() {
    let user_option = user("jdoe", "");
    assert_eq!(user_option.display_label(), "jdoe");
}

#[test]
fn test_user_option_display_with_whitespace_realname() {
    let user_option = user("jdoe", "   ");
    assert_eq!(user_option.display_label(), "    (jdoe)");
}

#[test]
fn test_user_option_display_empty_username() {
    let user_option = user("", "John Doe");
    assert_eq!(user_option.display_label(), "John Doe ()");
}

#[test]
fn test_user_option_display_both_empty() {
    let user_option = user("", "");
    assert_eq!(user_option.display_label(), "");
}

#[test]
fn test_reselection_keeps_username_refreshes_realname() {
    let previous = user("bob", "Old Name");
    let refreshed = vec![user("alice", "Alice"), user("bob", "Robert")];
    let sel = select_user(&refreshed, Some(&previous)).unwrap();
    assert_eq!(sel.username, "bob");
    assert_eq!(sel.realname, "Robert");
}

#[test]
fn test_reselection_falls_back_to_first_when_vanished() {
    let previous = user("gone", "Gone");
    let refreshed = vec![user("alice", "Alice"), user("bob", "Robert")];
    let sel = select_user(&refreshed, Some(&previous)).unwrap();
    assert_eq!(sel.username, "alice");
}

#[test]
fn test_reselection_absent_on_empty_list() {
    let previous = user("gone", "Gone");
    let refreshed: Vec<UserOption> = Vec::new();
    assert!(select_user(&refreshed, Some(&previous)).is_none());
}

#[test]
fn test_selection_without_previous_takes_first() {
    let refreshed = vec![user("alice", "Alice"), user("bob", "Robert")];
    let sel = select_user(&refreshed, None).unwrap();
    assert_eq!(sel.username, "alice");
    assert!(select_user(&Vec::new(), None).is_none());
}

#[test]
fn test_reselection_picks_first_of_duplicate_usernames() {
    let previous = user("bob", "Old");
    let refreshed = vec![user("bob", "First"), user("bob", "Second")];
    let sel = select_user(&refreshed, Some(&previous)).unwrap();
    assert_eq!(sel.realname, "First");
}

#[test]
fn test_resolve_users_keeps_fetched_list() {
    let fetched = vec![user("alice", "Alice")];
    let fallback = Some(user("me", "Me"));
    let resolved = resolve_users(fetched, fallback);
    assert_eq!(resolved.len(), 1);
    assert_eq!(resolved[0].username, "alice");
}

#[test]
fn test_resolve_users_falls_back_to_invoking_user() {
    let resolved = resolve_users(Vec::new(), Some(user("me", "Me Myself")));
    assert_eq!(resolved.len(), 1);
    assert_eq!(resolved[0].username, "me");
    assert_eq!(resolved[0].realname, "Me Myself");
}

#[test]
fn test_resolve_users_empty_without_fallback() {
    let resolved = resolve_users(Vec::new(), None);
    assert!(resolved.is_empty());
}
