use snake_draft::account::{bearer_token, check_login, check_new_username, AccountError, User};
use snake_draft::player::PlayerUpdate;
use snake_draft::team::TeamsUpdate;

fn user(username: &str, password: &str) -> User {
    User {
        id: 1,
        team_id: 0,
        name: "Name".to_string(),
        username: username.to_string(),
        ign: "ign#1".to_string(),
        password: password.to_string(),
    }
}

#[test]
fn bearer_token_is_read_after_prefix() {
    assert_eq!(bearer_token("Bearer abc.def"), Some("abc.def".to_string()));
    assert_eq!(bearer_token("Bearer "), Some(String::new()));
}

#[test]
fn header_without_bearer_prefix_has_no_token() {
    assert_eq!(bearer_token("Basic abc"), None);
    assert_eq!(bearer_token("bearer abc"), None);
    assert_eq!(bearer_token("Bearer"), None);
    assert_eq!(bearer_token(""), None);
}

#[test]
fn login_with_matching_password() {
    assert_eq!(check_login(&vec![user("sam", "pw")], "pw"), Ok("sam".to_string()));
}

#[test]
fn login_with_wrong_password() {
    assert_eq!(check_login(&vec![user("sam", "pw")], "PW"), Err(AccountError::WrongPassword));
}

#[test]
fn login_of_unknown_user() {
    assert_eq!(check_login(&vec![], "pw"), Err(AccountError::UserNotFound));
}

#[test]
fn new_username_must_be_free() {
    assert_eq!(check_new_username(&vec![]), Ok(()));
    assert_eq!(check_new_username(&vec![user("sam", "pw")]), Err(AccountError::UsernameTaken));
}

#[test]
fn update_message_kinds() {
    assert_eq!(PlayerUpdate::new(vec![]).kind, "player_update");
    assert_eq!(TeamsUpdate::new(vec![]).kind, "teams_update");
}
