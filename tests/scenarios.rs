use auth::credential::{
    PartialCredential, PartialEmailPassword, PartialGithubOauth,
    PartialUsernamePassword,
};
use auth::error::AuthError;
use auth::guard::AllowAuthenticated;
use auth::oauth::{check_callback, oauth_callback, OauthCallbackAction};
use auth::store::Store;
use auth::user::User;

fn email(e: &str, p: &str) -> PartialCredential {
    PartialCredential::EmailPassword(PartialEmailPassword::new(e.to_string(), p.to_string()))
}

fn github(id: i32, name: &str) -> PartialCredential {
    PartialCredential::GithubOauth(PartialGithubOauth::new(id, name.to_string()))
}

#[test]
fn register_then_authenticate_with_email_password() {
    let mut store = Store::new();
    let u = User::new(&mut store, &email("a@b.com", "pw1")).unwrap();
    let again = User::authenticate(&mut store, &email("a@b.com", "pw1")).unwrap();
    assert_eq!(again, u);
    let wrong = User::authenticate(&mut store, &email("a@b.com", "wrong"));
    assert_eq!(wrong, Err(AuthError::NotFound));
}

#[test]
fn unknown_account_and_wrong_password_look_the_same() {
    let mut store = Store::new();
    User::new(&mut store, &email("a@b.com", "pw1")).unwrap();
    let missing = User::authenticate(&mut store, &email("nobody@b.com", "pw1"));
    assert_eq!(missing, Err(AuthError::NotFound));
}

#[test]
fn second_kind_then_delete_down_to_one() {
    let mut store = Store::new();
    let u = User::new(&mut store, &email("a@b.com", "pw1")).unwrap();
    let up = PartialUsernamePassword::new("alice".to_string(), "pw2".to_string());
    up.associate(&mut store, u.uid()).unwrap();
    let lookup = u.credentials(&store).unwrap();
    assert!(lookup.email_password.is_some());
    assert!(lookup.username_password.is_some());
    assert!(lookup.has_multiple_credentials());
    let ep = lookup.email_password(&store).unwrap();
    assert_eq!(ep.delete(&mut store), Ok(()));
    let lookup = u.credentials(&store).unwrap();
    assert!(lookup.email_password.is_none());
    assert!(!lookup.has_multiple_credentials());
    let remaining = lookup.username_password(&store).unwrap();
    assert_eq!(remaining.delete(&mut store), Err(AuthError::CredentialCannotDelete));
    assert!(u.credentials(&store).unwrap().username_password.is_some());
}

#[test]
fn oauth_associate_without_session_fails_before_the_store() {
    let mut store = Store::new();
    let anonymous = AllowAuthenticated(None);
    assert_eq!(
        check_callback(OauthCallbackAction::Associate, &anonymous),
        Err(AuthError::UserNotAuthenticated)
    );
    let partial = PartialGithubOauth::new(42, "octocat".to_string());
    let r = oauth_callback(&mut store, OauthCallbackAction::Associate, &anonymous, &partial);
    assert_eq!(r, Err(AuthError::UserNotAuthenticated));
    assert!(auth::credential::GithubOauth::get_by_provider_id(&store, 42).is_err());
}

#[test]
fn email_lookup_ignores_case() {
    let mut store = Store::new();
    let u = User::new(&mut store, &email("Someone@Example.com", "pw")).unwrap();
    let again = User::authenticate(&mut store, &email("someone@EXAMPLE.COM", "pw")).unwrap();
    assert_eq!(again, u);
    let taken = User::new(&mut store, &github(7, "x"));
    assert!(taken.is_ok());
    let duplicate = User::new(&mut store, &email("SOMEONE@example.com", "other"));
    assert_eq!(duplicate, Err(AuthError::Exists));
}

#[test]
fn stored_password_is_a_salted_hash() {
    let mut store = Store::new();
    let u = User::new(&mut store, &email("h@b.com", "secret-pw")).unwrap();
    let lookup = u.credentials(&store).unwrap();
    let row = lookup.email_password(&store).unwrap();
    assert_ne!(row.password, "secret-pw");
    assert!(row.password.starts_with("$argon2"));
    assert_eq!(row.email, "h@b.com");
    assert_eq!(row.uid(), u.uid());
    assert!(!row.verified());
    assert!(!row.disabled());
}

#[test]
fn unreadable_stored_hash_reports_hash_failure() {
    let mut store = Store::new();
    let p = email("q@b.com", "pw");
    User::new_with(&mut store, &p, 10, 20, "not a password hash".to_string(), 1).unwrap();
    assert_eq!(p.authenticate_at(&mut store, 2).unwrap_err(), AuthError::Hash);
}

#[test]
fn username_password_kind_end_to_end() {
    let mut store = Store::new();
    let partial = PartialUsernamePassword::new("Bob".to_string(), "pw3".to_string());
    let u = User::new(&mut store, &partial.to_partial()).unwrap();
    let row = PartialUsernamePassword::new("bob".to_string(), "pw3".to_string())
        .authenticate(&mut store)
        .unwrap();
    assert_eq!(row.uid(), u.uid());
    assert_eq!(row.username, "Bob");
    let by_name = auth::credential::UsernamePassword::get_by_username(&store, "BOB").unwrap();
    assert_eq!(by_name.cid(), row.cid());
    let wrong = PartialUsernamePassword::new("bob".to_string(), "nope".to_string()).authenticate(&mut store);
    assert_eq!(wrong.unwrap_err(), AuthError::NotFound);
}
