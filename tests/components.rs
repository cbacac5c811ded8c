use auth::api_error::{ApiErrorCode, ApiErrorType};
use auth::credential::{CredentialLookup, OauthProviders, PartialCredential, PartialGithubOauth};
use auth::error::AuthError;
use auth::guard::{
    AllowAuthenticated, AuthenticationMiddleware, DenyAuthenticated, GuardState,
    RequireAuthenticated,
};
use auth::oauth::{check_callback, oauth_callback, OauthCallbackAction};
use auth::store::Store;
use auth::totp::{MfaMethodType, TotpMethod};
use auth::user::User;

fn uuid_text(uid: u128) -> String {
    uuid::Uuid::from_u128(uid).to_string()
}

#[test]
fn lookup_counts_populated_kinds() {
    let none = CredentialLookup { uid: 1, email_password: None, github_oauth: None, username_password: None };
    let one = CredentialLookup { uid: 1, email_password: Some(5), github_oauth: None, username_password: None };
    let two = CredentialLookup { uid: 1, email_password: Some(5), github_oauth: None, username_password: Some(6) };
    let three = CredentialLookup { uid: 1, email_password: Some(5), github_oauth: Some(7), username_password: Some(6) };
    assert!(!none.has_multiple_credentials());
    assert!(!one.has_multiple_credentials());
    assert!(two.has_multiple_credentials());
    assert!(three.has_multiple_credentials());
    assert_eq!(three.uid(), 1);
}

#[test]
fn deny_guard_refuses_any_identity() {
    assert!(DenyAuthenticated::new(None).is_ok());
    assert_eq!(DenyAuthenticated::new(Some("anything")).unwrap_err(), AuthError::UserAuthenticated);
    let _ = AuthenticationMiddleware::new();
}

#[test]
fn required_guard_resolves_a_user() {
    let mut store = Store::new();
    let u = User::new(&mut store, &PartialCredential::GithubOauth(PartialGithubOauth::new(1, "a".to_string()))).unwrap();
    let text = uuid_text(u.uid());
    let r = RequireAuthenticated::new(&store, Some(text.as_str())).unwrap();
    assert_eq!(r.user(), u);
    assert_eq!(RequireAuthenticated::new(&store, None).unwrap_err(), AuthError::UserNotAuthenticated);
    assert_eq!(RequireAuthenticated::new(&store, Some("not-a-uuid")).unwrap_err(), AuthError::UserNotAuthenticated);
    let stranger = uuid_text(u.uid() ^ 1);
    assert_eq!(RequireAuthenticated::new(&store, Some(stranger.as_str())).unwrap_err(), AuthError::UserNotAuthenticated);
}

#[test]
fn allowed_guard_always_succeeds() {
    let mut store = Store::new();
    let u = User::new(&mut store, &PartialCredential::GithubOauth(PartialGithubOauth::new(2, "b".to_string()))).unwrap();
    let text = uuid_text(u.uid());
    assert_eq!(AllowAuthenticated::new(&store, Some(text.as_str())).user(), Some(u));
    assert_eq!(AllowAuthenticated::new(&store, None).user(), None);
    assert_eq!(AllowAuthenticated::new(&store, Some("garbage")).user(), None);
    assert_eq!(GuardState::Allowed.resolve(&store, Some("garbage")), Ok(None));
    assert_eq!(GuardState::Denied.resolve(&store, Some(text.as_str())), Err(AuthError::UserAuthenticated));
    assert_eq!(GuardState::Required.resolve(&store, Some(text.as_str())), Ok(Some(u)));
    assert_eq!(GuardState::Denied.derive_user(&store, false, None), Ok(None));
}

#[test]
fn callback_actions_and_names() {
    assert_eq!(OauthCallbackAction::from_name("associate"), Some(OauthCallbackAction::Associate));
    assert_eq!(OauthCallbackAction::from_name("authenticate"), Some(OauthCallbackAction::Authenticate));
    assert_eq!(OauthCallbackAction::from_name("register"), Some(OauthCallbackAction::Register));
    assert_eq!(OauthCallbackAction::from_name("remove"), Some(OauthCallbackAction::Remove));
    assert_eq!(OauthCallbackAction::from_name("Associate"), None);
    assert_eq!(OauthCallbackAction::Remove.name(), "remove");
    assert!(OauthCallbackAction::Associate.requires_authentication());
    assert!(OauthCallbackAction::Remove.requires_authentication());
    assert!(!OauthCallbackAction::Authenticate.requires_authentication());
    assert!(!OauthCallbackAction::Register.requires_authentication());
    assert_eq!(OauthCallbackAction::Register.guard_state(), GuardState::Denied);
    assert_eq!(OauthProviders::GithubOauth.name(), "github");
}

#[test]
fn oauth_callback_flows() {
    let mut store = Store::new();
    let anonymous = AllowAuthenticated(None);
    let account = PartialGithubOauth::new(42, "octocat".to_string());
    let created = oauth_callback(&mut store, OauthCallbackAction::Authenticate, &anonymous, &account).unwrap().unwrap();
    let again = oauth_callback(&mut store, OauthCallbackAction::Register, &anonymous, &account).unwrap();
    assert_eq!(again, Some(created));
    let logged_in = AllowAuthenticated(Some(created));
    assert_eq!(check_callback(OauthCallbackAction::Register, &logged_in), Err(AuthError::UserAuthenticated));
    let twice = oauth_callback(&mut store, OauthCallbackAction::Associate, &logged_in, &account);
    assert_eq!(twice, Err(AuthError::CredentialAssociated));
    let removed = oauth_callback(&mut store, OauthCallbackAction::Remove, &logged_in, &account);
    assert_eq!(removed, Err(AuthError::CredentialCannotDelete));
    let unknown = PartialGithubOauth::new(43, "nobody".to_string());
    assert_eq!(
        oauth_callback(&mut store, OauthCallbackAction::Register, &anonymous, &unknown),
        Err(AuthError::NotFound)
    );
}

#[test]
fn totp_secret_and_codes() {
    let method = TotpMethod::new(7);
    assert_eq!(method.id(), (MfaMethodType::Totp, 7));
    assert_eq!(method.method_type(), MfaMethodType::Totp);
    assert_eq!(MfaMethodType::Totp.name(), "totp");
    let encoded = method.get_secret().unwrap();
    assert_eq!(encoded.len(), 205);

    let secret: Vec<u8> = (0u8..20).collect();
    let fixed = TotpMethod::with_secret(8, secret.clone());
    let reference = totp_rs::TOTP::new(totp_rs::Algorithm::SHA1, 6, 1, 30, secret, None, String::new()).unwrap();
    let time: u64 = 1_700_000_000;
    let code = reference.generate(time);
    assert_eq!(fixed.verify_at(&code, time), Ok(true));
    assert_eq!(fixed.verify_at(&code, time + 30), Ok(true));
    assert_eq!(fixed.verify_at(&code, time + 120), Ok(false));
    assert_eq!(fixed.verify_at("000000x", time), Ok(false));
    assert_eq!(fixed.verify_at(&code, 10), Err(AuthError::Invalid));
    assert_eq!(fixed.get_secret().unwrap(), "AAAQEAYEAUDAOCAJBIFQYDIOB4IBCEQT");

    let short = TotpMethod::with_secret(9, vec![1, 2, 3]);
    assert_eq!(short.get_secret(), Err(AuthError::Invalid));
    assert_eq!(short.verify_at("123456", time), Err(AuthError::Invalid));
    assert!(fixed.verify("123456").is_ok());
}

#[test]
fn api_errors_map_and_report() {
    let e = ApiErrorType::from_auth_error(AuthError::NotFound);
    assert_eq!(e.code(), ApiErrorCode::UserNotFound);
    assert_eq!(e.status_code(), 404);
    let e = ApiErrorType::from_auth_error(AuthError::CredentialCannotDelete);
    assert_eq!(e.code(), ApiErrorCode::CredentialCannotRemove);
    assert_eq!(e.status_code(), 409);
    let e = ApiErrorType::from_auth_error(AuthError::Hash);
    assert_eq!(e.code(), ApiErrorCode::Unknown);
    assert_eq!(e.status_code(), 500);
    assert_eq!(e.message(), "An unknown error occurred: Something went wrong!");
    let e = ApiErrorType::from_auth_error(AuthError::UserNotAuthenticated);
    assert_eq!(e.status_code(), 401);
    assert_eq!(ApiErrorCode::from(&e).as_str(), "AUTH/INCORRECT_CREDENTIAL");
    let e = ApiErrorType::from_auth_error(AuthError::CredentialDisabled);
    assert_eq!(e.status_code(), 403);
    assert_eq!(e.code().as_str(), "AUTH/USER_DISABLED");
    assert_eq!(ApiErrorType::from_auth_error(AuthError::UserAuthenticated).status_code(), 403);
    assert_eq!(ApiErrorType::from_auth_error(AuthError::Exists).code(), ApiErrorCode::UserExists);
    assert_eq!(ApiErrorType::from_auth_error(AuthError::CredentialAssociated).status_code(), 409);
    assert_eq!(ApiErrorType::IncorrectOauthCode.status_code(), 401);
    assert_eq!(AuthError::CredentialCannotDelete.message(), "Cannot delete the only associated credential!");
}
