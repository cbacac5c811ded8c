use auth::credential::{
    Credential, CredentialKind, CredentialLookup, GithubOauth, PartialCredential,
    PartialEmailPassword, PartialGithubOauth, PartialUsernamePassword,
};
use auth::error::AuthError;
use auth::oauth::remove_credential;
use auth::store::Store;
use auth::user::User;

fn github(id: i32, name: &str) -> PartialCredential {
    PartialCredential::GithubOauth(PartialGithubOauth::new(id, name.to_string()))
}

fn email(e: &str, p: &str) -> PartialCredential {
    PartialCredential::EmailPassword(PartialEmailPassword::new(e.to_string(), p.to_string()))
}

#[test]
fn every_slot_names_an_owned_credential_of_its_kind() {
    let mut store = Store::new();
    let u = User::new(&mut store, &github(1, "one")).unwrap();
    let v = User::new(&mut store, &github(2, "two")).unwrap();
    PartialGithubOauth::new(3, "three".to_string()).associate(&mut store, v.uid()).unwrap_err();
    let lookup = u.credentials(&store).unwrap();
    let gh = lookup.github_oauth(&store).unwrap();
    assert_eq!(gh.uid(), u.uid());
    assert_eq!(Some(gh.cid()), lookup.github_oauth);
    assert_eq!(gh.provider_id, 1);
    let lookup_v = CredentialLookup::get_by_uid(&store, v.uid()).unwrap();
    let gh_v = lookup_v.github_oauth(&store).unwrap();
    assert_eq!(gh_v.uid(), v.uid());
    assert_eq!(gh_v.provider_id, 2);
    assert!(lookup_v.email_password.is_none());
    assert_eq!(lookup_v.email_password(&store).unwrap_err(), AuthError::NotFound);
}

#[test]
fn last_credential_cannot_be_deleted() {
    let mut store = Store::new();
    let u = User::new(&mut store, &github(5, "solo")).unwrap();
    let gh = GithubOauth::get_by_uid(&store, u.uid()).unwrap();
    assert_eq!(gh.delete(&mut store), Err(AuthError::CredentialCannotDelete));
    assert!(GithubOauth::get_by_cid(&store, gh.cid()).is_ok());
    assert_eq!(u.credentials(&store).unwrap().github_oauth, Some(gh.cid()));
}

#[test]
fn disabling_twice_equals_disabling_once() {
    let mut store = Store::new();
    let u = User::new(&mut store, &github(9, "nine")).unwrap();
    let mut gh = GithubOauth::get_by_uid(&store, u.uid()).unwrap();
    gh.set_disabled(&mut store, true).unwrap();
    let once = GithubOauth::get_by_provider_id(&store, 9).unwrap();
    gh.set_disabled(&mut store, true).unwrap();
    let twice = GithubOauth::get_by_provider_id(&store, 9).unwrap();
    assert!(once.disabled());
    assert!(twice.disabled());
    assert_eq!(once.last_update(), twice.last_update());
    assert_eq!(once.last_authentication(), twice.last_authentication());
    assert_eq!(gh.last_update(), once.last_update());
    assert_eq!(GithubOauth::get_by_cid(&store, gh.cid()).unwrap_err(), AuthError::CredentialDisabled);
}

#[test]
fn disabled_credential_never_authenticates() {
    let mut store = Store::new();
    let u = User::new(&mut store, &email("d@b.com", "right")).unwrap();
    let lookup = u.credentials(&store).unwrap();
    let mut ep = lookup.email_password(&store).unwrap();
    ep.set_disabled(&mut store, true).unwrap();
    let r = User::authenticate(&mut store, &email("d@b.com", "right"));
    assert_eq!(r, Err(AuthError::CredentialDisabled));
    let r = User::authenticate(&mut store, &email("d@b.com", "wrong"));
    assert_eq!(r, Err(AuthError::NotFound));
    ep.set_disabled(&mut store, false).unwrap();
    assert_eq!(User::authenticate(&mut store, &email("d@b.com", "right")), Ok(u));
}

#[test]
fn second_credential_of_one_kind_is_refused() {
    let mut store = Store::new();
    let u = User::new(&mut store, &github(11, "first")).unwrap();
    let before = u.credentials(&store).unwrap();
    let again = PartialGithubOauth::new(12, "second".to_string()).associate(&mut store, u.uid());
    assert_eq!(again.unwrap_err(), AuthError::CredentialAssociated);
    assert_eq!(u.credentials(&store).unwrap(), before);
    assert!(GithubOauth::get_by_provider_id(&store, 12).is_err());
}

#[test]
fn other_kind_is_added_and_first_slot_kept() {
    let mut store = Store::new();
    let u = User::new(&mut store, &email("x@b.com", "pw")).unwrap();
    let before = u.credentials(&store).unwrap();
    let gh = PartialGithubOauth::new(77, "gh".to_string()).associate(&mut store, u.uid()).unwrap();
    let after = u.credentials(&store).unwrap();
    assert_eq!(after.email_password, before.email_password);
    assert_eq!(after.github_oauth, Some(gh.cid()));
    assert_eq!(after.username_password, None);
    assert!(after.has_multiple_credentials());
}

#[test]
fn provider_account_of_another_user_is_refused() {
    let mut store = Store::new();
    User::new(&mut store, &github(21, "taken")).unwrap();
    let v = User::new(&mut store, &github(22, "other")).unwrap();
    let mut store2 = Store::new();
    let w = User::new(&mut store2, &github(30, "w")).unwrap();
    let r = User::new(&mut store, &github(21, "again"));
    assert_eq!(r, Err(AuthError::Exists));
    let r = PartialGithubOauth::new(21, "x".to_string()).associate(&mut store2, w.uid());
    assert!(r.is_err());
    let _ = v;
}

#[test]
fn of_two_deletes_of_the_last_two_exactly_one_succeeds() {
    let mut store = Store::new();
    let u = User::new(&mut store, &github(31, "a")).unwrap();
    let ep = PartialEmailPassword::new("race@b.com".to_string(), "pw".to_string())
        .associate(&mut store, u.uid())
        .unwrap();
    let gh = GithubOauth::get_by_uid(&store, u.uid()).unwrap();
    let first = ep.delete(&mut store);
    let second = gh.delete(&mut store);
    assert_eq!(first, Ok(()));
    assert_eq!(second, Err(AuthError::CredentialCannotDelete));
    assert_eq!(u.credentials(&store).unwrap().github_oauth, Some(gh.cid()));
}

#[test]
fn deleting_a_stale_value_reads_the_owner_ledger_first() {
    let mut store = Store::new();
    let u = User::new(&mut store, &github(41, "a")).unwrap();
    PartialEmailPassword::new("m@b.com".to_string(), "pw".to_string())
        .associate(&mut store, u.uid())
        .unwrap();
    let gh = GithubOauth::get_by_uid(&store, u.uid()).unwrap();
    assert_eq!(gh.delete(&mut store), Ok(()));
    assert_eq!(gh.delete(&mut store), Err(AuthError::CredentialCannotDelete));
}

#[test]
fn deleting_a_missing_credential_reports_not_found() {
    let mut store = Store::new();
    let u = User::new(&mut store, &github(45, "a")).unwrap();
    PartialEmailPassword::new("n@b.com".to_string(), "pw".to_string())
        .associate(&mut store, u.uid())
        .unwrap();
    PartialUsernamePassword::new("nn".to_string(), "pw".to_string())
        .associate(&mut store, u.uid())
        .unwrap();
    let gh = GithubOauth::get_by_uid(&store, u.uid()).unwrap();
    assert_eq!(gh.delete(&mut store), Ok(()));
    assert_eq!(gh.delete(&mut store), Err(AuthError::NotFound));
}

#[test]
fn a_value_naming_another_owner_deletes_nothing() {
    let mut store = Store::new();
    let u = User::new(&mut store, &github(46, "u")).unwrap();
    PartialEmailPassword::new("u@b.com".to_string(), "pw".to_string())
        .associate(&mut store, u.uid())
        .unwrap();
    let v = User::new(&mut store, &github(47, "v")).unwrap();
    let mut forged = GithubOauth::get_by_uid(&store, v.uid()).unwrap();
    forged.uid = u.uid();
    assert_eq!(forged.delete(&mut store), Err(AuthError::NotFound));
    assert!(GithubOauth::get_by_provider_id(&store, 47).is_ok());
}

#[test]
fn associate_for_unknown_user_is_not_found() {
    let mut store = Store::new();
    let r = PartialGithubOauth::new(50, "n".to_string()).associate(&mut store, 12345);
    assert_eq!(r.unwrap_err(), AuthError::NotFound);
}

#[test]
fn removal_checks_the_owner() {
    let mut store = Store::new();
    let u = User::new(&mut store, &github(61, "u")).unwrap();
    let v = User::new(&mut store, &github(62, "v")).unwrap();
    PartialEmailPassword::new("v@b.com".to_string(), "pw".to_string())
        .associate(&mut store, v.uid())
        .unwrap();
    let before = GithubOauth::get_by_provider_id(&store, 62).unwrap();
    assert_eq!(remove_credential(&mut store, &u, &github(62, "v")), Err(AuthError::CredentialIncorrect));
    let after = GithubOauth::get_by_provider_id(&store, 62).unwrap();
    assert_eq!(after.last_authentication(), before.last_authentication());
    assert_eq!(remove_credential(&mut store, &v, &github(62, "v")), Ok(()));
    assert_eq!(v.credentials(&store).unwrap().github_oauth, None);
    let only = GithubOauth::get_by_provider_id(&store, 61).unwrap();
    assert_eq!(remove_credential(&mut store, &u, &github(61, "u")), Err(AuthError::CredentialCannotDelete));
    assert_eq!(GithubOauth::get_by_provider_id(&store, 61).unwrap().last_authentication(), only.last_authentication());
}

#[test]
fn store_level_transactions() {
    let mut store = Store::new();
    let p = github(71, "t");
    let u = User::new_with(&mut store, &p, 1000, 2000, String::new(), 5).unwrap();
    assert_eq!(u.uid(), 1000);
    assert!(store.has_user(1000));
    assert_eq!(User::new_with(&mut store, &github(72, "t2"), 1000, 2001, String::new(), 5), Err(AuthError::Exists));
    assert_eq!(User::new_with(&mut store, &github(73, "t3"), 1001, 2000, String::new(), 5), Err(AuthError::Exists));
    assert!(!store.has_user(1001));
    let c = p.authenticate_at(&mut store, 99).unwrap();
    match c {
        Credential::GithubOauth(g) => {
            assert_eq!(g.last_authentication(), 99);
            assert_eq!(g.created(), 5);
            assert_eq!(g.cid(), 2000);
        },
        _ => panic!("wrong kind"),
    }
    let r = store.set_disabled_at(CredentialKind::GithubOauth, 2000, true, 120).unwrap();
    match r {
        Credential::GithubOauth(g) => assert_eq!(g.last_update(), 120),
        _ => panic!("wrong kind"),
    }
    assert_eq!(p.authenticate_at(&mut store, 130).unwrap_err(), AuthError::CredentialDisabled);
    assert_eq!(store.delete_credential(CredentialKind::GithubOauth, 2000, 1000), Err(AuthError::CredentialCannotDelete));
    assert_eq!(store.delete_credential(CredentialKind::EmailPassword, 2000, 1000), Err(AuthError::CredentialCannotDelete));
}
