//! The per-kind interface of the credential rows and partial credentials:
//! lookups, flag updates, deletion, authentication and association.
use vstd::prelude::*;
use crate::credential::{
    key_for, Credential, CredentialKind, CredentialLookup, EmailPassword, GithubOauth,
    PartialCredential, PartialEmailPassword, PartialGithubOauth, PartialUsernamePassword,
    UsernamePassword,
};
use crate::error::{AuthError, AuthResult};
use crate::platform::{new_uuid, now_micros};
use crate::store::{secret_verdict, Store};
use crate::user::{fresh_secret, with_value, User};

verus! {

/// A result of `EmailPassword` seen as a result of `Credential`.
pub open spec fn lift_email_password(r: AuthResult<EmailPassword>) -> AuthResult<Credential> {
    match r {
        Ok(c) => Ok(Credential::EmailPassword(c)),
        Err(e) => Err(e),
    }
}

/// A result of `UsernamePassword` seen as a result of `Credential`.
pub open spec fn lift_username_password(r: AuthResult<UsernamePassword>) -> AuthResult<Credential> {
    match r {
        Ok(c) => Ok(Credential::UsernamePassword(c)),
        Err(e) => Err(e),
    }
}

/// A result of `GithubOauth` seen as a result of `Credential`.
pub open spec fn lift_github_oauth(r: AuthResult<GithubOauth>) -> AuthResult<Credential> {
    match r {
        Ok(c) => Ok(Credential::GithubOauth(c)),
        Err(e) => Err(e),
    }
}

impl EmailPassword {
    pub fn cid(&self) -> (r: u128)
        ensures
            r == self.cid,
    {
        self.cid
    }

    pub fn uid(&self) -> (r: u128)
        ensures
            r == self.uid,
    {
        self.uid
    }

    pub fn created(&self) -> (r: i64)
        ensures
            r == self.created,
    {
        self.created
    }

    pub fn last_authentication(&self) -> (r: i64)
        ensures
            r == self.last_authentication,
    {
        self.last_authentication
    }

    pub fn last_update(&self) -> (r: i64)
        ensures
            r == self.last_update,
    {
        self.last_update
    }

    pub fn disabled(&self) -> (r: bool)
        ensures
            r == self.disabled,
    {
        self.disabled
    }

    /// Whether the credential is verified.
    pub fn verified(&self) -> (r: bool)
        ensures
            r == Credential::EmailPassword(*self).is_verified(),
    {
        self.verified
    }

    /// The credential with id `query_cid`; a disabled one is refused.
    pub fn get_by_cid(store: &Store, query_cid: u128) -> (r: AuthResult<EmailPassword>)
        requires
            store@.wf(),
        ensures
            lift_email_password(r) == store@.visible(store@.credential_index(CredentialKind::EmailPassword, query_cid)),
    {
        match store.credential_by_cid(CredentialKind::EmailPassword, query_cid) {
            Ok(Credential::EmailPassword(c)) => Ok(c),
            Ok(_) => Err(AuthError::NotFound),
            Err(e) => Err(e),
        }
    }

    /// The credential of this kind owned by `query_uid`; a disabled one is
    /// refused.
    pub fn get_by_uid(store: &Store, query_uid: u128) -> (r: AuthResult<EmailPassword>)
        requires
            store@.wf(),
        ensures
            lift_email_password(r) == store@.visible(store@.owned_index(CredentialKind::EmailPassword, query_uid)),
    {
        match store.credential_by_uid(CredentialKind::EmailPassword, query_uid) {
            Ok(Credential::EmailPassword(c)) => Ok(c),
            Ok(_) => Err(AuthError::NotFound),
            Err(e) => Err(e),
        }
    }

    /// The credential with this email address, compared without regard to case, disabled or not.
    pub fn get_by_email(store: &Store, query_email: &str) -> (r: AuthResult<EmailPassword>)
        requires
            store@.wf(),
        ensures
            lift_email_password(r) == match store@.key_index(key_for(CredentialKind::EmailPassword, query_email@, 0)) {
                None => Err(AuthError::NotFound),
                Some(i) => Ok(store@.credentials[i]),
            },
    {
        match store.credential_by_natural_key(CredentialKind::EmailPassword, query_email, 0) {
            Ok(Credential::EmailPassword(c)) => Ok(c),
            Ok(_) => Err(AuthError::NotFound),
            Err(e) => Err(e),
        }
    }

    /// Sets the disabled flag and persists it; the last update moves to now
    /// when the flag changes.
    pub fn set_disabled(&mut self, store: &mut Store, updated_disabled: bool) -> (r: AuthResult<()>)
        requires
            old(store)@.wf(),
        ensures
            final(store)@.wf(),
            exists|now: i64| {
                &&& final(store)@ == (#[trigger] old(store)@.set_disabled(CredentialKind::EmailPassword, old(self).cid, updated_disabled, now)).0
                &&& match old(store)@.set_disabled(CredentialKind::EmailPassword, old(self).cid, updated_disabled, now).1 {
                    Ok(c) => r is Ok && c == Credential::EmailPassword(*final(self)),
                    Err(e) => r == Err::<(), AuthError>(e) && *final(self) == *old(self),
                }
            },
    {
        let now = now_micros();
        match store.set_disabled_at(CredentialKind::EmailPassword, self.cid, updated_disabled, now) {
            Ok(Credential::EmailPassword(c)) => {
                *self = c;
                Ok(())
            },
            Ok(_) => Err(AuthError::NotFound),
            Err(e) => Err(e),
        }
    }

    /// Sets the verified flag and persists it; the last update moves to now
    /// when the flag changes.
    pub fn set_verified(&mut self, store: &mut Store, updated_verified: bool) -> (r: AuthResult<()>)
        requires
            old(store)@.wf(),
        ensures
            final(store)@.wf(),
            exists|now: i64| {
                &&& final(store)@ == (#[trigger] old(store)@.set_verified(CredentialKind::EmailPassword, old(self).cid, updated_verified, now)).0
                &&& match old(store)@.set_verified(CredentialKind::EmailPassword, old(self).cid, updated_verified, now).1 {
                    Ok(c) => r is Ok && c == Credential::EmailPassword(*final(self)),
                    Err(e) => r == Err::<(), AuthError>(e) && *final(self) == *old(self),
                }
            },
    {
        let now = now_micros();
        match store.set_verified_at(CredentialKind::EmailPassword, self.cid, updated_verified, now) {
            Ok(Credential::EmailPassword(c)) => {
                *self = c;
                Ok(())
            },
            Ok(_) => Err(AuthError::NotFound),
            Err(e) => Err(e),
        }
    }

    /// Deletes this credential: refused unless its owner has two or more
    /// kinds populated, and when no such credential of that owner is stored.
    pub fn delete(&self, store: &mut Store) -> (r: AuthResult<()>)
        requires
            old(store)@.wf(),
        ensures
            (final(store)@, r) == old(store)@.delete(CredentialKind::EmailPassword, self.cid, self.uid),
            final(store)@.wf(),
    {
        store.delete_credential(CredentialKind::EmailPassword, self.cid, self.uid)
    }

    /// The user that owns this credential.
    pub fn get_owner(&self, store: &Store) -> (r: AuthResult<User>)
        ensures
            r == if store@.has_user(self.uid) {
                Ok(User { uid: self.uid })
            } else {
                Err(AuthError::NotFound)
            },
    {
        User::get_by_uid(store, self.uid)
    }
}

impl PartialEmailPassword {
    pub open spec fn as_partial(self) -> PartialCredential {
        PartialCredential::EmailPassword(self)
    }

    /// This partial credential as one of any kind.
    pub fn to_partial(&self) -> (r: PartialCredential)
        ensures
            r == self.as_partial(),
    {
        PartialCredential::EmailPassword(PartialEmailPassword { email: self.email.clone(), password: self.password.clone() })
    }

    /// Authenticates with this partial credential now.
    pub fn authenticate(&self, store: &mut Store) -> (r: AuthResult<EmailPassword>)
        requires
            old(store)@.wf(),
        ensures
            final(store)@.wf(),
            exists|now: i64| (final(store)@, lift_email_password(r)) == #[trigger] old(store)@.authenticate(self.as_partial(), now),
    {
        let p = self.to_partial();
        let now = now_micros();
        match p.authenticate_at(store, now) {
            Ok(Credential::EmailPassword(c)) => Ok(c),
            Ok(_) => Err(AuthError::NotFound),
            Err(e) => Err(e),
        }
    }

    /// Associates this partial credential with user `owner_uid`.
    pub fn associate(&self, store: &mut Store, owner_uid: u128) -> (r: AuthResult<EmailPassword>)
        requires
            old(store)@.wf(),
        ensures
            final(store)@.wf(),
            match lift_email_password(r) {
                Ok(c) => exists|cid: u128, hash: String, now: i64|
                    c == #[trigger] self.as_partial().build(owner_uid, cid, hash, now)
                        && old(store)@.associate(c) == (final(store)@, Ok::<(), AuthError>(())),
                Err(e) => final(store)@ == old(store)@ && (e == AuthError::Hash
                    || exists|cid: u128, hash: String, now: i64|
                        old(store)@.associate_error(#[trigger] self.as_partial().build(owner_uid, cid, hash, now)) == Some(e)),
            },
            lift_email_password(r) matches Ok(c) ==> secret_verdict(self.as_partial(), c) == Some(true),
            old(store)@.has_user(owner_uid) && old(store)@.slot_of(owner_uid, CredentialKind::EmailPassword) is None
                && old(store)@.key_index(self.as_partial().natural_key()) is None && old(store)@.credentials.len() == 0
                && (self.as_partial().secret() matches Some(pw) ==> pw@.len() < 0x4000_0000) ==> r is Ok,
    {
        let p = self.to_partial();
        let hash = match fresh_secret(&p) {
            Ok(h) => h,
            Err(e) => return Err(e),
        };
        let ghost h = hash;
        let cid = new_uuid();
        let now = now_micros();
        let r = p.associate_with(store, owner_uid, cid, hash, now);
        proof {
            let c = p.build(owner_uid, cid, h, now);
            assert(c.natural_key() == p.natural_key());
            assert(secret_verdict(p, c) == secret_verdict(p, p.build(0, 0, h, 0)));
            if r is Ok {
                assert(old(store)@.associate(c) == (final(store)@, Ok::<(), AuthError>(())));
            }
            if old(store)@.credentials.len() == 0 {
                assert(!old(store)@.cid_taken(cid));
            }
        }
        match r {
            Ok(Credential::EmailPassword(c)) => Ok(c),
            Ok(_) => Err(AuthError::NotFound),
            Err(e) => Err(e),
        }
    }
}

impl UsernamePassword {
    pub fn cid(&self) -> (r: u128)
        ensures
            r == self.cid,
    {
        self.cid
    }

    pub fn uid(&self) -> (r: u128)
        ensures
            r == self.uid,
    {
        self.uid
    }

    pub fn created(&self) -> (r: i64)
        ensures
            r == self.created,
    {
        self.created
    }

    pub fn last_authentication(&self) -> (r: i64)
        ensures
            r == self.last_authentication,
    {
        self.last_authentication
    }

    pub fn last_update(&self) -> (r: i64)
        ensures
            r == self.last_update,
    {
        self.last_update
    }

    pub fn disabled(&self) -> (r: bool)
        ensures
            r == self.disabled,
    {
        self.disabled
    }

    /// Whether the credential is verified.
    pub fn verified(&self) -> (r: bool)
        ensures
            r == Credential::UsernamePassword(*self).is_verified(),
    {
        self.verified
    }

    /// The credential with id `query_cid`; a disabled one is refused.
    pub fn get_by_cid(store: &Store, query_cid: u128) -> (r: AuthResult<UsernamePassword>)
        requires
            store@.wf(),
        ensures
            lift_username_password(r) == store@.visible(store@.credential_index(CredentialKind::UsernamePassword, query_cid)),
    {
        match store.credential_by_cid(CredentialKind::UsernamePassword, query_cid) {
            Ok(Credential::UsernamePassword(c)) => Ok(c),
            Ok(_) => Err(AuthError::NotFound),
            Err(e) => Err(e),
        }
    }

    /// The credential of this kind owned by `query_uid`; a disabled one is
    /// refused.
    pub fn get_by_uid(store: &Store, query_uid: u128) -> (r: AuthResult<UsernamePassword>)
        requires
            store@.wf(),
        ensures
            lift_username_password(r) == store@.visible(store@.owned_index(CredentialKind::UsernamePassword, query_uid)),
    {
        match store.credential_by_uid(CredentialKind::UsernamePassword, query_uid) {
            Ok(Credential::UsernamePassword(c)) => Ok(c),
            Ok(_) => Err(AuthError::NotFound),
            Err(e) => Err(e),
        }
    }

    /// The credential with this username, compared without regard to case, disabled or not.
    pub fn get_by_username(store: &Store, query_username: &str) -> (r: AuthResult<UsernamePassword>)
        requires
            store@.wf(),
        ensures
            lift_username_password(r) == match store@.key_index(key_for(CredentialKind::UsernamePassword, query_username@, 0)) {
                None => Err(AuthError::NotFound),
                Some(i) => Ok(store@.credentials[i]),
            },
    {
        match store.credential_by_natural_key(CredentialKind::UsernamePassword, query_username, 0) {
            Ok(Credential::UsernamePassword(c)) => Ok(c),
            Ok(_) => Err(AuthError::NotFound),
            Err(e) => Err(e),
        }
    }

    /// Sets the disabled flag and persists it; the last update moves to now
    /// when the flag changes.
    pub fn set_disabled(&mut self, store: &mut Store, updated_disabled: bool) -> (r: AuthResult<()>)
        requires
            old(store)@.wf(),
        ensures
            final(store)@.wf(),
            exists|now: i64| {
                &&& final(store)@ == (#[trigger] old(store)@.set_disabled(CredentialKind::UsernamePassword, old(self).cid, updated_disabled, now)).0
                &&& match old(store)@.set_disabled(CredentialKind::UsernamePassword, old(self).cid, updated_disabled, now).1 {
                    Ok(c) => r is Ok && c == Credential::UsernamePassword(*final(self)),
                    Err(e) => r == Err::<(), AuthError>(e) && *final(self) == *old(self),
                }
            },
    {
        let now = now_micros();
        match store.set_disabled_at(CredentialKind::UsernamePassword, self.cid, updated_disabled, now) {
            Ok(Credential::UsernamePassword(c)) => {
                *self = c;
                Ok(())
            },
            Ok(_) => Err(AuthError::NotFound),
            Err(e) => Err(e),
        }
    }

    /// Sets the verified flag and persists it; the last update moves to now
    /// when the flag changes.
    pub fn set_verified(&mut self, store: &mut Store, updated_verified: bool) -> (r: AuthResult<()>)
        requires
            old(store)@.wf(),
        ensures
            final(store)@.wf(),
            exists|now: i64| {
                &&& final(store)@ == (#[trigger] old(store)@.set_verified(CredentialKind::UsernamePassword, old(self).cid, updated_verified, now)).0
                &&& match old(store)@.set_verified(CredentialKind::UsernamePassword, old(self).cid, updated_verified, now).1 {
                    Ok(c) => r is Ok && c == Credential::UsernamePassword(*final(self)),
                    Err(e) => r == Err::<(), AuthError>(e) && *final(self) == *old(self),
                }
            },
    {
        let now = now_micros();
        match store.set_verified_at(CredentialKind::UsernamePassword, self.cid, updated_verified, now) {
            Ok(Credential::UsernamePassword(c)) => {
                *self = c;
                Ok(())
            },
            Ok(_) => Err(AuthError::NotFound),
            Err(e) => Err(e),
        }
    }

    /// Deletes this credential: refused unless its owner has two or more
    /// kinds populated, and when no such credential of that owner is stored.
    pub fn delete(&self, store: &mut Store) -> (r: AuthResult<()>)
        requires
            old(store)@.wf(),
        ensures
            (final(store)@, r) == old(store)@.delete(CredentialKind::UsernamePassword, self.cid, self.uid),
            final(store)@.wf(),
    {
        store.delete_credential(CredentialKind::UsernamePassword, self.cid, self.uid)
    }

    /// The user that owns this credential.
    pub fn get_owner(&self, store: &Store) -> (r: AuthResult<User>)
        ensures
            r == if store@.has_user(self.uid) {
                Ok(User { uid: self.uid })
            } else {
                Err(AuthError::NotFound)
            },
    {
        User::get_by_uid(store, self.uid)
    }
}

impl PartialUsernamePassword {
    pub open spec fn as_partial(self) -> PartialCredential {
        PartialCredential::UsernamePassword(self)
    }

    /// This partial credential as one of any kind.
    pub fn to_partial(&self) -> (r: PartialCredential)
        ensures
            r == self.as_partial(),
    {
        PartialCredential::UsernamePassword(PartialUsernamePassword { username: self.username.clone(), password: self.password.clone() })
    }

    /// Authenticates with this partial credential now.
    pub fn authenticate(&self, store: &mut Store) -> (r: AuthResult<UsernamePassword>)
        requires
            old(store)@.wf(),
        ensures
            final(store)@.wf(),
            exists|now: i64| (final(store)@, lift_username_password(r)) == #[trigger] old(store)@.authenticate(self.as_partial(), now),
    {
        let p = self.to_partial();
        let now = now_micros();
        match p.authenticate_at(store, now) {
            Ok(Credential::UsernamePassword(c)) => Ok(c),
            Ok(_) => Err(AuthError::NotFound),
            Err(e) => Err(e),
        }
    }

    /// Associates this partial credential with user `owner_uid`.
    pub fn associate(&self, store: &mut Store, owner_uid: u128) -> (r: AuthResult<UsernamePassword>)
        requires
            old(store)@.wf(),
        ensures
            final(store)@.wf(),
            match lift_username_password(r) {
                Ok(c) => exists|cid: u128, hash: String, now: i64|
                    c == #[trigger] self.as_partial().build(owner_uid, cid, hash, now)
                        && old(store)@.associate(c) == (final(store)@, Ok::<(), AuthError>(())),
                Err(e) => final(store)@ == old(store)@ && (e == AuthError::Hash
                    || exists|cid: u128, hash: String, now: i64|
                        old(store)@.associate_error(#[trigger] self.as_partial().build(owner_uid, cid, hash, now)) == Some(e)),
            },
            lift_username_password(r) matches Ok(c) ==> secret_verdict(self.as_partial(), c) == Some(true),
            old(store)@.has_user(owner_uid) && old(store)@.slot_of(owner_uid, CredentialKind::UsernamePassword) is None
                && old(store)@.key_index(self.as_partial().natural_key()) is None && old(store)@.credentials.len() == 0
                && (self.as_partial().secret() matches Some(pw) ==> pw@.len() < 0x4000_0000) ==> r is Ok,
    {
        let p = self.to_partial();
        let hash = match fresh_secret(&p) {
            Ok(h) => h,
            Err(e) => return Err(e),
        };
        let ghost h = hash;
        let cid = new_uuid();
        let now = now_micros();
        let r = p.associate_with(store, owner_uid, cid, hash, now);
        proof {
            let c = p.build(owner_uid, cid, h, now);
            assert(c.natural_key() == p.natural_key());
            assert(secret_verdict(p, c) == secret_verdict(p, p.build(0, 0, h, 0)));
            if r is Ok {
                assert(old(store)@.associate(c) == (final(store)@, Ok::<(), AuthError>(())));
            }
            if old(store)@.credentials.len() == 0 {
                assert(!old(store)@.cid_taken(cid));
            }
        }
        match r {
            Ok(Credential::UsernamePassword(c)) => Ok(c),
            Ok(_) => Err(AuthError::NotFound),
            Err(e) => Err(e),
        }
    }
}

impl GithubOauth {
    pub fn cid(&self) -> (r: u128)
        ensures
            r == self.cid,
    {
        self.cid
    }

    pub fn uid(&self) -> (r: u128)
        ensures
            r == self.uid,
    {
        self.uid
    }

    pub fn created(&self) -> (r: i64)
        ensures
            r == self.created,
    {
        self.created
    }

    pub fn last_authentication(&self) -> (r: i64)
        ensures
            r == self.last_authentication,
    {
        self.last_authentication
    }

    pub fn last_update(&self) -> (r: i64)
        ensures
            r == self.last_update,
    {
        self.last_update
    }

    pub fn disabled(&self) -> (r: bool)
        ensures
            r == self.disabled,
    {
        self.disabled
    }

    /// Whether the credential is verified.
    pub fn verified(&self) -> (r: bool)
        ensures
            r == Credential::GithubOauth(*self).is_verified(),
    {
        true
    }

    /// The credential with id `query_cid`; a disabled one is refused.
    pub fn get_by_cid(store: &Store, query_cid: u128) -> (r: AuthResult<GithubOauth>)
        requires
            store@.wf(),
        ensures
            lift_github_oauth(r) == store@.visible(store@.credential_index(CredentialKind::GithubOauth, query_cid)),
    {
        match store.credential_by_cid(CredentialKind::GithubOauth, query_cid) {
            Ok(Credential::GithubOauth(c)) => Ok(c),
            Ok(_) => Err(AuthError::NotFound),
            Err(e) => Err(e),
        }
    }

    /// The credential of this kind owned by `query_uid`; a disabled one is
    /// refused.
    pub fn get_by_uid(store: &Store, query_uid: u128) -> (r: AuthResult<GithubOauth>)
        requires
            store@.wf(),
        ensures
            lift_github_oauth(r) == store@.visible(store@.owned_index(CredentialKind::GithubOauth, query_uid)),
    {
        match store.credential_by_uid(CredentialKind::GithubOauth, query_uid) {
            Ok(Credential::GithubOauth(c)) => Ok(c),
            Ok(_) => Err(AuthError::NotFound),
            Err(e) => Err(e),
        }
    }

    /// The credential with this GitHub account id, disabled or not.
    pub fn get_by_provider_id(store: &Store, query_provider_id: i32) -> (r: AuthResult<GithubOauth>)
        requires
            store@.wf(),
        ensures
            lift_github_oauth(r) == match store@.key_index(key_for(CredentialKind::GithubOauth, Seq::empty(), query_provider_id)) {
                None => Err(AuthError::NotFound),
                Some(i) => Ok(store@.credentials[i]),
            },
    {
        match store.credential_by_natural_key(CredentialKind::GithubOauth, "", query_provider_id) {
            Ok(Credential::GithubOauth(c)) => Ok(c),
            Ok(_) => Err(AuthError::NotFound),
            Err(e) => Err(e),
        }
    }

    /// Sets the disabled flag and persists it; the last update moves to now
    /// when the flag changes.
    pub fn set_disabled(&mut self, store: &mut Store, updated_disabled: bool) -> (r: AuthResult<()>)
        requires
            old(store)@.wf(),
        ensures
            final(store)@.wf(),
            exists|now: i64| {
                &&& final(store)@ == (#[trigger] old(store)@.set_disabled(CredentialKind::GithubOauth, old(self).cid, updated_disabled, now)).0
                &&& match old(store)@.set_disabled(CredentialKind::GithubOauth, old(self).cid, updated_disabled, now).1 {
                    Ok(c) => r is Ok && c == Credential::GithubOauth(*final(self)),
                    Err(e) => r == Err::<(), AuthError>(e) && *final(self) == *old(self),
                }
            },
    {
        let now = now_micros();
        match store.set_disabled_at(CredentialKind::GithubOauth, self.cid, updated_disabled, now) {
            Ok(Credential::GithubOauth(c)) => {
                *self = c;
                Ok(())
            },
            Ok(_) => Err(AuthError::NotFound),
            Err(e) => Err(e),
        }
    }

    /// Deletes this credential: refused unless its owner has two or more
    /// kinds populated, and when no such credential of that owner is stored.
    pub fn delete(&self, store: &mut Store) -> (r: AuthResult<()>)
        requires
            old(store)@.wf(),
        ensures
            (final(store)@, r) == old(store)@.delete(CredentialKind::GithubOauth, self.cid, self.uid),
            final(store)@.wf(),
    {
        store.delete_credential(CredentialKind::GithubOauth, self.cid, self.uid)
    }

    /// The user that owns this credential.
    pub fn get_owner(&self, store: &Store) -> (r: AuthResult<User>)
        ensures
            r == if store@.has_user(self.uid) {
                Ok(User { uid: self.uid })
            } else {
                Err(AuthError::NotFound)
            },
    {
        User::get_by_uid(store, self.uid)
    }
}

impl PartialGithubOauth {
    pub open spec fn as_partial(self) -> PartialCredential {
        PartialCredential::GithubOauth(self)
    }

    /// This partial credential as one of any kind.
    pub fn to_partial(&self) -> (r: PartialCredential)
        ensures
            r == self.as_partial(),
    {
        PartialCredential::GithubOauth(PartialGithubOauth { provider_id: self.provider_id, username: self.username.clone() })
    }

    /// Authenticates with this partial credential now.
    pub fn authenticate(&self, store: &mut Store) -> (r: AuthResult<GithubOauth>)
        requires
            old(store)@.wf(),
        ensures
            final(store)@.wf(),
            exists|now: i64| (final(store)@, lift_github_oauth(r)) == #[trigger] old(store)@.authenticate(self.as_partial(), now),
    {
        let p = self.to_partial();
        let now = now_micros();
        match p.authenticate_at(store, now) {
            Ok(Credential::GithubOauth(c)) => Ok(c),
            Ok(_) => Err(AuthError::NotFound),
            Err(e) => Err(e),
        }
    }

    /// Associates this partial credential with user `owner_uid`.
    pub fn associate(&self, store: &mut Store, owner_uid: u128) -> (r: AuthResult<GithubOauth>)
        requires
            old(store)@.wf(),
        ensures
            final(store)@.wf(),
            match lift_github_oauth(r) {
                Ok(c) => exists|cid: u128, hash: String, now: i64|
                    c == #[trigger] self.as_partial().build(owner_uid, cid, hash, now)
                        && old(store)@.associate(c) == (final(store)@, Ok::<(), AuthError>(())),
                Err(e) => final(store)@ == old(store)@ && (exists|cid: u128, hash: String, now: i64|
                        old(store)@.associate_error(#[trigger] self.as_partial().build(owner_uid, cid, hash, now)) == Some(e)),
            },
            lift_github_oauth(r) matches Ok(c) ==> secret_verdict(self.as_partial(), c) == Some(true),
            old(store)@.has_user(owner_uid) && old(store)@.slot_of(owner_uid, CredentialKind::GithubOauth) is None
                && old(store)@.key_index(self.as_partial().natural_key()) is None && old(store)@.credentials.len() == 0
                && (self.as_partial().secret() matches Some(pw) ==> pw@.len() < 0x4000_0000) ==> r is Ok,
    {
        let p = self.to_partial();
        let hash = match fresh_secret(&p) {
            Ok(h) => h,
            Err(e) => return Err(e),
        };
        let ghost h = hash;
        let cid = new_uuid();
        let now = now_micros();
        let r = p.associate_with(store, owner_uid, cid, hash, now);
        proof {
            let c = p.build(owner_uid, cid, h, now);
            assert(c.natural_key() == p.natural_key());
            assert(secret_verdict(p, c) == secret_verdict(p, p.build(0, 0, h, 0)));
            if r is Ok {
                assert(old(store)@.associate(c) == (final(store)@, Ok::<(), AuthError>(())));
            }
            if old(store)@.credentials.len() == 0 {
                assert(!old(store)@.cid_taken(cid));
            }
        }
        match r {
            Ok(Credential::GithubOauth(c)) => Ok(c),
            Ok(_) => Err(AuthError::NotFound),
            Err(e) => Err(e),
        }
    }
}

impl CredentialLookup {
    /// The ledger row of `query_uid`.
    pub fn get_by_uid(store: &Store, query_uid: u128) -> (r: AuthResult<CredentialLookup>)
        requires
            store@.wf(),
        ensures
            r == match store@.lookup_of(query_uid) {
                None => Err(AuthError::NotFound),
                Some(l) => Ok(l),
            },
    {
        store.lookup(query_uid)
    }

    /// The email/password credential listed in this row.
    pub fn email_password(&self, store: &Store) -> (r: AuthResult<EmailPassword>)
        requires
            store@.wf(),
        ensures
            lift_email_password(r) == match self.email_password {
                None => Err(AuthError::NotFound),
                Some(cid) => store@.visible(store@.credential_index(CredentialKind::EmailPassword, cid)),
            },
    {
        match self.email_password {
            Some(cid) => EmailPassword::get_by_cid(store, cid),
            None => Err(AuthError::NotFound),
        }
    }

    /// The GitHub credential listed in this row.
    pub fn github_oauth(&self, store: &Store) -> (r: AuthResult<GithubOauth>)
        requires
            store@.wf(),
        ensures
            lift_github_oauth(r) == match self.github_oauth {
                None => Err(AuthError::NotFound),
                Some(cid) => store@.visible(store@.credential_index(CredentialKind::GithubOauth, cid)),
            },
    {
        match self.github_oauth {
            Some(cid) => GithubOauth::get_by_cid(store, cid),
            None => Err(AuthError::NotFound),
        }
    }

    /// The username/password credential listed in this row.
    pub fn username_password(&self, store: &Store) -> (r: AuthResult<UsernamePassword>)
        requires
            store@.wf(),
        ensures
            lift_username_password(r) == match self.username_password {
                None => Err(AuthError::NotFound),
                Some(cid) => store@.visible(store@.credential_index(CredentialKind::UsernamePassword, cid)),
            },
    {
        match self.username_password {
            Some(cid) => UsernamePassword::get_by_cid(store, cid),
            None => Err(AuthError::NotFound),
        }
    }
}

} // verus!
