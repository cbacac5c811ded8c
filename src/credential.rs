//! The credential kinds, their stored rows, the unauthenticated (partial)
//! forms that callers submit, and the per-user lookup ledger.
use vstd::prelude::*;
use crate::platform::lower_of;

verus! {

/// The exclusive credential kinds: a user holds at most one active
/// credential of each.
#[derive(Debug, Clone, Copy, PartialEq, Eq, Structural)]
pub enum CredentialKind {
    EmailPassword,
    GithubOauth,
    UsernamePassword,
}

/// The OAuth providers that a user can link.
#[derive(Debug, Clone, Copy, PartialEq, Eq, Structural)]
pub enum OauthProviders {
    GithubOauth,
}

impl OauthProviders {
    /// The provider's name on the wire.
    pub fn name(&self) -> (r: &'static str)
        ensures
            r@ == "github"@,
    {
        match self {
            OauthProviders::GithubOauth => "github",
        }
    }
}

/// A stored email and password credential.  `password` holds the salted
/// hash, never the password.  Timestamps are microseconds since the Unix
/// epoch.
#[derive(Debug)]
pub struct EmailPassword {
    pub cid: u128,
    pub uid: u128,
    pub email: String,
    pub password: String,
    pub verified: bool,
    pub last_update: i64,
    pub last_authentication: i64,
    pub created: i64,
    pub disabled: bool,
}

/// A stored username and password credential.
#[derive(Debug)]
pub struct UsernamePassword {
    pub cid: u128,
    pub uid: u128,
    pub username: String,
    pub password: String,
    pub verified: bool,
    pub last_update: i64,
    pub last_authentication: i64,
    pub created: i64,
    pub disabled: bool,
}

/// A stored link to a GitHub account.  OAuth credentials count as verified.
#[derive(Debug)]
pub struct GithubOauth {
    pub cid: u128,
    pub uid: u128,
    pub provider_id: i32,
    pub username: String,
    pub last_authentication: i64,
    pub last_update: i64,
    pub created: i64,
    pub disabled: bool,
}

/// A stored credential of any kind.
#[derive(Debug)]
pub enum Credential {
    EmailPassword(EmailPassword),
    UsernamePassword(UsernamePassword),
    GithubOauth(GithubOauth),
}

/// The natural key of a credential or of a partial credential: its kind, its
/// case-folded name for the password kinds, its provider id for OAuth.
pub open spec fn key_for(kind: CredentialKind, name: Seq<char>, provider: i32) -> (CredentialKind, Seq<char>, i32) {
    if kind == CredentialKind::GithubOauth {
        (kind, Seq::empty(), provider)
    } else {
        (kind, lower_of(name), 0i32)
    }
}

impl Credential {
    pub open spec fn kind(self) -> CredentialKind {
        match self {
            Credential::EmailPassword(_) => CredentialKind::EmailPassword,
            Credential::UsernamePassword(_) => CredentialKind::UsernamePassword,
            Credential::GithubOauth(_) => CredentialKind::GithubOauth,
        }
    }

    pub open spec fn cid(self) -> u128 {
        match self {
            Credential::EmailPassword(c) => c.cid,
            Credential::UsernamePassword(c) => c.cid,
            Credential::GithubOauth(c) => c.cid,
        }
    }

    pub open spec fn uid(self) -> u128 {
        match self {
            Credential::EmailPassword(c) => c.uid,
            Credential::UsernamePassword(c) => c.uid,
            Credential::GithubOauth(c) => c.uid,
        }
    }

    pub open spec fn is_disabled(self) -> bool {
        match self {
            Credential::EmailPassword(c) => c.disabled,
            Credential::UsernamePassword(c) => c.disabled,
            Credential::GithubOauth(c) => c.disabled,
        }
    }

    /// The name that identifies a password credential.
    pub open spec fn key_name(self) -> Seq<char> {
        match self {
            Credential::EmailPassword(c) => c.email@,
            Credential::UsernamePassword(c) => c.username@,
            Credential::GithubOauth(_) => Seq::empty(),
        }
    }

    /// The provider account id of an OAuth credential.
    pub open spec fn key_provider(self) -> i32 {
        match self {
            Credential::EmailPassword(_) => 0,
            Credential::UsernamePassword(_) => 0,
            Credential::GithubOauth(c) => c.provider_id,
        }
    }

    pub open spec fn natural_key(self) -> (CredentialKind, Seq<char>, i32) {
        key_for(self.kind(), self.key_name(), self.key_provider())
    }

    pub fn get_key_name(&self) -> (r: &str)
        ensures
            self.kind() != CredentialKind::GithubOauth ==> r@ == self.key_name(),
    {
        match self {
            Credential::EmailPassword(c) => c.email.as_str(),
            Credential::UsernamePassword(c) => c.username.as_str(),
            Credential::GithubOauth(_) => "",
        }
    }

    pub fn get_key_provider(&self) -> (r: i32)
        ensures
            r == self.key_provider(),
    {
        match self {
            Credential::EmailPassword(_) => 0,
            Credential::UsernamePassword(_) => 0,
            Credential::GithubOauth(c) => c.provider_id,
        }
    }

    /// The stored password hash of a password credential.
    pub open spec fn password_hash(self) -> Option<String> {
        match self {
            Credential::EmailPassword(c) => Some(c.password),
            Credential::UsernamePassword(c) => Some(c.password),
            Credential::GithubOauth(_) => None,
        }
    }

    /// This credential with its last authentication set to `now`.
    pub open spec fn authenticated_at(self, now: i64) -> Credential {
        match self {
            Credential::EmailPassword(c) => Credential::EmailPassword(
                EmailPassword { last_authentication: now, ..c },
            ),
            Credential::UsernamePassword(c) => Credential::UsernamePassword(
                UsernamePassword { last_authentication: now, ..c },
            ),
            Credential::GithubOauth(c) => Credential::GithubOauth(
                GithubOauth { last_authentication: now, ..c },
            ),
        }
    }

    /// This credential with its disabled flag set to `flag`; when the flag
    /// changes, its last update becomes `now`.
    pub open spec fn disabled_set(self, flag: bool, now: i64) -> Credential {
        if self.is_disabled() == flag {
            self
        } else {
            match self {
                Credential::EmailPassword(c) => Credential::EmailPassword(
                    EmailPassword { disabled: flag, last_update: now, ..c },
                ),
                Credential::UsernamePassword(c) => Credential::UsernamePassword(
                    UsernamePassword { disabled: flag, last_update: now, ..c },
                ),
                Credential::GithubOauth(c) => Credential::GithubOauth(
                    GithubOauth { disabled: flag, last_update: now, ..c },
                ),
            }
        }
    }

    pub open spec fn is_verified(self) -> bool {
        match self {
            Credential::EmailPassword(c) => c.verified,
            Credential::UsernamePassword(c) => c.verified,
            Credential::GithubOauth(_) => true,
        }
    }

    /// This credential with its verified flag set to `flag`; when the flag
    /// changes, its last update becomes `now`.  OAuth credentials are always
    /// verified and stay as they are.
    pub open spec fn verified_set(self, flag: bool, now: i64) -> Credential {
        if self.is_verified() == flag {
            self
        } else {
            match self {
                Credential::EmailPassword(c) => Credential::EmailPassword(
                    EmailPassword { verified: flag, last_update: now, ..c },
                ),
                Credential::UsernamePassword(c) => Credential::UsernamePassword(
                    UsernamePassword { verified: flag, last_update: now, ..c },
                ),
                Credential::GithubOauth(c) => Credential::GithubOauth(c),
            }
        }
    }

    /// Builds `authenticated_at(now)`.
    pub fn with_last_authentication(&self, now: i64) -> (r: Credential)
        ensures
            r == self.authenticated_at(now),
    {
        match self {
            Credential::EmailPassword(c) => {
                let mut d = c.duplicate();
                d.last_authentication = now;
                Credential::EmailPassword(d)
            },
            Credential::UsernamePassword(c) => {
                let mut d = c.duplicate();
                d.last_authentication = now;
                Credential::UsernamePassword(d)
            },
            Credential::GithubOauth(c) => {
                let mut d = c.duplicate();
                d.last_authentication = now;
                Credential::GithubOauth(d)
            },
        }
    }

    /// Builds `disabled_set(flag, now)`.
    pub fn with_disabled(&self, flag: bool, now: i64) -> (r: Credential)
        ensures
            r == self.disabled_set(flag, now),
    {
        if self.get_disabled() == flag {
            return self.duplicate();
        }
        match self {
            Credential::EmailPassword(c) => {
                let mut d = c.duplicate();
                d.disabled = flag;
                d.last_update = now;
                Credential::EmailPassword(d)
            },
            Credential::UsernamePassword(c) => {
                let mut d = c.duplicate();
                d.disabled = flag;
                d.last_update = now;
                Credential::UsernamePassword(d)
            },
            Credential::GithubOauth(c) => {
                let mut d = c.duplicate();
                d.disabled = flag;
                d.last_update = now;
                Credential::GithubOauth(d)
            },
        }
    }

    /// Builds `verified_set(flag, now)`.
    pub fn with_verified(&self, flag: bool, now: i64) -> (r: Credential)
        ensures
            r == self.verified_set(flag, now),
    {
        match self {
            Credential::EmailPassword(c) => {
                let mut d = c.duplicate();
                if d.verified != flag {
                    d.verified = flag;
                    d.last_update = now;
                }
                Credential::EmailPassword(d)
            },
            Credential::UsernamePassword(c) => {
                let mut d = c.duplicate();
                if d.verified != flag {
                    d.verified = flag;
                    d.last_update = now;
                }
                Credential::UsernamePassword(d)
            },
            Credential::GithubOauth(c) => Credential::GithubOauth(c.duplicate()),
        }
    }

    pub fn get_kind(&self) -> (r: CredentialKind)
        ensures
            r == self.kind(),
    {
        match self {
            Credential::EmailPassword(_) => CredentialKind::EmailPassword,
            Credential::UsernamePassword(_) => CredentialKind::UsernamePassword,
            Credential::GithubOauth(_) => CredentialKind::GithubOauth,
        }
    }

    pub fn get_cid(&self) -> (r: u128)
        ensures
            r == self.cid(),
    {
        match self {
            Credential::EmailPassword(c) => c.cid,
            Credential::UsernamePassword(c) => c.cid,
            Credential::GithubOauth(c) => c.cid,
        }
    }

    pub fn get_uid(&self) -> (r: u128)
        ensures
            r == self.uid(),
    {
        match self {
            Credential::EmailPassword(c) => c.uid,
            Credential::UsernamePassword(c) => c.uid,
            Credential::GithubOauth(c) => c.uid,
        }
    }

    pub fn get_disabled(&self) -> (r: bool)
        ensures
            r == self.is_disabled(),
    {
        match self {
            Credential::EmailPassword(c) => c.disabled,
            Credential::UsernamePassword(c) => c.disabled,
            Credential::GithubOauth(c) => c.disabled,
        }
    }

    /// A copy of this credential.
    pub fn duplicate(&self) -> (r: Credential)
        ensures
            r == *self,
    {
        match self {
            Credential::EmailPassword(c) => Credential::EmailPassword(c.duplicate()),
            Credential::UsernamePassword(c) => Credential::UsernamePassword(c.duplicate()),
            Credential::GithubOauth(c) => Credential::GithubOauth(c.duplicate()),
        }
    }
}

impl EmailPassword {
    /// A copy of this row.
    pub fn duplicate(&self) -> (r: EmailPassword)
        ensures
            r == *self,
    {
        EmailPassword {
            cid: self.cid,
            uid: self.uid,
            email: self.email.clone(),
            password: self.password.clone(),
            verified: self.verified,
            last_update: self.last_update,
            last_authentication: self.last_authentication,
            created: self.created,
            disabled: self.disabled,
        }
    }
}

impl UsernamePassword {
    /// A copy of this row.
    pub fn duplicate(&self) -> (r: UsernamePassword)
        ensures
            r == *self,
    {
        UsernamePassword {
            cid: self.cid,
            uid: self.uid,
            username: self.username.clone(),
            password: self.password.clone(),
            verified: self.verified,
            last_update: self.last_update,
            last_authentication: self.last_authentication,
            created: self.created,
            disabled: self.disabled,
        }
    }
}

impl GithubOauth {
    /// A copy of this row.
    pub fn duplicate(&self) -> (r: GithubOauth)
        ensures
            r == *self,
    {
        GithubOauth {
            cid: self.cid,
            uid: self.uid,
            provider_id: self.provider_id,
            username: self.username.clone(),
            last_authentication: self.last_authentication,
            last_update: self.last_update,
            created: self.created,
            disabled: self.disabled,
        }
    }
}

/// The per-user ledger of which credential, if any, is active for each
/// exclusive kind.
#[derive(Debug, Clone, Copy, PartialEq, Eq, Structural)]
pub struct CredentialLookup {
    pub uid: u128,
    pub email_password: Option<u128>,
    pub github_oauth: Option<u128>,
    pub username_password: Option<u128>,
}

impl CredentialLookup {
    /// A ledger with every slot empty.
    pub open spec fn empty(uid: u128) -> CredentialLookup {
        CredentialLookup { uid, email_password: None, github_oauth: None, username_password: None }
    }

    pub open spec fn slot(self, kind: CredentialKind) -> Option<u128> {
        match kind {
            CredentialKind::EmailPassword => self.email_password,
            CredentialKind::GithubOauth => self.github_oauth,
            CredentialKind::UsernamePassword => self.username_password,
        }
    }

    pub open spec fn with_slot(self, kind: CredentialKind, v: Option<u128>) -> CredentialLookup {
        match kind {
            CredentialKind::EmailPassword => CredentialLookup { email_password: v, ..self },
            CredentialKind::GithubOauth => CredentialLookup { github_oauth: v, ..self },
            CredentialKind::UsernamePassword => CredentialLookup { username_password: v, ..self },
        }
    }

    /// The number of occupied slots.
    pub open spec fn slot_count(self) -> nat {
        (if self.email_password is Some { 1nat } else { 0nat })
            + (if self.github_oauth is Some { 1nat } else { 0nat })
            + (if self.username_password is Some { 1nat } else { 0nat })
    }

    pub fn uid(&self) -> (r: u128)
        ensures
            r == self.uid,
    {
        self.uid
    }

    /// Whether two or more kinds are populated, the condition under which a
    /// credential may be deleted.
    pub fn has_multiple_credentials(&self) -> (r: bool)
        ensures
            r == (self.slot_count() > 1),
    {
        let n: u32 = (if self.email_password.is_some() { 1u32 } else { 0u32 })
            + (if self.github_oauth.is_some() { 1u32 } else { 0u32 })
            + (if self.username_password.is_some() { 1u32 } else { 0u32 });
        n > 1
    }

    pub fn get_slot(&self, kind: CredentialKind) -> (r: Option<u128>)
        ensures
            r == self.slot(kind),
    {
        match kind {
            CredentialKind::EmailPassword => self.email_password,
            CredentialKind::GithubOauth => self.github_oauth,
            CredentialKind::UsernamePassword => self.username_password,
        }
    }

    pub fn set_slot(&mut self, kind: CredentialKind, v: Option<u128>)
        ensures
            *final(self) == old(self).with_slot(kind, v),
    {
        match kind {
            CredentialKind::EmailPassword => self.email_password = v,
            CredentialKind::GithubOauth => self.github_oauth = v,
            CredentialKind::UsernamePassword => self.username_password = v,
        }
    }
}

/// An email and password submitted by a caller, not yet matched to a row.
#[derive(Debug)]
pub struct PartialEmailPassword {
    pub email: String,
    pub password: String,
}

impl PartialEmailPassword {
    pub fn new(email: String, password: String) -> (r: Self)
        ensures
            r.email == email,
            r.password == password,
    {
        PartialEmailPassword { email, password }
    }
}

/// A username and password submitted by a caller.
#[derive(Debug)]
pub struct PartialUsernamePassword {
    pub username: String,
    pub password: String,
}

impl PartialUsernamePassword {
    pub fn new(username: String, password: String) -> (r: Self)
        ensures
            r.username == username,
            r.password == password,
    {
        PartialUsernamePassword { username, password }
    }
}

/// A GitHub account, as the provider's code exchange reported it.
#[derive(Debug)]
pub struct PartialGithubOauth {
    pub provider_id: i32,
    pub username: String,
}

impl PartialGithubOauth {
    pub fn new(partial_provider_id: i32, partial_username: String) -> (r: Self)
        ensures
            r.provider_id == partial_provider_id,
            r.username == partial_username,
    {
        PartialGithubOauth { provider_id: partial_provider_id, username: partial_username }
    }
}

/// A partial credential of any kind.
#[derive(Debug)]
pub enum PartialCredential {
    EmailPassword(PartialEmailPassword),
    UsernamePassword(PartialUsernamePassword),
    GithubOauth(PartialGithubOauth),
}

impl PartialCredential {
    pub open spec fn kind(self) -> CredentialKind {
        match self {
            PartialCredential::EmailPassword(_) => CredentialKind::EmailPassword,
            PartialCredential::UsernamePassword(_) => CredentialKind::UsernamePassword,
            PartialCredential::GithubOauth(_) => CredentialKind::GithubOauth,
        }
    }

    pub open spec fn key_name(self) -> Seq<char> {
        match self {
            PartialCredential::EmailPassword(p) => p.email@,
            PartialCredential::UsernamePassword(p) => p.username@,
            PartialCredential::GithubOauth(_) => Seq::empty(),
        }
    }

    pub open spec fn key_provider(self) -> i32 {
        match self {
            PartialCredential::EmailPassword(_) => 0,
            PartialCredential::UsernamePassword(_) => 0,
            PartialCredential::GithubOauth(p) => p.provider_id,
        }
    }

    pub open spec fn natural_key(self) -> (CredentialKind, Seq<char>, i32) {
        key_for(self.kind(), self.key_name(), self.key_provider())
    }

    pub fn get_key_name(&self) -> (r: &str)
        ensures
            self.kind() != CredentialKind::GithubOauth ==> r@ == self.key_name(),
    {
        match self {
            PartialCredential::EmailPassword(p) => p.email.as_str(),
            PartialCredential::UsernamePassword(p) => p.username.as_str(),
            PartialCredential::GithubOauth(_) => "",
        }
    }

    pub fn get_key_provider(&self) -> (r: i32)
        ensures
            r == self.key_provider(),
    {
        match self {
            PartialCredential::EmailPassword(_) => 0,
            PartialCredential::UsernamePassword(_) => 0,
            PartialCredential::GithubOauth(p) => p.provider_id,
        }
    }

    /// The submitted password of a password kind.
    pub open spec fn secret(self) -> Option<String> {
        match self {
            PartialCredential::EmailPassword(p) => Some(p.password),
            PartialCredential::UsernamePassword(p) => Some(p.password),
            PartialCredential::GithubOauth(_) => None,
        }
    }

    /// The row that associating this partial credential with `owner` stores,
    /// given its new id, the password hash (ignored for OAuth) and the time.
    pub open spec fn build(self, owner: u128, cid: u128, hash: String, now: i64) -> Credential {
        match self {
            PartialCredential::EmailPassword(p) => Credential::EmailPassword(EmailPassword {
                cid,
                uid: owner,
                email: p.email,
                password: hash,
                verified: false,
                last_update: now,
                last_authentication: now,
                created: now,
                disabled: false,
            }),
            PartialCredential::UsernamePassword(p) => Credential::UsernamePassword(UsernamePassword {
                cid,
                uid: owner,
                username: p.username,
                password: hash,
                verified: false,
                last_update: now,
                last_authentication: now,
                created: now,
                disabled: false,
            }),
            PartialCredential::GithubOauth(p) => Credential::GithubOauth(GithubOauth {
                cid,
                uid: owner,
                provider_id: p.provider_id,
                username: p.username,
                last_authentication: now,
                last_update: now,
                created: now,
                disabled: false,
            }),
        }
    }

    pub fn get_kind(&self) -> (r: CredentialKind)
        ensures
            r == self.kind(),
    {
        match self {
            PartialCredential::EmailPassword(_) => CredentialKind::EmailPassword,
            PartialCredential::UsernamePassword(_) => CredentialKind::UsernamePassword,
            PartialCredential::GithubOauth(_) => CredentialKind::GithubOauth,
        }
    }

    /// Builds the row of `build`.
    pub fn build_row(&self, owner: u128, cid: u128, hash: String, now: i64) -> (r: Credential)
        ensures
            r == self.build(owner, cid, hash, now),
    {
        match self {
            PartialCredential::EmailPassword(p) => Credential::EmailPassword(EmailPassword {
                cid,
                uid: owner,
                email: p.email.clone(),
                password: hash,
                verified: false,
                last_update: now,
                last_authentication: now,
                created: now,
                disabled: false,
            }),
            PartialCredential::UsernamePassword(p) => Credential::UsernamePassword(UsernamePassword {
                cid,
                uid: owner,
                username: p.username.clone(),
                password: hash,
                verified: false,
                last_update: now,
                last_authentication: now,
                created: now,
                disabled: false,
            }),
            PartialCredential::GithubOauth(p) => Credential::GithubOauth(GithubOauth {
                cid,
                uid: owner,
                provider_id: p.provider_id,
                username: p.username.clone(),
                last_authentication: now,
                last_update: now,
                created: now,
                disabled: false,
            }),
        }
    }
}

} // verus!
