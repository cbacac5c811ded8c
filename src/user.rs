//! Users and the operations that a partial credential drives: creating a
//! user with it, authenticating with it, associating it with a user.
use vstd::prelude::*;
use crate::credential::{Credential, CredentialLookup, PartialCredential};
use crate::error::{AuthError, AuthResult};
use crate::platform::{hash_password, new_uuid, now_micros};
use crate::store::{secret_verdict, Store, StoreModel};

verus! {

/// A user: an identity that one or more credentials prove.
#[derive(Debug, Clone, Copy, PartialEq, Eq, Structural)]
pub struct User {
    pub uid: u128,
}

/// The owner of the credential in a result.
pub open spec fn owner_of(r: AuthResult<Credential>) -> AuthResult<User> {
    match r {
        Ok(c) => Ok(User { uid: c.uid() }),
        Err(e) => Err(e),
    }
}

/// A unit result carrying `v` on success.
pub open spec fn with_value<T>(r: Result<(), AuthError>, v: T) -> AuthResult<T> {
    match r {
        Ok(()) => Ok(v),
        Err(e) => Err(e),
    }
}

impl PartialCredential {
    /// Authenticates with this partial credential at time `now`.
    pub fn authenticate_at(&self, store: &mut Store, now: i64) -> (r: AuthResult<Credential>)
        requires
            old(store)@.wf(),
        ensures
            (final(store)@, r) == old(store)@.authenticate(*self, now),
            final(store)@.wf(),
    {
        store.authenticate_at(self, now)
    }

    /// Authenticates with this partial credential now.
    pub fn authenticate(&self, store: &mut Store) -> (r: AuthResult<Credential>)
        requires
            old(store)@.wf(),
        ensures
            exists|now: i64| (final(store)@, r) == old(store)@.authenticate(*self, now),
            final(store)@.wf(),
    {
        let now = now_micros();
        store.authenticate_at(self, now)
    }

    /// Associates this partial credential with user `owner`, storing the row
    /// with id `cid`, password hash `hash` and time `now`.
    pub fn associate_with(&self, store: &mut Store, owner: u128, cid: u128, hash: String, now: i64) -> (r: AuthResult<Credential>)
        requires
            old(store)@.wf(),
        ensures
            final(store)@ == old(store)@.associate(self.build(owner, cid, hash, now)).0,
            r == with_value(
                old(store)@.associate(self.build(owner, cid, hash, now)).1,
                self.build(owner, cid, hash, now),
            ),
            final(store)@.wf(),
    {
        let c = self.build_row(owner, cid, hash, now);
        let copy = c.duplicate();
        match store.associate_credential(c) {
            Ok(()) => Ok(copy),
            Err(e) => Err(e),
        }
    }

    /// Associates this partial credential with user `owner`: hashes the
    /// password with a fresh salt, draws a fresh credential id and stores
    /// the row.
    pub fn associate(&self, store: &mut Store, owner: u128) -> (r: AuthResult<Credential>)
        requires
            old(store)@.wf(),
        ensures
            final(store)@.wf(),
            match r {
                Ok(c) => exists|cid: u128, hash: String, now: i64|
                    c == #[trigger] self.build(owner, cid, hash, now)
                        && old(store)@.associate(c) == (final(store)@, Ok::<(), AuthError>(())),
                Err(e) => final(store)@ == old(store)@ && ((e == AuthError::Hash && !(*self is GithubOauth))
                    || exists|cid: u128, hash: String, now: i64|
                        old(store)@.associate_error(#[trigger] self.build(owner, cid, hash, now)) == Some(e)),
            },
            r matches Ok(c) ==> secret_verdict(*self, c) == Some(true),
            !old(store)@.has_user(owner) ==> r == Err::<Credential, AuthError>(AuthError::NotFound)
                || r == Err::<Credential, AuthError>(AuthError::Hash),
            old(store)@.slot_of(owner, self.kind()) is Some ==> r is Err,
            old(store)@.key_index(self.natural_key()) is Some ==> r is Err,
            old(store)@.has_user(owner) && old(store)@.slot_of(owner, self.kind()) is None
                && old(store)@.key_index(self.natural_key()) is None && old(store)@.credentials.len() == 0
                && (self.secret() matches Some(pw) ==> pw@.len() < 0x4000_0000) ==> r is Ok,
    {
        let hash = match fresh_secret(self) {
            Ok(h) => h,
            Err(e) => return Err(e),
        };
        let ghost h = hash;
        let cid = new_uuid();
        let now = now_micros();
        let r = self.associate_with(store, owner, cid, hash, now);
        proof {
            let c = self.build(owner, cid, h, now);
            assert(c.natural_key() == self.natural_key());
            assert(c.uid() == owner && c.kind() == self.kind());
            assert(secret_verdict(*self, c) == secret_verdict(*self, self.build(0, 0, h, 0)));
            if old(store)@.credentials.len() == 0 {
                assert(!old(store)@.cid_taken(cid));
            }
        }
        r
    }
}

/// The password hash that a new row of `p` stores: a freshly salted hash for
/// the password kinds, nothing for OAuth.
pub(crate) fn fresh_secret(p: &PartialCredential) -> (r: AuthResult<String>)
    ensures
        r matches Err(e) ==> e == AuthError::Hash && !(*p is GithubOauth),
        p.secret() matches Some(pw) && pw@.len() < 0x4000_0000 ==> r is Ok,
        *p is GithubOauth ==> r is Ok,
        r matches Ok(h) ==> secret_verdict(*p, p.build(0, 0, h, 0)) == Some(true),
{
    let password = match p {
        PartialCredential::EmailPassword(q) => q.password.as_str(),
        PartialCredential::UsernamePassword(q) => q.password.as_str(),
        PartialCredential::GithubOauth(_) => return Ok(String::new()),
    };
    match hash_password(password) {
        Ok(h) => Ok(h),
        Err(e) => Err(AuthError::from(e)),
    }
}

impl User {
    pub fn uid(&self) -> (r: u128)
        ensures
            r == self.uid,
    {
        self.uid
    }

    /// The user with id `query_uid`.
    pub fn get_by_uid(store: &Store, query_uid: u128) -> (r: AuthResult<User>)
        ensures
            r == if store@.has_user(query_uid) {
                Ok(User { uid: query_uid })
            } else {
                Err(AuthError::NotFound)
            },
    {
        if store.has_user(query_uid) {
            Ok(User { uid: query_uid })
        } else {
            Err(AuthError::NotFound)
        }
    }

    /// This user's ledger row: which credential is active for each kind.
    pub fn credentials(&self, store: &Store) -> (r: AuthResult<CredentialLookup>)
        requires
            store@.wf(),
        ensures
            r == match store@.lookup_of(self.uid) {
                None => Err(AuthError::NotFound),
                Some(l) => Ok(l),
            },
    {
        store.lookup(self.uid)
    }

    /// Creates user `uid` whose first credential is `partial_credential`,
    /// stored with id `cid`, password hash `hash` and time `now`.  If the
    /// association fails no user is left behind.
    pub fn new_with(
        store: &mut Store,
        partial_credential: &PartialCredential,
        uid: u128,
        cid: u128,
        hash: String,
        now: i64,
    ) -> (r: AuthResult<User>)
        requires
            old(store)@.wf(),
        ensures
            final(store)@ == old(store)@.create_user(uid, partial_credential.build(uid, cid, hash, now)).0,
            r == with_value(
                old(store)@.create_user(uid, partial_credential.build(uid, cid, hash, now)).1,
                User { uid },
            ),
            final(store)@.wf(),
    {
        let c = partial_credential.build_row(uid, cid, hash, now);
        match store.create_user(uid, c) {
            Ok(()) => Ok(User { uid }),
            Err(e) => Err(e),
        }
    }

    /// Creates a user whose first credential is `partial_credential`, with
    /// a fresh user id, credential id and password salt.
    pub fn new(store: &mut Store, partial_credential: &PartialCredential) -> (r: AuthResult<User>)
        requires
            old(store)@.wf(),
        ensures
            final(store)@.wf(),
            match r {
                Ok(u) => exists|cid: u128, hash: String, now: i64|
                    old(store)@.create_user(u.uid, #[trigger] partial_credential.build(u.uid, cid, hash, now))
                        == (final(store)@, Ok::<(), AuthError>(()))
                        && secret_verdict(*partial_credential, partial_credential.build(u.uid, cid, hash, now)) == Some(true),
                Err(e) => final(store)@ == old(store)@ && ((e == AuthError::Hash && !(*partial_credential is GithubOauth))
                    || exists|uid: u128, cid: u128, hash: String, now: i64|
                        (#[trigger] old(store)@.create_user(uid, partial_credential.build(uid, cid, hash, now))).1
                            == Err::<(), AuthError>(e)),
            },
            old(store)@.key_index(partial_credential.natural_key()) is Some ==> r is Err,
            old(store)@.users.len() == 0 && (partial_credential.secret() matches Some(pw) ==> pw@.len() < 0x4000_0000)
                ==> r is Ok,
    {
        let hash = match fresh_secret(partial_credential) {
            Ok(h) => h,
            Err(e) => return Err(e),
        };
        let ghost h = hash;
        let uid = new_uuid();
        let cid = new_uuid();
        let now = now_micros();
        let r = User::new_with(store, partial_credential, uid, cid, hash, now);
        proof {
            let c = partial_credential.build(uid, cid, h, now);
            let m = old(store)@;
            let m1 = StoreModel { users: m.users.push(uid), ..m };
            assert(c.natural_key() == partial_credential.natural_key());
            assert(m1.key_index(c.natural_key()) == m.key_index(c.natural_key()));
            assert(secret_verdict(*partial_credential, c) == secret_verdict(*partial_credential, partial_credential.build(0, 0, h, 0)));
            if r is Ok {
                assert(m.create_user(uid, c) == (final(store)@, Ok::<(), AuthError>(())));
                assert(r->Ok_0.uid == uid);
            } else {
                assert(m.create_user(uid, c).1 == Err::<(), AuthError>(r->Err_0));
            }
            if m.users.len() == 0 {
                lemma_empty_store(m);
                assert(m1.users[0] == uid);
                assert(m1.has_user(uid));
                assert(!m1.has_lookup(uid));
                assert(!m1.cid_taken(cid));
            }
        }
        r
    }

    /// Authenticates with `partial_credential` at time `now` and resolves the
    /// credential's owner.
    pub fn authenticate_at(store: &mut Store, partial_credential: &PartialCredential, now: i64) -> (r: AuthResult<User>)
        requires
            old(store)@.wf(),
        ensures
            final(store)@ == old(store)@.authenticate(*partial_credential, now).0,
            r == owner_of(old(store)@.authenticate(*partial_credential, now).1),
            final(store)@.wf(),
    {
        let credential = match store.authenticate_at(partial_credential, now) {
            Ok(c) => c,
            Err(e) => return Err(e),
        };
        proof {
            lemma_authenticated_owner(old(store)@, *partial_credential, now);
        }
        User::get_by_uid(store, credential.get_uid())
    }

    /// Authenticates with `partial_credential` now and resolves the
    /// credential's owner.
    pub fn authenticate(store: &mut Store, partial_credential: &PartialCredential) -> (r: AuthResult<User>)
        requires
            old(store)@.wf(),
        ensures
            exists|now: i64|
                final(store)@ == old(store)@.authenticate(*partial_credential, now).0
                    && r == owner_of(#[trigger] old(store)@.authenticate(*partial_credential, now).1),
            final(store)@.wf(),
    {
        let now = now_micros();
        User::authenticate_at(store, partial_credential, now)
    }
}

/// A well-formed store without users holds no ledger rows and no
/// credentials.
proof fn lemma_empty_store(m: StoreModel)
    requires
        m.wf(),
        m.users.len() == 0,
    ensures
        m.lookups.len() == 0,
        m.credentials.len() == 0,
{
    if m.lookups.len() > 0 {
        assert(m.users.contains(m.lookups[0].uid));
    }
    if m.credentials.len() > 0 {
        assert(m.users.contains(m.credentials[0].uid()));
    }
}

/// The owner of an authenticated credential is a user of the store after the
/// authentication.
proof fn lemma_authenticated_owner(m: StoreModel, p: PartialCredential, now: i64)
    requires
        m.wf(),
        m.authenticate(p, now).1 is Ok,
    ensures
        m.authenticate(p, now).0.has_user(m.authenticate(p, now).1->Ok_0.uid()),
{
    let i = m.authenticate_check(p)->Ok_0;
    assert(m.has_key(i, p.natural_key()));
    assert(m.users.contains(m.credentials[i].uid()));
}

} // verus!
