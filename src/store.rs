//! The transactional credential store.  Every operation is one atomic
//! transaction: it either commits all its writes or returns an error and
//! leaves the store as it was.  Exclusive access through `&mut Store` gives
//! serializable isolation.
use vstd::prelude::*;
use crate::credential::{key_for, Credential, CredentialKind, CredentialLookup, PartialCredential};
use crate::platform::{lower_of, lowercase, password_verifies, verify_password};
use crate::error::AuthError;

verus! {

/// The user table, the lookup ledger and the credential table.
pub struct Store {
    users: Vec<u128>,
    lookups: Vec<CredentialLookup>,
    credentials: Vec<Credential>,
}

/// The contents of a store.
pub struct StoreModel {
    pub users: Seq<u128>,
    pub lookups: Seq<CredentialLookup>,
    pub credentials: Seq<Credential>,
}

impl View for Store {
    type V = StoreModel;

    closed spec fn view(&self) -> StoreModel {
        StoreModel { users: self.users@, lookups: self.lookups@, credentials: self.credentials@ }
    }
}

/// What checking the secret of partial credential `p` against the stored
/// credential `c` gives: for the password kinds, the hash capability's
/// answer; OAuth partials carry no secret, their provider already proved
/// the identity.
pub open spec fn secret_verdict(p: PartialCredential, c: Credential) -> Option<bool> {
    match (p.secret(), c.password_hash()) {
        (Some(pw), Some(h)) => password_verifies(pw@, h@),
        _ => Some(true),
    }
}

pub open spec fn has_key_at(credentials: Seq<Credential>, i: int, key: (CredentialKind, Seq<char>, i32)) -> bool {
    0 <= i < credentials.len() && credentials[i].natural_key() == key
}

/// Where the credential with natural key `key` stands in `credentials`.
pub open spec fn key_index_in(credentials: Seq<Credential>, key: (CredentialKind, Seq<char>, i32)) -> Option<int> {
    if exists|i: int| has_key_at(credentials, i, key) {
        Some(choose|i: int| has_key_at(credentials, i, key))
    } else {
        None
    }
}

impl StoreModel {
    pub open spec fn empty() -> StoreModel {
        StoreModel { users: Seq::empty(), lookups: Seq::empty(), credentials: Seq::empty() }
    }

    pub open spec fn has_user(self, uid: u128) -> bool {
        self.users.contains(uid)
    }

    pub open spec fn has_lookup(self, uid: u128) -> bool {
        exists|i: int| 0 <= i < self.lookups.len() && self.lookups[i].uid == uid
    }

    /// Where the ledger row of `uid` stands.
    pub open spec fn lookup_index(self, uid: u128) -> Option<int> {
        if self.has_lookup(uid) {
            Some(choose|i: int| 0 <= i < self.lookups.len() && self.lookups[i].uid == uid)
        } else {
            None
        }
    }

    pub open spec fn lookup_of(self, uid: u128) -> Option<CredentialLookup> {
        match self.lookup_index(uid) {
            Some(i) => Some(self.lookups[i]),
            None => None,
        }
    }

    /// The credential id listed for `uid` under `kind`, if any.
    pub open spec fn slot_of(self, uid: u128, kind: CredentialKind) -> Option<u128> {
        match self.lookup_of(uid) {
            Some(l) => l.slot(kind),
            None => None,
        }
    }

    /// The number of kinds populated for `uid`.
    pub open spec fn slot_count_of(self, uid: u128) -> nat {
        match self.lookup_of(uid) {
            Some(l) => l.slot_count(),
            None => 0,
        }
    }

    pub open spec fn is_credential(self, i: int, kind: CredentialKind, cid: u128) -> bool {
        0 <= i < self.credentials.len() && self.credentials[i].kind() == kind
            && self.credentials[i].cid() == cid
    }

    /// Where the credential of `kind` with id `cid` stands.
    pub open spec fn credential_index(self, kind: CredentialKind, cid: u128) -> Option<int> {
        if exists|i: int| self.is_credential(i, kind, cid) {
            Some(choose|i: int| self.is_credential(i, kind, cid))
        } else {
            None
        }
    }

    pub open spec fn has_key(self, i: int, key: (CredentialKind, Seq<char>, i32)) -> bool {
        has_key_at(self.credentials, i, key)
    }

    /// Where the credential with natural key `key` stands.
    pub open spec fn key_index(self, key: (CredentialKind, Seq<char>, i32)) -> Option<int> {
        key_index_in(self.credentials, key)
    }

    pub open spec fn cid_taken(self, cid: u128) -> bool {
        exists|i: int| 0 <= i < self.credentials.len() && self.credentials[i].cid() == cid
    }

    /// A credential of `kind` with id `cid` owned by `uid` stands at `i`.
    pub open spec fn points_to(self, i: int, kind: CredentialKind, cid: u128, uid: u128) -> bool {
        self.is_credential(i, kind, cid) && self.credentials[i].uid() == uid
    }

    /// The slot `kind` of ledger row `l` is empty or names a credential of
    /// that kind owned by the row's user.
    pub open spec fn slot_resolves(self, l: int, kind: CredentialKind) -> bool {
        match self.lookups[l].slot(kind) {
            Some(cid) => exists|i: int| #[trigger] self.points_to(i, kind, cid, self.lookups[l].uid),
            None => true,
        }
    }

    /// Ledger row `l` lists credential `i` under its kind.
    pub open spec fn lists(self, l: int, i: int) -> bool {
        0 <= l < self.lookups.len() && self.lookups[l].uid == self.credentials[i].uid()
            && self.lookups[l].slot(self.credentials[i].kind()) == Some(self.credentials[i].cid())
    }

    /// Credential `i` is reachable from its owner's ledger row.
    pub open spec fn credential_listed(self, i: int) -> bool {
        exists|l: int| #[trigger] self.lists(l, i)
    }

    /// Why associating credential `c` fails, if it does: its owner is not a
    /// user, its kind is already linked to the owner, or its id or natural
    /// key is taken.
    pub open spec fn associate_error(self, c: Credential) -> Option<AuthError> {
        if !self.has_user(c.uid()) {
            Some(AuthError::NotFound)
        } else if self.slot_of(c.uid(), c.kind()) is Some {
            Some(AuthError::CredentialAssociated)
        } else if self.cid_taken(c.cid()) || self.key_index(c.natural_key()) is Some {
            Some(AuthError::Exists)
        } else {
            None
        }
    }

    /// The store after associating `c`: the credential is inserted and its
    /// owner's ledger row is created if absent, with the slot of its kind
    /// set to it and the other slots untouched.
    pub open spec fn associated(self, c: Credential) -> StoreModel {
        StoreModel {
            users: self.users,
            lookups: match self.lookup_index(c.uid()) {
                Some(l) => self.lookups.update(l, self.lookups[l].with_slot(c.kind(), Some(c.cid()))),
                None => self.lookups.push(
                    CredentialLookup::empty(c.uid()).with_slot(c.kind(), Some(c.cid())),
                ),
            },
            credentials: self.credentials.push(c),
        }
    }

    /// The outcome of the associate transaction.
    pub open spec fn associate(self, c: Credential) -> (StoreModel, Result<(), AuthError>) {
        match self.associate_error(c) {
            Some(e) => (self, Err(e)),
            None => (self.associated(c), Ok(())),
        }
    }

    /// Why deleting the credential of `kind` with id `cid`, presented as
    /// owned by `uid`, fails, if it does: the owner's ledger row is read
    /// first and the delete is refused unless two or more kinds are
    /// populated; then the credential must exist and belong to `uid`.
    pub open spec fn delete_error(self, kind: CredentialKind, cid: u128, uid: u128) -> Option<AuthError> {
        if self.slot_count_of(uid) < 2 {
            Some(AuthError::CredentialCannotDelete)
        } else {
            match self.credential_index(kind, cid) {
                None => Some(AuthError::NotFound),
                Some(i) => if self.credentials[i].uid() != uid {
                    Some(AuthError::NotFound)
                } else {
                    None
                },
            }
        }
    }

    /// The store after deleting the credential of `kind` with id `cid`: the
    /// row is gone and the slot of its owner's ledger row is cleared.
    pub open spec fn deleted(self, kind: CredentialKind, cid: u128) -> StoreModel {
        let i = self.credential_index(kind, cid)->0;
        let l = self.lookup_index(self.credentials[i].uid())->0;
        StoreModel {
            users: self.users,
            lookups: self.lookups.update(l, self.lookups[l].with_slot(kind, None)),
            credentials: self.credentials.remove(i),
        }
    }

    /// The outcome of the delete transaction.
    pub open spec fn delete(self, kind: CredentialKind, cid: u128, uid: u128) -> (StoreModel, Result<(), AuthError>) {
        match self.delete_error(kind, cid, uid) {
            Some(e) => (self, Err(e)),
            None => (self.deleted(kind, cid), Ok(())),
        }
    }

    /// The store with credential `i` replaced by `c`.
    pub open spec fn replaced(self, i: int, c: Credential) -> StoreModel {
        StoreModel { credentials: self.credentials.update(i, c), ..self }
    }

    /// Which stored credential partial credential `p` proves: the row with
    /// its natural key is looked up, its secret is checked and a disabled
    /// row is refused.  A missing row and a wrong secret give the same error.
    pub open spec fn authenticate_check(self, p: PartialCredential) -> Result<int, AuthError> {
        match self.key_index(p.natural_key()) {
            None => Err(AuthError::NotFound),
            Some(i) => match secret_verdict(p, self.credentials[i]) {
                None => Err(AuthError::Hash),
                Some(false) => Err(AuthError::NotFound),
                Some(true) => if self.credentials[i].is_disabled() {
                    Err(AuthError::CredentialDisabled)
                } else {
                    Ok(i)
                },
            },
        }
    }

    /// The outcome of authenticating partial credential `p` at time `now`:
    /// the credential that `p` proves gets its last authentication set.
    pub open spec fn authenticate(self, p: PartialCredential, now: i64) -> (StoreModel, Result<Credential, AuthError>) {
        match self.authenticate_check(p) {
            Err(e) => (self, Err(e)),
            Ok(i) => {
                let c = self.credentials[i].authenticated_at(now);
                (self.replaced(i, c), Ok(c))
            },
        }
    }

    /// The outcome of setting the disabled flag of a credential.
    pub open spec fn set_disabled(self, kind: CredentialKind, cid: u128, flag: bool, now: i64) -> (StoreModel, Result<Credential, AuthError>) {
        match self.credential_index(kind, cid) {
            None => (self, Err(AuthError::NotFound)),
            Some(i) => {
                let c = self.credentials[i].disabled_set(flag, now);
                (self.replaced(i, c), Ok(c))
            },
        }
    }

    /// The outcome of setting the verified flag of a credential.
    pub open spec fn set_verified(self, kind: CredentialKind, cid: u128, flag: bool, now: i64) -> (StoreModel, Result<Credential, AuthError>) {
        match self.credential_index(kind, cid) {
            None => (self, Err(AuthError::NotFound)),
            Some(i) => {
                let c = self.credentials[i].verified_set(flag, now);
                (self.replaced(i, c), Ok(c))
            },
        }
    }

    /// A credential as a normal flow sees it: disabled ones are refused.
    pub open spec fn visible(self, found: Option<int>) -> Result<Credential, AuthError> {
        match found {
            None => Err(AuthError::NotFound),
            Some(i) => if self.credentials[i].is_disabled() {
                Err(AuthError::CredentialDisabled)
            } else {
                Ok(self.credentials[i])
            },
        }
    }

    pub open spec fn owned(self, i: int, kind: CredentialKind, uid: u128) -> bool {
        0 <= i < self.credentials.len() && self.credentials[i].kind() == kind
            && self.credentials[i].uid() == uid
    }

    /// Where the credential of `kind` owned by `uid` stands.
    pub open spec fn owned_index(self, kind: CredentialKind, uid: u128) -> Option<int> {
        if exists|i: int| self.owned(i, kind, uid) {
            Some(choose|i: int| self.owned(i, kind, uid))
        } else {
            None
        }
    }

    /// The outcome of creating user `uid` with first credential `c`: the user
    /// row and the association commit together or not at all.
    pub open spec fn create_user(self, uid: u128, c: Credential) -> (StoreModel, Result<(), AuthError>) {
        if self.has_user(uid) {
            (self, Err(AuthError::Exists))
        } else {
            let m = StoreModel { users: self.users.push(uid), ..self };
            match m.associate_error(c) {
                Some(e) => (self, Err(e)),
                None => (m.associated(c), Ok(())),
            }
        }
    }

    /// The store's invariant: identifiers and natural keys are unique, every
    /// ledger row and credential belongs to a user, every occupied slot names
    /// an existing credential of its kind owned by that user, and every
    /// credential is listed in its owner's ledger row.
    pub open spec fn wf(self) -> bool {
        &&& forall|i: int, j: int|
            0 <= i < self.users.len() && 0 <= j < self.users.len() && i != j
                ==> self.users[i] != self.users[j]
        &&& forall|i: int, j: int|
            0 <= i < self.lookups.len() && 0 <= j < self.lookups.len() && i != j
                ==> self.lookups[i].uid != self.lookups[j].uid
        &&& forall|i: int| 0 <= i < self.lookups.len() ==> self.users.contains(#[trigger] self.lookups[i].uid)
        &&& forall|i: int, j: int|
            0 <= i < self.credentials.len() && 0 <= j < self.credentials.len() && i != j
                ==> self.credentials[i].cid() != self.credentials[j].cid()
        &&& forall|i: int, j: int|
            0 <= i < self.credentials.len() && 0 <= j < self.credentials.len() && i != j
                ==> self.credentials[i].natural_key() != self.credentials[j].natural_key()
        &&& forall|i: int| 0 <= i < self.credentials.len() ==> self.users.contains(#[trigger] self.credentials[i].uid())
        &&& forall|l: int, k: CredentialKind| 0 <= l < self.lookups.len() ==> #[trigger] self.slot_resolves(l, k)
        &&& forall|i: int| 0 <= i < self.credentials.len() ==> #[trigger] self.credential_listed(i)
    }
}

impl Store {
    /// An empty store.
    pub fn new() -> (r: Store)
        ensures
            r@ == StoreModel::empty(),
            r@.wf(),
    {
        Store { users: Vec::new(), lookups: Vec::new(), credentials: Vec::new() }
    }

    /// Where the ledger row of `uid` stands.
    fn find_lookup(&self, uid: u128) -> (r: Option<usize>)
        requires
            self@.wf(),
        ensures
            match r {
                Some(i) => self@.lookup_index(uid) == Some(i as int) && i < self@.lookups.len(),
                None => self@.lookup_index(uid) is None,
            },
    {
        let mut i: usize = 0;
        while i < self.lookups.len()
            invariant
                self@.wf(),
                0 <= i <= self.lookups@.len(),
                forall|j: int| 0 <= j < i ==> self.lookups@[j].uid != uid,
            decreases self.lookups@.len() - i,
        {
            if self.lookups[i].uid == uid {
                proof {
                    assert(self@.lookups[i as int].uid == uid);
                    assert(self@.has_lookup(uid));
                    let c = choose|j: int| 0 <= j < self@.lookups.len() && self@.lookups[j].uid == uid;
                    assert(c == i as int);
                }
                return Some(i);
            }
            i += 1;
        }
        proof {
            assert(!self@.has_lookup(uid)) by {
                assert(forall|j: int| 0 <= j < self@.lookups.len() ==> self@.lookups[j].uid != uid);
            }
        }
        None
    }

    /// Whether `uid` is a user.
    pub fn has_user(&self, uid: u128) -> (r: bool)
        ensures
            r == self@.has_user(uid),
    {
        let mut i: usize = 0;
        while i < self.users.len()
            invariant
                0 <= i <= self.users@.len(),
                forall|j: int| 0 <= j < i ==> self.users@[j] != uid,
            decreases self.users@.len() - i,
        {
            if self.users[i] == uid {
                proof {
                    assert(self@.users[i as int] == uid);
                }
                return true;
            }
            i += 1;
        }
        false
    }

    /// Whether some credential has id `cid`.
    fn cid_taken(&self, cid: u128) -> (r: bool)
        ensures
            r == self@.cid_taken(cid),
    {
        let mut i: usize = 0;
        while i < self.credentials.len()
            invariant
                0 <= i <= self.credentials@.len(),
                forall|j: int| 0 <= j < i ==> self.credentials@[j].cid() != cid,
            decreases self.credentials@.len() - i,
        {
            if self.credentials[i].get_cid() == cid {
                proof {
                    assert(self@.credentials[i as int].cid() == cid);
                }
                return true;
            }
            i += 1;
        }
        false
    }

    /// Where the credential whose natural key is `key_for(kind, name, provider)`
    /// stands.
    fn find_key(&self, kind: CredentialKind, name: &str, provider: i32) -> (r: Option<usize>)
        requires
            self@.wf(),
        ensures
            match r {
                Some(i) => self@.key_index(key_for(kind, name@, provider)) == Some(i as int)
                    && i < self@.credentials.len(),
                None => self@.key_index(key_for(kind, name@, provider)) is None,
            },
    {
        let ghost key = key_for(kind, name@, provider);
        let folded = lowercase(name);
        let mut i: usize = 0;
        while i < self.credentials.len()
            invariant
                self@.wf(),
                key == key_for(kind, name@, provider),
                folded@ == lower_of(name@),
                0 <= i <= self.credentials@.len(),
                forall|j: int| 0 <= j < i ==> !self@.has_key(j, key),
            decreases self.credentials@.len() - i,
        {
            let c = &self.credentials[i];
            let hit = if c.get_kind() != kind {
                false
            } else if kind == CredentialKind::GithubOauth {
                c.get_key_provider() == provider
            } else {
                lowercase(c.get_key_name()) == folded
            };
            if hit {
                proof {
                    assert(has_key_at(self@.credentials, i as int, key));
                    let w = choose|j: int| has_key_at(self@.credentials, j, key);
                    assert(self@.credentials[w].natural_key() == self@.credentials[i as int].natural_key());
                    assert(w == i as int);
                    assert(self@.key_index(key) == Some(i as int));
                    assert(i < self@.credentials.len());
                }
                return Some(i);
            }
            proof {
                assert(!self@.has_key(i as int, key));
            }
            i += 1;
        }
        proof {
            assert forall|j: int| !has_key_at(self@.credentials, j, key) by {
                if 0 <= j < self@.credentials.len() {
                    assert(!self@.has_key(j, key));
                }
            }
        }
        None
    }

    /// Associates credential `c` with its owner in one transaction: inserts
    /// the credential and sets the slot of its kind in the owner's ledger
    /// row, creating the row if absent.
    pub fn associate_credential(&mut self, c: Credential) -> (r: Result<(), AuthError>)
        requires
            old(self)@.wf(),
        ensures
            (final(self)@, r) == old(self)@.associate(c),
            final(self)@.wf(),
    {
        let uid = c.get_uid();
        let kind = c.get_kind();
        let cid = c.get_cid();
        if !self.has_user(uid) {
            return Err(AuthError::NotFound);
        }
        let li = self.find_lookup(uid);
        match li {
            Some(l) => {
                if self.lookups[l].get_slot(kind).is_some() {
                    return Err(AuthError::CredentialAssociated);
                }
            },
            None => {},
        }
        if self.cid_taken(cid) {
            return Err(AuthError::Exists);
        }
        if self.find_key(kind, c.get_key_name(), c.get_key_provider()).is_some() {
            return Err(AuthError::Exists);
        }
        proof {
            lemma_associated_wf(self@, c);
        }
        match li {
            Some(l) => {
                let mut row = self.lookups[l];
                row.set_slot(kind, Some(cid));
                self.lookups.set(l, row);
            },
            None => {
                let mut row = CredentialLookup {
                    uid,
                    email_password: None,
                    github_oauth: None,
                    username_password: None,
                };
                row.set_slot(kind, Some(cid));
                self.lookups.push(row);
            },
        }
        self.credentials.push(c);
        proof {
            assert(self@ == old(self)@.associated(c));
        }
        Ok(())
    }

    /// Deletes the credential of `kind` with id `cid`, presented as owned
    /// by `uid`, in one transaction: rereads the owner's ledger row, refuses
    /// unless two or more kinds are populated, then removes the row and
    /// clears its slot.
    pub fn delete_credential(&mut self, kind: CredentialKind, cid: u128, uid: u128) -> (r: Result<(), AuthError>)
        requires
            old(self)@.wf(),
        ensures
            (final(self)@, r) == old(self)@.delete(kind, cid, uid),
            final(self)@.wf(),
    {
        let l = match self.find_lookup(uid) {
            None => return Err(AuthError::CredentialCannotDelete),
            Some(l) => l,
        };
        if !self.lookups[l].has_multiple_credentials() {
            return Err(AuthError::CredentialCannotDelete);
        }
        let ci = match self.find_credential(kind, cid) {
            None => return Err(AuthError::NotFound),
            Some(i) => i,
        };
        if self.credentials[ci].get_uid() != uid {
            return Err(AuthError::NotFound);
        }
        proof {
            lemma_deleted_wf(self@, kind, cid, uid);
        }
        let mut row = self.lookups[l];
        row.set_slot(kind, None);
        self.lookups.set(l, row);
        self.credentials.remove(ci);
        proof {
            assert(self@ == old(self)@.deleted(kind, cid));
        }
        Ok(())
    }

    /// Finds the credential that partial credential `p` proves, changing
    /// nothing.
    pub fn authenticate_check(&self, p: &PartialCredential) -> (r: Result<usize, AuthError>)
        requires
            self@.wf(),
        ensures
            match r {
                Ok(i) => self@.authenticate_check(*p) == Ok::<int, AuthError>(i as int) && i < self@.credentials.len(),
                Err(e) => self@.authenticate_check(*p) == Err::<int, AuthError>(e),
            },
    {
        let i = match self.find_key(p.get_kind(), p.get_key_name(), p.get_key_provider()) {
            None => return Err(AuthError::NotFound),
            Some(i) => i,
        };
        let verdict: Option<bool> = match (p, &self.credentials[i]) {
            (PartialCredential::EmailPassword(q), Credential::EmailPassword(c)) => {
                match verify_password(q.password.as_str(), c.password.as_str()) {
                    Ok(b) => Some(b),
                    Err(_) => None,
                }
            },
            (PartialCredential::UsernamePassword(q), Credential::UsernamePassword(c)) => {
                match verify_password(q.password.as_str(), c.password.as_str()) {
                    Ok(b) => Some(b),
                    Err(_) => None,
                }
            },
            _ => Some(true),
        };
        match verdict {
            None => return Err(AuthError::Hash),
            Some(false) => return Err(AuthError::NotFound),
            Some(true) => {},
        }
        if self.credentials[i].get_disabled() {
            return Err(AuthError::CredentialDisabled);
        }
        Ok(i)
    }

    /// The credential standing at `i`.
    pub fn credential_at(&self, i: usize) -> (r: Credential)
        requires
            i < self@.credentials.len(),
        ensures
            r == self@.credentials[i as int],
    {
        self.credentials[i].duplicate()
    }

    /// Authenticates partial credential `p` at time `now`.
    pub fn authenticate_at(&mut self, p: &PartialCredential, now: i64) -> (r: Result<Credential, AuthError>)
        requires
            old(self)@.wf(),
        ensures
            (final(self)@, r) == old(self)@.authenticate(*p, now),
            final(self)@.wf(),
    {
        let i = match self.authenticate_check(p) {
            Err(e) => return Err(e),
            Ok(i) => i,
        };
        let updated = self.credentials[i].with_last_authentication(now);
        proof {
            lemma_replaced_wf(self@, i as int, updated);
        }
        self.credentials.set(i, updated.duplicate());
        proof {
            assert(self@ == old(self)@.replaced(i as int, updated));
        }
        Ok(updated)
    }

    /// Sets the disabled flag of the credential of `kind` with id `cid`.
    pub fn set_disabled_at(&mut self, kind: CredentialKind, cid: u128, flag: bool, now: i64) -> (r: Result<Credential, AuthError>)
        requires
            old(self)@.wf(),
        ensures
            (final(self)@, r) == old(self)@.set_disabled(kind, cid, flag, now),
            final(self)@.wf(),
    {
        let i = match self.find_credential(kind, cid) {
            None => return Err(AuthError::NotFound),
            Some(i) => i,
        };
        let updated = self.credentials[i].with_disabled(flag, now);
        proof {
            lemma_replaced_wf(self@, i as int, updated);
        }
        self.credentials.set(i, updated.duplicate());
        proof {
            assert(self@ == old(self)@.replaced(i as int, updated));
        }
        Ok(updated)
    }

    /// Sets the verified flag of the credential of `kind` with id `cid`.
    pub fn set_verified_at(&mut self, kind: CredentialKind, cid: u128, flag: bool, now: i64) -> (r: Result<Credential, AuthError>)
        requires
            old(self)@.wf(),
        ensures
            (final(self)@, r) == old(self)@.set_verified(kind, cid, flag, now),
            final(self)@.wf(),
    {
        let i = match self.find_credential(kind, cid) {
            None => return Err(AuthError::NotFound),
            Some(i) => i,
        };
        let updated = self.credentials[i].with_verified(flag, now);
        proof {
            lemma_replaced_wf(self@, i as int, updated);
        }
        self.credentials.set(i, updated.duplicate());
        proof {
            assert(self@ == old(self)@.replaced(i as int, updated));
        }
        Ok(updated)
    }

    /// The credential of `kind` with id `cid`; disabled ones are refused.
    pub fn credential_by_cid(&self, kind: CredentialKind, cid: u128) -> (r: Result<Credential, AuthError>)
        requires
            self@.wf(),
        ensures
            r == self@.visible(self@.credential_index(kind, cid)),
    {
        match self.find_credential(kind, cid) {
            None => Err(AuthError::NotFound),
            Some(i) => if self.credentials[i].get_disabled() {
                Err(AuthError::CredentialDisabled)
            } else {
                Ok(self.credentials[i].duplicate())
            },
        }
    }

    /// The credential of `kind` owned by `uid`; disabled ones are refused.
    pub fn credential_by_uid(&self, kind: CredentialKind, uid: u128) -> (r: Result<Credential, AuthError>)
        requires
            self@.wf(),
        ensures
            r == self@.visible(self@.owned_index(kind, uid)),
    {
        let mut i: usize = 0;
        while i < self.credentials.len()
            invariant
                self@.wf(),
                0 <= i <= self.credentials@.len(),
                forall|j: int| 0 <= j < i ==> !self@.owned(j, kind, uid),
            decreases self.credentials@.len() - i,
        {
            if self.credentials[i].get_kind() == kind && self.credentials[i].get_uid() == uid {
                proof {
                    assert(self@.owned(i as int, kind, uid));
                    let w = choose|j: int| self@.owned(j, kind, uid);
                    lemma_owned_unique(self@, w, i as int, kind, uid);
                }
                if self.credentials[i].get_disabled() {
                    return Err(AuthError::CredentialDisabled);
                }
                return Ok(self.credentials[i].duplicate());
            }
            i += 1;
        }
        Err(AuthError::NotFound)
    }

    /// The credential whose natural key is `key_for(kind, name, provider)`,
    /// disabled or not.
    pub fn credential_by_natural_key(&self, kind: CredentialKind, name: &str, provider: i32) -> (r: Result<Credential, AuthError>)
        requires
            self@.wf(),
        ensures
            r == match self@.key_index(key_for(kind, name@, provider)) {
                None => Err(AuthError::NotFound),
                Some(i) => Ok(self@.credentials[i]),
            },
    {
        match self.find_key(kind, name, provider) {
            None => Err(AuthError::NotFound),
            Some(i) => Ok(self.credentials[i].duplicate()),
        }
    }

    /// The ledger row of `uid`.
    pub fn lookup(&self, uid: u128) -> (r: Result<CredentialLookup, AuthError>)
        requires
            self@.wf(),
        ensures
            r == match self@.lookup_of(uid) {
                None => Err(AuthError::NotFound),
                Some(l) => Ok(l),
            },
    {
        match self.find_lookup(uid) {
            None => Err(AuthError::NotFound),
            Some(l) => Ok(self.lookups[l]),
        }
    }

    /// Creates user `uid` whose first credential is `c`, in one transaction.
    pub fn create_user(&mut self, uid: u128, c: Credential) -> (r: Result<(), AuthError>)
        requires
            old(self)@.wf(),
        ensures
            (final(self)@, r) == old(self)@.create_user(uid, c),
            final(self)@.wf(),
    {
        if self.has_user(uid) {
            return Err(AuthError::Exists);
        }
        proof {
            lemma_user_added_wf(self@, uid);
        }
        self.users.push(uid);
        match self.associate_credential(c) {
            Ok(()) => Ok(()),
            Err(e) => {
                self.users.pop();
                proof {
                    assert(self@.users =~= old(self)@.users);
                }
                Err(e)
            },
        }
    }

    /// Where the credential of `kind` with id `cid` stands.
    fn find_credential(&self, kind: CredentialKind, cid: u128) -> (r: Option<usize>)
        requires
            self@.wf(),
        ensures
            match r {
                Some(i) => self@.credential_index(kind, cid) == Some(i as int) && i < self@.credentials.len(),
                None => self@.credential_index(kind, cid) is None,
            },
    {
        let mut i: usize = 0;
        while i < self.credentials.len()
            invariant
                self@.wf(),
                0 <= i <= self.credentials@.len(),
                forall|j: int| 0 <= j < i ==> !self@.is_credential(j, kind, cid),
            decreases self.credentials@.len() - i,
        {
            if self.credentials[i].get_cid() == cid && self.credentials[i].get_kind() == kind {
                proof {
                    assert(self@.is_credential(i as int, kind, cid));
                    let c = choose|j: int| self@.is_credential(j, kind, cid);
                    assert(c == i as int);
                }
                return Some(i);
            }
            i += 1;
        }
        None
    }
}

proof fn lemma_slot_witness(n: StoreModel, l: int, k: CredentialKind, i: int)
    requires
        0 <= l < n.lookups.len(),
        n.lookups[l].slot(k) is Some,
        n.points_to(i, k, n.lookups[l].slot(k)->0, n.lookups[l].uid),
    ensures
        n.slot_resolves(l, k),
{
}

#[verifier::spinoff_prover]
proof fn lemma_associated_wf(m: StoreModel, c: Credential)
    requires
        m.wf(),
        m.associate_error(c) is None,
    ensures
        m.associated(c).wf(),
{
    let n = m.associated(c);
    let ci = m.credentials.len() as int;
    assert(!m.cid_taken(c.cid()));
    assert(m.key_index(c.natural_key()) is None);
    assert forall|i: int| 0 <= i < m.credentials.len() implies m.credentials[i].natural_key() != c.natural_key() by {
        assert(!m.has_key(i, c.natural_key()));
    }
    assert forall|i: int| 0 <= i < m.credentials.len() implies m.credentials[i].cid() != c.cid() by {
    }
    match m.lookup_index(c.uid()) {
        Some(l) => {
            assert(0 <= l < m.lookups.len() && m.lookups[l].uid == c.uid());
            assert(m.lookups[l].slot(c.kind()) is None);
            assert forall|l2: int, k: CredentialKind| 0 <= l2 < n.lookups.len() implies #[trigger] n.slot_resolves(l2, k) by {
                if l2 == l && k == c.kind() {
                    assert(n.lookups[l2].slot(k) == Some(c.cid()));
                    lemma_slot_witness(n, l2, k, ci);
                } else {
                    assert(m.slot_resolves(l2, k));
                    assert(n.lookups[l2].slot(k) == m.lookups[l2].slot(k));
                    assert(n.lookups[l2].uid == m.lookups[l2].uid);
                    if let Some(cid) = m.lookups[l2].slot(k) {
                        let i = choose|i: int| m.points_to(i, k, cid, m.lookups[l2].uid);
                        lemma_slot_witness(n, l2, k, i);
                    }
                    assert(n.slot_resolves(l2, k));
                }
            }
            assert forall|i: int| 0 <= i < n.credentials.len() implies #[trigger] n.credential_listed(i) by {
                if i == ci {
                    assert(n.lists(l, i));
                } else {
                    assert(m.credential_listed(i));
                    let l2 = choose|l2: int| m.lists(l2, i);
                    if l2 == l && m.credentials[i].kind() == c.kind() {
                        assert(false);
                    }
                    assert(n.lists(l2, i));
                }
            }
        },
        None => {
            let ln = m.lookups.len() as int;
            assert forall|l2: int| 0 <= l2 < m.lookups.len() implies m.lookups[l2].uid != c.uid() by {
            }
            assert forall|l2: int, k: CredentialKind| 0 <= l2 < n.lookups.len() implies #[trigger] n.slot_resolves(l2, k) by {
                if l2 == ln {
                    if k == c.kind() {
                        lemma_slot_witness(n, l2, k, ci);
                    }
                } else {
                    assert(m.slot_resolves(l2, k));
                    if let Some(cid) = m.lookups[l2].slot(k) {
                        let i = choose|i: int| m.points_to(i, k, cid, m.lookups[l2].uid);
                        lemma_slot_witness(n, l2, k, i);
                    }
                }
            }
            assert forall|i: int| 0 <= i < n.credentials.len() implies #[trigger] n.credential_listed(i) by {
                if i == ci {
                    assert(n.lists(ln, i));
                } else {
                    assert(m.credential_listed(i));
                    let l2 = choose|l2: int| m.lists(l2, i);
                    assert(n.lists(l2, i));
                }
            }
        },
    }
}

#[verifier::spinoff_prover]
proof fn lemma_deleted_wf(m: StoreModel, kind: CredentialKind, cid: u128, uid: u128)
    requires
        m.wf(),
        m.delete_error(kind, cid, uid) is None,
    ensures
        m.deleted(kind, cid).wf(),
{
    let i = m.credential_index(kind, cid)->0;
    assert(m.is_credential(i, kind, cid));
    let uid = m.credentials[i].uid();
    assert(m.lookup_index(uid) is Some);
    let l = m.lookup_index(uid)->0;
    assert(0 <= l < m.lookups.len() && m.lookups[l].uid == uid);
    assert(m.credential_listed(i));
    let lw = choose|lw: int| m.lists(lw, i);
    assert(lw == l);
    assert(m.lookups[l].slot(kind) == Some(cid));
    let n = m.deleted(kind, cid);
    m.credentials.remove_ensures(i);
    assert forall|a: int, b: int|
        0 <= a < n.credentials.len() && 0 <= b < n.credentials.len() && a != b
            implies n.credentials[a].cid() != n.credentials[b].cid()
            && n.credentials[a].natural_key() != n.credentials[b].natural_key() by {
        let a0 = if a < i { a } else { a + 1 };
        let b0 = if b < i { b } else { b + 1 };
        assert(n.credentials[a] == m.credentials[a0]);
        assert(n.credentials[b] == m.credentials[b0]);
    }
    assert forall|a: int| 0 <= a < n.credentials.len() implies n.users.contains(#[trigger] n.credentials[a].uid()) by {
        let a0 = if a < i { a } else { a + 1 };
        assert(n.credentials[a] == m.credentials[a0]);
    }
    assert forall|l2: int, k: CredentialKind| 0 <= l2 < n.lookups.len() implies #[trigger] n.slot_resolves(l2, k) by {
        if l2 == l && k == kind {
        } else {
            assert(m.slot_resolves(l2, k));
            assert(n.lookups[l2].slot(k) == m.lookups[l2].slot(k));
            assert(n.lookups[l2].uid == m.lookups[l2].uid);
            if let Some(cid2) = m.lookups[l2].slot(k) {
                let j = choose|j: int| m.points_to(j, k, cid2, m.lookups[l2].uid);
                if j == i {
                    assert(m.lookups[l2].uid == uid);
                    assert(l2 == l);
                    assert(false);
                }
                let j1 = if j < i { j } else { j - 1 };
                assert(n.credentials[j1] == m.credentials[j]);
                lemma_slot_witness(n, l2, k, j1);
            }
        }
    }
    assert forall|a: int| 0 <= a < n.credentials.len() implies #[trigger] n.credential_listed(a) by {
        let a0 = if a < i { a } else { a + 1 };
        assert(n.credentials[a] == m.credentials[a0]);
        assert(m.credential_listed(a0));
        let l2 = choose|l2: int| m.lists(l2, a0);
        if l2 == l && m.credentials[a0].kind() == kind {
            assert(m.credentials[a0].cid() == cid);
            assert(false);
        }
        assert(n.lists(l2, a));
    }
}

proof fn lemma_replaced_wf(m: StoreModel, i: int, c: Credential)
    requires
        m.wf(),
        0 <= i < m.credentials.len(),
        c.kind() == m.credentials[i].kind(),
        c.cid() == m.credentials[i].cid(),
        c.uid() == m.credentials[i].uid(),
        c.natural_key() == m.credentials[i].natural_key(),
    ensures
        m.replaced(i, c).wf(),
{
    let n = m.replaced(i, c);
    assert forall|l: int, k: CredentialKind| 0 <= l < n.lookups.len() implies #[trigger] n.slot_resolves(l, k) by {
        assert(m.slot_resolves(l, k));
        if let Some(cid) = m.lookups[l].slot(k) {
            let j = choose|j: int| m.points_to(j, k, cid, m.lookups[l].uid);
            lemma_slot_witness(n, l, k, j);
        }
    }
    assert forall|a: int| 0 <= a < n.credentials.len() implies #[trigger] n.credential_listed(a) by {
        assert(m.credential_listed(a));
        let l = choose|l: int| m.lists(l, a);
        assert(n.lists(l, a));
    }
}

proof fn lemma_user_added_wf(m: StoreModel, uid: u128)
    requires
        m.wf(),
        !m.has_user(uid),
    ensures
        (StoreModel { users: m.users.push(uid), ..m }).wf(),
{
    let n = StoreModel { users: m.users.push(uid), ..m };
    assert forall|i: int| 0 <= i < n.lookups.len() implies n.users.contains(#[trigger] n.lookups[i].uid) by {
        assert(m.users.contains(m.lookups[i].uid));
        let j = choose|j: int| 0 <= j < m.users.len() && m.users[j] == m.lookups[i].uid;
        assert(n.users[j] == m.lookups[i].uid);
    }
    assert forall|i: int| 0 <= i < n.credentials.len() implies n.users.contains(#[trigger] n.credentials[i].uid()) by {
        assert(m.users.contains(m.credentials[i].uid()));
        let j = choose|j: int| 0 <= j < m.users.len() && m.users[j] == m.credentials[i].uid();
        assert(n.users[j] == m.credentials[i].uid());
    }
    assert forall|l: int, k: CredentialKind| 0 <= l < n.lookups.len() implies #[trigger] n.slot_resolves(l, k) by {
        assert(m.slot_resolves(l, k));
        if let Some(cid) = m.lookups[l].slot(k) {
            let j = choose|j: int| m.points_to(j, k, cid, m.lookups[l].uid);
            lemma_slot_witness(n, l, k, j);
        }
    }
    assert forall|a: int| 0 <= a < n.credentials.len() implies #[trigger] n.credential_listed(a) by {
        assert(m.credential_listed(a));
        let l = choose|l: int| m.lists(l, a);
        assert(n.lists(l, a));
    }
}

/// Under the invariant a user holds at most one credential of each kind.
proof fn lemma_owned_unique(m: StoreModel, a: int, b: int, kind: CredentialKind, uid: u128)
    requires
        m.wf(),
        m.owned(a, kind, uid),
        m.owned(b, kind, uid),
    ensures
        a == b,
{
    assert(m.credential_listed(a));
    assert(m.credential_listed(b));
    let la = choose|l: int| m.lists(l, a);
    let lb = choose|l: int| m.lists(l, b);
    assert(la == lb);
}

/// The associate transaction commits a well-formed store.
pub proof fn lemma_associate_wf(m: StoreModel, c: Credential)
    requires
        m.wf(),
    ensures
        m.associate(c).0.wf(),
{
    if m.associate_error(c) is None {
        lemma_associated_wf(m, c);
    }
}

/// The delete transaction commits a well-formed store.
pub proof fn lemma_delete_wf(m: StoreModel, kind: CredentialKind, cid: u128, uid: u128)
    requires
        m.wf(),
    ensures
        m.delete(kind, cid, uid).0.wf(),
{
    if m.delete_error(kind, cid, uid) is None {
        lemma_deleted_wf(m, kind, cid, uid);
    }
}

/// The user creation transaction commits a well-formed store.
pub proof fn lemma_create_user_wf(m: StoreModel, uid: u128, c: Credential)
    requires
        m.wf(),
    ensures
        m.create_user(uid, c).0.wf(),
{
    if !m.has_user(uid) {
        lemma_user_added_wf(m, uid);
        lemma_associate_wf(StoreModel { users: m.users.push(uid), ..m }, c);
    }
}

/// The authentication transaction commits a well-formed store.
pub proof fn lemma_authenticate_wf(m: StoreModel, p: PartialCredential, now: i64)
    requires
        m.wf(),
    ensures
        m.authenticate(p, now).0.wf(),
{
    if let Ok(i) = m.authenticate_check(p) {
        assert(has_key_at(m.credentials, i, p.natural_key()));
        lemma_replaced_wf(m, i, m.credentials[i].authenticated_at(now));
    }
}

/// The flag transactions commit well-formed stores.
pub proof fn lemma_set_flags_wf(m: StoreModel, kind: CredentialKind, cid: u128, flag: bool, now: i64)
    requires
        m.wf(),
    ensures
        m.set_disabled(kind, cid, flag, now).0.wf(),
        m.set_verified(kind, cid, flag, now).0.wf(),
{
    if let Some(i) = m.credential_index(kind, cid) {
        assert(m.is_credential(i, kind, cid));
        lemma_replaced_wf(m, i, m.credentials[i].disabled_set(flag, now));
        lemma_replaced_wf(m, i, m.credentials[i].verified_set(flag, now));
    }
}

} // verus!
