//! Properties that hold of every well-formed store and of every sequence of
//! committed transactions.
use vstd::prelude::*;
use crate::credential::{Credential, CredentialKind, PartialCredential};
use crate::error::AuthError;
use crate::user::{owner_of, User};
use crate::store::{
    lemma_associate_wf, lemma_authenticate_wf, lemma_create_user_wf, lemma_delete_wf,
    lemma_set_flags_wf, has_key_at, secret_verdict, StoreModel,
};

verus! {

/// In a well-formed store, the ledger row that names `uid` is the one found
/// for `uid`.
pub proof fn lemma_lookup_at(m: StoreModel, l: int, uid: u128)
    requires
        m.wf(),
        0 <= l < m.lookups.len(),
        m.lookups[l].uid == uid,
    ensures
        m.lookup_index(uid) == Some(l),
        m.lookup_of(uid) == Some(m.lookups[l]),
{
    assert(m.has_lookup(uid));
    let w = choose|i: int| 0 <= i < m.lookups.len() && m.lookups[i].uid == uid;
    assert(w == l);
}

/// In a well-formed store, the credential of `kind` with id `cid` standing
/// at `i` is the one found for them.
pub proof fn lemma_credential_at(m: StoreModel, i: int, kind: CredentialKind, cid: u128)
    requires
        m.wf(),
        m.is_credential(i, kind, cid),
    ensures
        m.credential_index(kind, cid) == Some(i),
{
    let w = choose|j: int| m.is_credential(j, kind, cid);
    assert(m.credentials[w].cid() == m.credentials[i].cid());
    assert(w == i);
}

/// No orphan slot: in a well-formed store every occupied slot of a user's
/// ledger row names an existing credential of that kind owned by that user.
pub proof fn lemma_no_orphan_slot(m: StoreModel, uid: u128, kind: CredentialKind)
    requires
        m.wf(),
    ensures
        m.slot_of(uid, kind) matches Some(cid) ==> exists|i: int| m.points_to(i, kind, cid, uid),
{
    if let Some(l) = m.lookup_index(uid) {
        assert(0 <= l < m.lookups.len() && m.lookups[l].uid == uid);
        assert(m.slot_resolves(l, kind));
    }
}

/// The associate, delete, user creation, authentication and flag
/// transactions all commit well-formed stores, so well-formedness (and with
/// it the absence of orphan slots) holds after any sequence of them.
pub proof fn lemma_transactions_preserve_wf(
    m: StoreModel,
    c: Credential,
    uid: u128,
    kind: CredentialKind,
    cid: u128,
    p: PartialCredential,
    flag: bool,
    now: i64,
)
    requires
        m.wf(),
    ensures
        m.associate(c).0.wf(),
        m.delete(kind, cid, uid).0.wf(),
        m.create_user(uid, c).0.wf(),
        m.authenticate(p, now).0.wf(),
        m.set_disabled(kind, cid, flag, now).0.wf(),
        m.set_verified(kind, cid, flag, now).0.wf(),
{
    lemma_associate_wf(m, c);
    lemma_delete_wf(m, kind, cid, uid);
    lemma_create_user_wf(m, uid, c);
    lemma_authenticate_wf(m, p, now);
    lemma_set_flags_wf(m, kind, cid, flag, now);
}

/// No stranded user: deleting any credential on behalf of a user with fewer
/// than two kinds populated fails with `CredentialCannotDelete` and changes
/// nothing; a delete that succeeds leaves the owner one populated kind
/// fewer, so at least one.
pub proof fn lemma_no_stranded_user(m: StoreModel, kind: CredentialKind, cid: u128, uid: u128)
    requires
        m.wf(),
    ensures
        m.slot_count_of(uid) < 2 ==> m.delete(kind, cid, uid) == (m, Err::<(), AuthError>(AuthError::CredentialCannotDelete)),
        m.delete(kind, cid, uid).1 is Ok ==> m.delete(kind, cid, uid).0.slot_count_of(uid) == m.slot_count_of(uid) - 1
            && m.delete(kind, cid, uid).0.slot_count_of(uid) >= 1,
{
    if m.delete(kind, cid, uid).1 is Ok {
        let i = m.credential_index(kind, cid)->0;
        assert(m.is_credential(i, kind, cid));
        assert(m.credentials[i].uid() == uid);
        assert(m.credential_listed(i));
        let l = choose|l: int| m.lists(l, i);
        lemma_lookup_at(m, l, uid);
        assert(m.lookups[l].slot(kind) == Some(cid));
        let n = m.delete(kind, cid, uid).0;
        lemma_delete_wf(m, kind, cid, uid);
        assert(n.lookups[l].uid == uid);
        lemma_lookup_at(n, l, uid);
    }
}

/// In a well-formed store, the credential with natural key `key` standing at
/// `i` is the one found for it.
pub proof fn lemma_key_at(m: StoreModel, i: int, key: (CredentialKind, Seq<char>, i32))
    requires
        m.wf(),
        m.has_key(i, key),
    ensures
        m.key_index(key) == Some(i),
{
    assert(has_key_at(m.credentials, i, key));
    let w = choose|j: int| has_key_at(m.credentials, j, key);
    assert(m.credentials[w].natural_key() == m.credentials[i].natural_key());
    assert(w == i);
}

/// Setting the disabled flag twice in a row gives the same store and the
/// same result as setting it once, whatever the two times.
pub proof fn lemma_set_disabled_idempotent(m: StoreModel, kind: CredentialKind, cid: u128, flag: bool, t1: i64, t2: i64)
    requires
        m.wf(),
    ensures
        m.set_disabled(kind, cid, flag, t1).0.set_disabled(kind, cid, flag, t2) == m.set_disabled(kind, cid, flag, t1),
{
    if let Some(i) = m.credential_index(kind, cid) {
        assert(m.is_credential(i, kind, cid));
        let c = m.credentials[i].disabled_set(flag, t1);
        let n = m.set_disabled(kind, cid, flag, t1).0;
        lemma_set_flags_wf(m, kind, cid, flag, t1);
        assert(n.is_credential(i, kind, cid));
        lemma_credential_at(n, i, kind, cid);
        assert(c.disabled_set(flag, t2) == c);
        assert(n.credentials.update(i, c) =~= n.credentials);
    }
}

/// A disabled credential never authenticates: whatever the secret, the
/// attempt fails and changes nothing; with the right secret it fails with
/// `CredentialDisabled`.
pub proof fn lemma_disabled_never_authenticates(m: StoreModel, p: PartialCredential, now: i64)
    requires
        m.wf(),
        m.key_index(p.natural_key()) is Some,
        m.credentials[m.key_index(p.natural_key())->0].is_disabled(),
    ensures
        m.authenticate(p, now).1 is Err,
        m.authenticate(p, now).0 == m,
        secret_verdict(p, m.credentials[m.key_index(p.natural_key())->0]) == Some(true)
            ==> m.authenticate(p, now).1 == Err::<Credential, AuthError>(AuthError::CredentialDisabled),
{
}

/// Once a credential is disabled, no partial credential with its natural key
/// authenticates.
pub proof fn lemma_disable_blocks_authentication(
    m: StoreModel,
    kind: CredentialKind,
    cid: u128,
    t: i64,
    p: PartialCredential,
    now: i64,
)
    requires
        m.wf(),
        m.credential_index(kind, cid) is Some,
        p.natural_key() == m.credentials[m.credential_index(kind, cid)->0].natural_key(),
    ensures
        m.set_disabled(kind, cid, true, t).0.authenticate(p, now).1 is Err,
{
    let i = m.credential_index(kind, cid)->0;
    assert(m.is_credential(i, kind, cid));
    let n = m.set_disabled(kind, cid, true, t).0;
    lemma_set_flags_wf(m, kind, cid, true, t);
    assert(n.has_key(i, p.natural_key()));
    lemma_key_at(n, i, p.natural_key());
    lemma_disabled_never_authenticates(n, p, now);
}

/// Exclusivity: associating a credential of a kind already linked to its
/// owner fails with `CredentialAssociated` and changes nothing.
pub proof fn lemma_exclusive_kind(m: StoreModel, c: Credential)
    requires
        m.wf(),
        m.has_user(c.uid()),
        m.slot_of(c.uid(), c.kind()) is Some,
    ensures
        m.associate(c) == (m, Err::<(), AuthError>(AuthError::CredentialAssociated)),
{
}

/// Associating a credential of a kind not yet linked to an existing user,
/// with a fresh id and natural key, succeeds; it links the new credential
/// and leaves the user's other slots untouched.
pub proof fn lemma_associate_other_kind(m: StoreModel, c: Credential, other: CredentialKind)
    requires
        m.wf(),
        m.has_user(c.uid()),
        m.slot_of(c.uid(), c.kind()) is None,
        !m.cid_taken(c.cid()),
        m.key_index(c.natural_key()) is None,
        other != c.kind(),
    ensures
        m.associate(c).1 is Ok,
        m.associate(c).0.slot_of(c.uid(), c.kind()) == Some(c.cid()),
        m.associate(c).0.slot_of(c.uid(), other) == m.slot_of(c.uid(), other),
{
    let n = m.associate(c).0;
    lemma_associate_wf(m, c);
    match m.lookup_index(c.uid()) {
        Some(l) => {
            assert(0 <= l < m.lookups.len() && m.lookups[l].uid == c.uid());
            assert(n.lookups[l].uid == c.uid());
            lemma_lookup_at(n, l, c.uid());
        },
        None => {
            let l = m.lookups.len() as int;
            assert(n.lookups[l].uid == c.uid());
            lemma_lookup_at(n, l, c.uid());
        },
    }
}

/// Two deletes of a user's last two credentials, run one after the other in
/// either order (as serializable transactions run): the first succeeds and
/// the second fails with `CredentialCannotDelete`.
pub proof fn lemma_delete_race(m: StoreModel, uid: u128, k1: CredentialKind, cid1: u128, k2: CredentialKind, cid2: u128)
    requires
        m.wf(),
        m.credential_index(k1, cid1) is Some,
        m.credential_index(k2, cid2) is Some,
        m.credentials[m.credential_index(k1, cid1)->0].uid() == uid,
        m.credentials[m.credential_index(k2, cid2)->0].uid() == uid,
        m.slot_count_of(uid) == 2,
    ensures
        m.delete(k1, cid1, uid).1 is Ok,
        m.delete(k1, cid1, uid).0.delete(k2, cid2, uid).1 == Err::<(), AuthError>(AuthError::CredentialCannotDelete),
        m.delete(k2, cid2, uid).1 is Ok,
        m.delete(k2, cid2, uid).0.delete(k1, cid1, uid).1 == Err::<(), AuthError>(AuthError::CredentialCannotDelete),
{
    lemma_second_delete_refused(m, uid, k1, cid1, k2, cid2);
    lemma_second_delete_refused(m, uid, k2, cid2, k1, cid1);
}

proof fn lemma_second_delete_refused(m: StoreModel, uid: u128, k1: CredentialKind, cid1: u128, k2: CredentialKind, cid2: u128)
    requires
        m.wf(),
        m.credential_index(k1, cid1) is Some,
        m.credentials[m.credential_index(k1, cid1)->0].uid() == uid,
        m.slot_count_of(uid) == 2,
    ensures
        m.delete(k1, cid1, uid).1 is Ok,
        m.delete(k1, cid1, uid).0.delete(k2, cid2, uid).1 == Err::<(), AuthError>(AuthError::CredentialCannotDelete),
{
    lemma_no_stranded_user(m, k1, cid1, uid);
    let n = m.delete(k1, cid1, uid).0;
    lemma_delete_wf(m, k1, cid1, uid);
    lemma_no_stranded_user(n, k2, cid2, uid);
}

/// Registering and then logging in: a user created with a credential whose
/// stored secret matches the submitted one authenticates with that same
/// partial credential, at any later time, as that user.
pub proof fn lemma_register_then_authenticate(
    m: StoreModel,
    uid: u128,
    p: PartialCredential,
    cid: u128,
    hash: String,
    now: i64,
    later: i64,
)
    requires
        m.wf(),
        m.create_user(uid, p.build(uid, cid, hash, now)).1 is Ok,
        secret_verdict(p, p.build(uid, cid, hash, now)) == Some(true),
    ensures
        owner_of(m.create_user(uid, p.build(uid, cid, hash, now)).0.authenticate(p, later).1)
            == Ok::<User, AuthError>(User { uid }),
{
    let c = p.build(uid, cid, hash, now);
    let n = m.create_user(uid, c).0;
    lemma_create_user_wf(m, uid, c);
    let i = m.credentials.len() as int;
    assert(n.credentials[i] == c);
    assert(c.natural_key() == p.natural_key());
    assert(n.has_key(i, p.natural_key()));
    lemma_key_at(n, i, p.natural_key());
}

} // verus!
