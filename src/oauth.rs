//! The request flows over a partial credential, and the OAuth callback
//! protocol that reconciles a provider account with a local user.
use vstd::prelude::*;
use crate::credential::{Credential, PartialCredential, PartialGithubOauth};
use crate::error::{AuthError, AuthResult};
use crate::guard::{AllowAuthenticated, GuardState};
use crate::platform::{new_uuid, now_micros};
use crate::store::{Store, StoreModel};
use crate::user::{with_value, User};

verus! {

/// The outcome of removing the credential that partial credential `p`
/// proves, on behalf of user `current`: the credential must authenticate and
/// belong to `current`, and is then deleted.  Every failure leaves the store
/// as it was.
pub open spec fn remove_outcome(m: StoreModel, current: u128, p: PartialCredential) -> (StoreModel, AuthResult<()>) {
    match m.authenticate_check(p) {
        Err(e) => (m, Err(e)),
        Ok(i) => if m.credentials[i].uid() != current {
            (m, Err(AuthError::CredentialIncorrect))
        } else {
            m.delete(m.credentials[i].kind(), m.credentials[i].cid(), current)
        },
    }
}

/// Removes the credential that `p` proves, on behalf of `current`, in one
/// transaction.
pub fn remove_credential(store: &mut Store, current: &User, p: &PartialCredential) -> (r: AuthResult<()>)
    requires
        old(store)@.wf(),
    ensures
        (final(store)@, r) == remove_outcome(old(store)@, current.uid, *p),
        final(store)@.wf(),
{
    let i = match store.authenticate_check(p) {
        Ok(i) => i,
        Err(e) => return Err(e),
    };
    let c = store.credential_at(i);
    if c.get_uid() != current.uid {
        return Err(AuthError::CredentialIncorrect);
    }
    store.delete_credential(c.get_kind(), c.get_cid(), current.uid)
}

/// The four actions of the OAuth callback.  `Authenticate` creates a user on
/// first contact and `Register` needs an existing link: the provider has
/// already proved the identity.
#[derive(Debug, Clone, Copy, PartialEq, Eq, Structural)]
pub enum OauthCallbackAction {
    Authenticate,
    Register,
    Associate,
    Remove,
}

/// The action with lower-case name `s`.
pub open spec fn action_named(s: Seq<char>) -> Option<OauthCallbackAction> {
    if s == "authenticate"@ {
        Some(OauthCallbackAction::Authenticate)
    } else if s == "register"@ {
        Some(OauthCallbackAction::Register)
    } else if s == "associate"@ {
        Some(OauthCallbackAction::Associate)
    } else if s == "remove"@ {
        Some(OauthCallbackAction::Remove)
    } else {
        None
    }
}

impl OauthCallbackAction {
    /// Whether the action needs a logged-in caller.
    pub fn requires_authentication(&self) -> (r: bool)
        ensures
            r == (*self is Associate || *self is Remove),
    {
        match self {
            OauthCallbackAction::Associate | OauthCallbackAction::Remove => true,
            _ => false,
        }
    }

    /// The guard state of the action.
    pub fn guard_state(&self) -> (r: GuardState)
        ensures
            r == if *self is Associate || *self is Remove {
                GuardState::Required
            } else {
                GuardState::Denied
            },
    {
        if self.requires_authentication() {
            GuardState::Required
        } else {
            GuardState::Denied
        }
    }

    /// The action's lower-case name.
    pub fn name(&self) -> (r: &'static str)
        ensures
            action_named(r@) == Some(*self),
    {
        proof {
            reveal_strlit("authenticate");
            reveal_strlit("register");
            reveal_strlit("associate");
            reveal_strlit("remove");
            assert("authenticate"@.len() == 12);
            assert("register"@.len() == 8);
            assert("associate"@.len() == 9);
            assert("remove"@.len() == 6);
            assert("register"@ != "authenticate"@);
            assert("associate"@ != "authenticate"@);
            assert("associate"@ != "register"@);
            assert("remove"@ != "authenticate"@);
            assert("remove"@ != "register"@);
            assert("remove"@ != "associate"@);
        }
        match self {
            OauthCallbackAction::Authenticate => "authenticate",
            OauthCallbackAction::Register => "register",
            OauthCallbackAction::Associate => "associate",
            OauthCallbackAction::Remove => "remove",
        }
    }

    /// The action named `s`, if any.
    pub fn from_name(s: &str) -> (r: Option<OauthCallbackAction>)
        ensures
            r == action_named(s@),
    {
        let owned = s.to_owned();
        if owned == "authenticate".to_owned() {
            Some(OauthCallbackAction::Authenticate)
        } else if owned == "register".to_owned() {
            Some(OauthCallbackAction::Register)
        } else if owned == "associate".to_owned() {
            Some(OauthCallbackAction::Associate)
        } else if owned == "remove".to_owned() {
            Some(OauthCallbackAction::Remove)
        } else {
            None
        }
    }
}

/// What the callback asks of the caller before anything else happens: an
/// action that needs a logged-in caller refuses an anonymous one, the others
/// refuse a logged-in one.
pub open spec fn callback_precondition(action: OauthCallbackAction, current: Option<User>) -> AuthResult<()> {
    if action is Associate || action is Remove {
        if current is None {
            Err(AuthError::UserNotAuthenticated)
        } else {
            Ok(())
        }
    } else if current is Some {
        Err(AuthError::UserAuthenticated)
    } else {
        Ok(())
    }
}

/// The owner of an authenticated credential, as the callback reports it.
pub open spec fn some_owner(r: AuthResult<Credential>) -> AuthResult<Option<User>> {
    match r {
        Ok(c) => Ok(Some(User { uid: c.uid() })),
        Err(e) => Err(e),
    }
}

/// The outcome of the callback for the GitHub account `p`, once its code has
/// been exchanged, with the ids, hash and time that new rows take.
pub open spec fn callback_outcome(
    m: StoreModel,
    action: OauthCallbackAction,
    current: Option<User>,
    p: PartialGithubOauth,
    uid: u128,
    cid: u128,
    hash: String,
    now: i64,
) -> (StoreModel, AuthResult<Option<User>>) {
    let q = p.as_partial();
    match callback_precondition(action, current) {
        Err(e) => (m, Err(e)),
        Ok(()) => match action {
            OauthCallbackAction::Authenticate => (
                m.create_user(uid, q.build(uid, cid, hash, now)).0,
                with_value(m.create_user(uid, q.build(uid, cid, hash, now)).1, Some(User { uid })),
            ),
            OauthCallbackAction::Register => (m.authenticate(q, now).0, some_owner(m.authenticate(q, now).1)),
            OauthCallbackAction::Associate => (
                m.associate(q.build(current->0.uid, cid, hash, now)).0,
                with_value(m.associate(q.build(current->0.uid, cid, hash, now)).1, None),
            ),
            OauthCallbackAction::Remove => (
                remove_outcome(m, current->0.uid, q).0,
                with_value(remove_outcome(m, current->0.uid, q).1, None),
            ),
        },
    }
}

/// Checks the callback's precondition; this comes before the provider code
/// is exchanged.
pub fn check_callback(action: OauthCallbackAction, current: &AllowAuthenticated) -> (r: AuthResult<()>)
    ensures
        r == callback_precondition(action, current.0),
{
    if action.requires_authentication() {
        if current.0.is_none() {
            return Err(AuthError::UserNotAuthenticated);
        }
    } else if current.0.is_some() {
        return Err(AuthError::UserAuthenticated);
    }
    Ok(())
}

/// Runs the callback for the GitHub account `partial` with the given ids,
/// hash and time.  Returns the user to log in, if any.
pub fn oauth_callback_with(
    store: &mut Store,
    action: OauthCallbackAction,
    current: &AllowAuthenticated,
    partial: &PartialGithubOauth,
    uid: u128,
    cid: u128,
    hash: String,
    now: i64,
) -> (r: AuthResult<Option<User>>)
    requires
        old(store)@.wf(),
    ensures
        (final(store)@, r) == callback_outcome(old(store)@, action, current.0, *partial, uid, cid, hash, now),
        final(store)@.wf(),
{
    match check_callback(action, current) {
        Err(e) => return Err(e),
        Ok(()) => {},
    }
    let q = partial.to_partial();
    match action {
        OauthCallbackAction::Authenticate => match User::new_with(store, &q, uid, cid, hash, now) {
            Ok(u) => Ok(Some(u)),
            Err(e) => Err(e),
        },
        OauthCallbackAction::Register => match store.authenticate_at(&q, now) {
            Ok(c) => Ok(Some(User { uid: c.get_uid() })),
            Err(e) => Err(e),
        },
        OauthCallbackAction::Associate => {
            let user = current.user().unwrap();
            match q.associate_with(store, user.uid, cid, hash, now) {
                Ok(_) => Ok(None),
                Err(e) => Err(e),
            }
        },
        OauthCallbackAction::Remove => {
            let user = current.user().unwrap();
            match remove_credential(store, &user, &q) {
                Ok(()) => Ok(None),
                Err(e) => Err(e),
            }
        },
    }
}

/// Runs the callback for the GitHub account `partial`, with fresh ids and
/// the current time.  A failed precondition returns before the store is
/// touched.
pub fn oauth_callback(
    store: &mut Store,
    action: OauthCallbackAction,
    current: &AllowAuthenticated,
    partial: &PartialGithubOauth,
) -> (r: AuthResult<Option<User>>)
    requires
        old(store)@.wf(),
    ensures
        final(store)@.wf(),
        callback_precondition(action, current.0) matches Err(e) ==> r == Err::<Option<User>, AuthError>(e)
            && final(store)@ == old(store)@,
        exists|uid: u128, cid: u128, hash: String, now: i64|
            (final(store)@, r) == #[trigger] callback_outcome(old(store)@, action, current.0, *partial, uid, cid, hash, now),
{
    match check_callback(action, current) {
        Err(e) => {
            proof {
                let w = callback_outcome(old(store)@, action, current.0, *partial, 0, 0, partial.username, 0);
            }
            return Err(e);
        },
        Ok(()) => {},
    }
    let uid = new_uuid();
    let cid = new_uuid();
    let now = now_micros();
    oauth_callback_with(store, action, current, partial, uid, cid, String::new(), now)
}

} // verus!
