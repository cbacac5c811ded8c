//! The request guard states: whether an operation refuses, allows or
//! requires an identity, and the user that the session identity resolves to.
use vstd::prelude::*;
use crate::error::{AuthError, AuthResult};
use crate::platform::{parse_uuid, uuid_parse};
use crate::store::{Store, StoreModel};
use crate::user::User;

verus! {

/// Reads the session identity of each request and hands it to the guards.
pub struct AuthenticationMiddleware {}

impl AuthenticationMiddleware {
    pub fn new() -> (r: Self) {
        AuthenticationMiddleware {}
    }
}

/// What an operation asks of the caller's identity.
#[derive(Debug, Clone, Copy, PartialEq, Eq, Structural)]
pub enum GuardState {
    /// No identity may be presented (registration and login).
    Denied,
    /// An identity may be presented or not.
    Allowed,
    /// An identity must be presented and name an existing user; otherwise
    /// the caller is refused as not authenticated.
    Required,
}

/// The user id that a session identity names: `None` when it is absent or
/// not a well-formed identifier.
pub open spec fn identity_uid(identity: Option<&str>) -> Option<u128> {
    match identity {
        None => None,
        Some(s) => uuid_parse(s@),
    }
}

/// The user that `uid` resolves to, if it names one.
pub open spec fn resolved_user(m: StoreModel, uid: Option<u128>) -> Option<User> {
    match uid {
        Some(u) => if m.has_user(u) {
            Some(User { uid: u })
        } else {
            None
        },
        None => None,
    }
}

/// What a guard state derives from whether an identity is present and the
/// user id it names.
pub open spec fn guard_outcome(state: GuardState, m: StoreModel, present: bool, uid: Option<u128>) -> AuthResult<Option<User>> {
    match state {
        GuardState::Denied => if present {
            Err(AuthError::UserAuthenticated)
        } else {
            Ok(None)
        },
        GuardState::Allowed => Ok(resolved_user(m, uid)),
        GuardState::Required => match uid {
            None => Err(AuthError::UserNotAuthenticated),
            Some(u) => if m.has_user(u) {
                Ok(Some(User { uid: u }))
            } else {
                Err(AuthError::UserNotAuthenticated)
            },
        },
    }
}

impl GuardState {
    /// Derives the caller's user from whether an identity is present and the
    /// user id it names.
    pub fn derive_user(&self, store: &Store, present: bool, uid: Option<u128>) -> (r: AuthResult<Option<User>>)
        ensures
            r == guard_outcome(*self, store@, present, uid),
    {
        match self {
            GuardState::Denied => if present {
                Err(AuthError::UserAuthenticated)
            } else {
                Ok(None)
            },
            GuardState::Allowed => Ok(AllowAuthenticated::from_uid(store, uid).0),
            GuardState::Required => match RequireAuthenticated::from_uid(store, uid) {
                Ok(user) => Ok(Some(user.0)),
                Err(e) => Err(e),
            },
        }
    }

    /// Derives the caller's user from the session identity.
    pub fn resolve(&self, store: &Store, identity: Option<&str>) -> (r: AuthResult<Option<User>>)
        ensures
            r == guard_outcome(*self, store@, identity is Some, identity_uid(identity)),
    {
        let uid = identity_to_uid(identity);
        self.derive_user(store, identity.is_some(), uid)
    }
}

fn identity_to_uid(identity: Option<&str>) -> (r: Option<u128>)
    ensures
        r == identity_uid(identity),
{
    match identity {
        None => None,
        Some(s) => parse_uuid(s),
    }
}

/// A caller that presented no identity.
#[derive(Debug)]
pub struct DenyAuthenticated {}

impl DenyAuthenticated {
    pub fn new(identity: Option<&str>) -> (r: AuthResult<DenyAuthenticated>)
        ensures
            r is Ok <==> identity is None,
            r is Err ==> r == Err::<DenyAuthenticated, AuthError>(AuthError::UserAuthenticated),
    {
        match identity {
            None => Ok(DenyAuthenticated {}),
            Some(_) => Err(AuthError::UserAuthenticated),
        }
    }
}

/// A caller that may or may not be logged in.
#[derive(Debug)]
pub struct AllowAuthenticated(pub Option<User>);

impl AllowAuthenticated {
    /// The caller whose identity names `uid`; anonymous when it names no user.
    pub fn from_uid(store: &Store, uid: Option<u128>) -> (r: AllowAuthenticated)
        ensures
            r.0 == resolved_user(store@, uid),
    {
        match uid {
            Some(u) => if store.has_user(u) {
                AllowAuthenticated(Some(User { uid: u }))
            } else {
                AllowAuthenticated(None)
            },
            None => AllowAuthenticated(None),
        }
    }

    pub fn new(store: &Store, identity: Option<&str>) -> (r: AllowAuthenticated)
        ensures
            r.0 == resolved_user(store@, identity_uid(identity)),
    {
        AllowAuthenticated::from_uid(store, identity_to_uid(identity))
    }

    pub fn user(&self) -> (r: Option<User>)
        ensures
            r == self.0,
    {
        self.0
    }
}

/// A caller that is logged in as an existing user.
#[derive(Debug)]
pub struct RequireAuthenticated(pub User);

impl RequireAuthenticated {
    /// The caller whose identity names `uid`: refused when there is none, or
    /// when it names no user.
    pub fn from_uid(store: &Store, uid: Option<u128>) -> (r: AuthResult<RequireAuthenticated>)
        ensures
            match r {
                Ok(a) => guard_outcome(GuardState::Required, store@, true, uid) == Ok::<Option<User>, AuthError>(Some(a.0)),
                Err(e) => guard_outcome(GuardState::Required, store@, true, uid) == Err::<Option<User>, AuthError>(e),
            },
    {
        match uid {
            None => Err(AuthError::UserNotAuthenticated),
            Some(u) => if store.has_user(u) {
                Ok(RequireAuthenticated(User { uid: u }))
            } else {
                Err(AuthError::UserNotAuthenticated)
            },
        }
    }

    pub fn new(store: &Store, identity: Option<&str>) -> (r: AuthResult<RequireAuthenticated>)
        ensures
            match r {
                Ok(a) => guard_outcome(GuardState::Required, store@, true, identity_uid(identity))
                    == Ok::<Option<User>, AuthError>(Some(a.0)),
                Err(e) => guard_outcome(GuardState::Required, store@, true, identity_uid(identity))
                    == Err::<Option<User>, AuthError>(e),
            },
    {
        RequireAuthenticated::from_uid(store, identity_to_uid(identity))
    }

    pub fn user(&self) -> (r: User)
        ensures
            r == self.0,
    {
        self.0
    }
}

} // verus!
