use vstd::prelude::*;

verus! {

/// The errors of the credential and user operations.
#[derive(Debug, Clone, Copy, PartialEq, Eq, Structural)]
pub enum AuthError {
    /// Malformed input.
    Invalid,
    /// A natural key, an identifier or a provider account is already taken.
    Exists,
    /// No such user or credential, or a secret that does not match.
    NotFound,
    /// The password-hash capability failed.
    Hash,
    /// The credential is disabled.
    CredentialDisabled,
    /// Deleting the credential would leave its owner with none.
    CredentialCannotDelete,
    /// A credential of this kind is already linked to the user.
    CredentialAssociated,
    /// The credential belongs to another user.
    CredentialIncorrect,
    /// The request carries an identity where none is allowed.
    UserAuthenticated,
    /// The request carries no usable identity where one is required.
    UserNotAuthenticated,
}

/// The message shown for each error.  Missing accounts and wrong secrets
/// share one message.
pub open spec fn auth_message(e: AuthError) -> Seq<char> {
    match e {
        AuthError::Invalid => "The request is invalid!"@,
        AuthError::Exists => "The resource already exists!"@,
        AuthError::NotFound => "The resource couldn't be found or doesn't exist!"@,
        AuthError::Hash => "Failed to verify password!"@,
        AuthError::CredentialDisabled => "The credential is disabled!"@,
        AuthError::CredentialCannotDelete => "Cannot delete the only associated credential!"@,
        AuthError::CredentialAssociated => "The authentication method is already associated!"@,
        AuthError::CredentialIncorrect => "The credentials are incorrect!"@,
        AuthError::UserAuthenticated => "The user is already authenticated!"@,
        AuthError::UserNotAuthenticated => "The user is not authenticated!"@,
    }
}

impl AuthError {
    /// The message shown for this error.
    pub fn message(&self) -> (r: &'static str)
        ensures
            r@ == auth_message(*self),
    {
        match self {
            AuthError::Invalid => "The request is invalid!",
            AuthError::Exists => "The resource already exists!",
            AuthError::NotFound => "The resource couldn't be found or doesn't exist!",
            AuthError::Hash => "Failed to verify password!",
            AuthError::CredentialDisabled => "The credential is disabled!",
            AuthError::CredentialCannotDelete => "Cannot delete the only associated credential!",
            AuthError::CredentialAssociated => "The authentication method is already associated!",
            AuthError::CredentialIncorrect => "The credentials are incorrect!",
            AuthError::UserAuthenticated => "The user is already authenticated!",
            AuthError::UserNotAuthenticated => "The user is not authenticated!",
        }
    }
}

pub type AuthResult<T> = Result<T, AuthError>;

} // verus!
