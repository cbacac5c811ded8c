//! The errors as the transport layer reports them: a kind, a stable code and
//! an HTTP status.
use vstd::prelude::*;
use vstd::string::StringExecFns;
use crate::error::AuthError;

verus! {

/// The error kinds reported to clients.
#[derive(Debug)]
pub enum ApiErrorType {
    IncorrectCredential,
    IncorrectOauthCode,
    UserNotFound,
    UserDisabled,
    UserExists,
    UserAuthenticated,
    CredentialAssociated,
    CredentialCannotRemove,
    ResourceNotFound,
    Unknown(String),
}

/// The stable code of each reported error kind.
#[derive(Debug, Clone, Copy, PartialEq, Eq, Structural)]
pub enum ApiErrorCode {
    IncorrectCredential,
    IncorrectOauthCode,
    UserNotFound,
    UserDisabled,
    UserExists,
    UserAuthenticated,
    CredentialAssociated,
    CredentialCannotRemove,
    ResourceNotFound,
    Unknown,
}

pub open spec fn code_of(e: ApiErrorType) -> ApiErrorCode {
    match e {
        ApiErrorType::IncorrectCredential => ApiErrorCode::IncorrectCredential,
        ApiErrorType::IncorrectOauthCode => ApiErrorCode::IncorrectOauthCode,
        ApiErrorType::UserNotFound => ApiErrorCode::UserNotFound,
        ApiErrorType::UserDisabled => ApiErrorCode::UserDisabled,
        ApiErrorType::UserExists => ApiErrorCode::UserExists,
        ApiErrorType::UserAuthenticated => ApiErrorCode::UserAuthenticated,
        ApiErrorType::CredentialAssociated => ApiErrorCode::CredentialAssociated,
        ApiErrorType::CredentialCannotRemove => ApiErrorCode::CredentialCannotRemove,
        ApiErrorType::ResourceNotFound => ApiErrorCode::ResourceNotFound,
        ApiErrorType::Unknown(_) => ApiErrorCode::Unknown,
    }
}

/// The HTTP status of each reported error kind.
pub open spec fn status_of(e: ApiErrorType) -> u16 {
    match e {
        ApiErrorType::IncorrectCredential | ApiErrorType::IncorrectOauthCode => 401,
        ApiErrorType::UserNotFound | ApiErrorType::ResourceNotFound => 404,
        ApiErrorType::UserExists | ApiErrorType::CredentialAssociated | ApiErrorType::CredentialCannotRemove => 409,
        ApiErrorType::Unknown(_) => 500,
        ApiErrorType::UserDisabled | ApiErrorType::UserAuthenticated => 403,
    }
}

/// The code that each library error is reported under.  Missing accounts
/// and wrong secrets share `UserNotFound`; internal failures are opaque.
pub open spec fn reported_code(e: AuthError) -> ApiErrorCode {
    match e {
        AuthError::NotFound => ApiErrorCode::UserNotFound,
        AuthError::Exists => ApiErrorCode::UserExists,
        AuthError::CredentialDisabled => ApiErrorCode::UserDisabled,
        AuthError::CredentialCannotDelete => ApiErrorCode::CredentialCannotRemove,
        AuthError::CredentialAssociated => ApiErrorCode::CredentialAssociated,
        AuthError::CredentialIncorrect | AuthError::UserNotAuthenticated => ApiErrorCode::IncorrectCredential,
        AuthError::UserAuthenticated => ApiErrorCode::UserAuthenticated,
        AuthError::Invalid | AuthError::Hash => ApiErrorCode::Unknown,
    }
}

/// The message shown for each reported error kind.
pub open spec fn api_message(e: ApiErrorType) -> Seq<char> {
    match e {
        ApiErrorType::IncorrectCredential => "The credentials are incorrect!"@,
        ApiErrorType::IncorrectOauthCode => "Failed to connect to auth provider!"@,
        ApiErrorType::UserNotFound => "The user doesn't exist or couldn't be found!"@,
        ApiErrorType::UserDisabled => "The user is disabled!"@,
        ApiErrorType::UserExists => "The user is already registered!"@,
        ApiErrorType::UserAuthenticated => "The user is already authenticated!"@,
        ApiErrorType::CredentialAssociated => "The authentication method is already associated!"@,
        ApiErrorType::CredentialCannotRemove => "Cannot remove the only associated authentication method!"@,
        ApiErrorType::ResourceNotFound => "The resource couldn't be found or doesn't exist!"@,
        ApiErrorType::Unknown(m) => "An unknown error occurred: "@ + m@,
    }
}

/// The code of each reported error kind as clients see it.
pub open spec fn code_text(c: ApiErrorCode) -> Seq<char> {
    match c {
        ApiErrorCode::IncorrectCredential => "AUTH/INCORRECT_CREDENTIAL"@,
        ApiErrorCode::IncorrectOauthCode => "AUTH/INCORRECT_OAUTH_CODE"@,
        ApiErrorCode::UserNotFound => "AUTH/USER_NOT_FOUND"@,
        ApiErrorCode::UserDisabled => "AUTH/USER_DISABLED"@,
        ApiErrorCode::UserExists => "AUTH/USER_EXISTS"@,
        ApiErrorCode::UserAuthenticated => "AUTH/USER_AUTHENTICATED"@,
        ApiErrorCode::CredentialAssociated => "AUTH/CREDENTIAL_ASSOCIATED"@,
        ApiErrorCode::CredentialCannotRemove => "AUTH/CREDENTIAL_CANNOT_REMOVE"@,
        ApiErrorCode::ResourceNotFound => "AUTH/RESOURCE_NOUT_FOUND"@,
        ApiErrorCode::Unknown => "AUTH/UNKNOWN"@,
    }
}

impl ApiErrorType {
    /// The reported form of a library error.
    pub fn from_auth_error(e: AuthError) -> (r: ApiErrorType)
        ensures
            code_of(r) == reported_code(e),
            r matches ApiErrorType::Unknown(m) ==> m@ == (if e is Invalid {
                "The request is invalid!"@
            } else {
                "Something went wrong!"@
            }),
    {
        match e {
            AuthError::NotFound => ApiErrorType::UserNotFound,
            AuthError::Exists => ApiErrorType::UserExists,
            AuthError::Invalid => ApiErrorType::Unknown(String::from_str("The request is invalid!")),
            AuthError::CredentialDisabled => ApiErrorType::UserDisabled,
            AuthError::CredentialCannotDelete => ApiErrorType::CredentialCannotRemove,
            AuthError::CredentialAssociated => ApiErrorType::CredentialAssociated,
            AuthError::CredentialIncorrect | AuthError::UserNotAuthenticated => ApiErrorType::IncorrectCredential,
            AuthError::UserAuthenticated => ApiErrorType::UserAuthenticated,
            AuthError::Hash => ApiErrorType::Unknown(String::from_str("Something went wrong!")),
        }
    }

    pub fn code(&self) -> (r: ApiErrorCode)
        ensures
            r == code_of(*self),
    {
        ApiErrorCode::from(self)
    }

    /// The HTTP status of this error.
    pub fn status_code(&self) -> (r: u16)
        ensures
            r == status_of(*self),
    {
        match self {
            ApiErrorType::IncorrectCredential | ApiErrorType::IncorrectOauthCode => 401,
            ApiErrorType::UserNotFound | ApiErrorType::ResourceNotFound => 404,
            ApiErrorType::UserExists | ApiErrorType::CredentialAssociated | ApiErrorType::CredentialCannotRemove => 409,
            ApiErrorType::Unknown(_) => 500,
            ApiErrorType::UserDisabled | ApiErrorType::UserAuthenticated => 403,
        }
    }

    /// The message shown for this error.
    pub fn message(&self) -> (r: String)
        ensures
            r@ == api_message(*self),
    {
        match self {
            ApiErrorType::IncorrectCredential => String::from_str("The credentials are incorrect!"),
            ApiErrorType::IncorrectOauthCode => String::from_str("Failed to connect to auth provider!"),
            ApiErrorType::UserNotFound => String::from_str("The user doesn't exist or couldn't be found!"),
            ApiErrorType::UserDisabled => String::from_str("The user is disabled!"),
            ApiErrorType::UserExists => String::from_str("The user is already registered!"),
            ApiErrorType::UserAuthenticated => String::from_str("The user is already authenticated!"),
            ApiErrorType::CredentialAssociated => String::from_str("The authentication method is already associated!"),
            ApiErrorType::CredentialCannotRemove => String::from_str("Cannot remove the only associated authentication method!"),
            ApiErrorType::ResourceNotFound => String::from_str("The resource couldn't be found or doesn't exist!"),
            ApiErrorType::Unknown(m) => String::from_str("An unknown error occurred: ").concat(m.as_str()),
        }
    }
}

impl ApiErrorCode {
    /// The code as clients see it.
    pub fn as_str(&self) -> (r: &'static str)
        ensures
            r@ == code_text(*self),
    {
        match self {
            ApiErrorCode::IncorrectCredential => "AUTH/INCORRECT_CREDENTIAL",
            ApiErrorCode::IncorrectOauthCode => "AUTH/INCORRECT_OAUTH_CODE",
            ApiErrorCode::UserNotFound => "AUTH/USER_NOT_FOUND",
            ApiErrorCode::UserDisabled => "AUTH/USER_DISABLED",
            ApiErrorCode::UserExists => "AUTH/USER_EXISTS",
            ApiErrorCode::UserAuthenticated => "AUTH/USER_AUTHENTICATED",
            ApiErrorCode::CredentialAssociated => "AUTH/CREDENTIAL_ASSOCIATED",
            ApiErrorCode::CredentialCannotRemove => "AUTH/CREDENTIAL_CANNOT_REMOVE",
            ApiErrorCode::ResourceNotFound => "AUTH/RESOURCE_NOUT_FOUND",
            ApiErrorCode::Unknown => "AUTH/UNKNOWN",
        }
    }
}

impl<'a> From<&'a ApiErrorType> for ApiErrorCode {
    fn from(value: &'a ApiErrorType) -> (r: ApiErrorCode) {
        match value {
            ApiErrorType::IncorrectCredential => ApiErrorCode::IncorrectCredential,
            ApiErrorType::IncorrectOauthCode => ApiErrorCode::IncorrectOauthCode,
            ApiErrorType::UserNotFound => ApiErrorCode::UserNotFound,
            ApiErrorType::UserDisabled => ApiErrorCode::UserDisabled,
            ApiErrorType::UserExists => ApiErrorCode::UserExists,
            ApiErrorType::UserAuthenticated => ApiErrorCode::UserAuthenticated,
            ApiErrorType::CredentialAssociated => ApiErrorCode::CredentialAssociated,
            ApiErrorType::CredentialCannotRemove => ApiErrorCode::CredentialCannotRemove,
            ApiErrorType::Unknown(_) => ApiErrorCode::Unknown,
            ApiErrorType::ResourceNotFound => ApiErrorCode::ResourceNotFound,
        }
    }
}

impl<'a> vstd::std_specs::convert::FromSpecImpl<&'a ApiErrorType> for ApiErrorCode {
    open spec fn obeys_from_spec() -> bool {
        true
    }

    open spec fn from_spec(value: &'a ApiErrorType) -> ApiErrorCode {
        code_of(*value)
    }
}

} // verus!
