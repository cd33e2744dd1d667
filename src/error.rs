//! The failure kinds of the service, and how each one is shown to a client.
use vstd::prelude::*;

verus! {

/// Every way an operation of this service can fail.
#[derive(Clone, Copy, Debug, PartialEq, Eq, Structural)]
pub enum AuthError {
    /// The request carries no authorization value.
    MissingAuthHeader,
    /// The authorization value is not of the form `Bearer <token>`.
    MalformedAuthHeader,
    /// Bad signature, wrong or absent algorithm, malformed or expired token.
    TokenInvalid,
    /// The token is valid but its role does not fit the endpoint.
    InsufficientRole,
    /// An account with this email already exists.
    UserExists,
    /// No account has this email.
    WrongCredentials,
    /// The account exists but the password does not match.
    BadPassword,
    /// A token could not be signed.
    TokenCreationError,
    /// The credential storage could not be opened or initialised.
    StoreUnavailable,
    /// Any other internal fault.
    Unknown,
}

/// The HTTP status under which a failure is shown to a client.
pub open spec fn status_of(e: AuthError) -> u16 {
    match e {
        AuthError::MissingAuthHeader | AuthError::MalformedAuthHeader | AuthError::TokenInvalid
        | AuthError::WrongCredentials | AuthError::BadPassword => 401,
        AuthError::InsufficientRole => 403,
        AuthError::UserExists => 409,
        AuthError::TokenCreationError | AuthError::StoreUnavailable | AuthError::Unknown => 500,
    }
}

/// The message shown to a client. An unknown email and a wrong password read
/// alike, so that a client cannot learn which accounts exist.
pub open spec fn message_of(e: AuthError) -> Seq<char> {
    match e {
        AuthError::MissingAuthHeader => "missing authorization header"@,
        AuthError::MalformedAuthHeader => "malformed authorization header"@,
        AuthError::TokenInvalid => "invalid token"@,
        AuthError::InsufficientRole => "forbidden"@,
        AuthError::UserExists => "user already exists"@,
        AuthError::WrongCredentials | AuthError::BadPassword => "wrong credentials"@,
        AuthError::TokenCreationError | AuthError::StoreUnavailable | AuthError::Unknown => "internal error"@,
    }
}

/// The outcome of an operation that yields a string, seen as characters.
pub open spec fn text_result(r: Result<String, AuthError>) -> Result<Seq<char>, AuthError> {
    match r {
        Ok(s) => Ok(s@),
        Err(e) => Err(e),
    }
}

impl AuthError {
    /// The HTTP status of this failure.
    pub fn status_code(&self) -> (r: u16)
        ensures
            r == status_of(*self),
    {
        match self {
            AuthError::MissingAuthHeader | AuthError::MalformedAuthHeader | AuthError::TokenInvalid
            | AuthError::WrongCredentials | AuthError::BadPassword => 401,
            AuthError::InsufficientRole => 403,
            AuthError::UserExists => 409,
            AuthError::TokenCreationError | AuthError::StoreUnavailable | AuthError::Unknown => 500,
        }
    }

    /// The message shown to a client for this failure.
    pub fn message(&self) -> (r: String)
        ensures
            r@ == message_of(*self),
    {
        let text: &str = match self {
            AuthError::MissingAuthHeader => "missing authorization header",
            AuthError::MalformedAuthHeader => "malformed authorization header",
            AuthError::TokenInvalid => "invalid token",
            AuthError::InsufficientRole => "forbidden",
            AuthError::UserExists => "user already exists",
            AuthError::WrongCredentials | AuthError::BadPassword => "wrong credentials",
            AuthError::TokenCreationError | AuthError::StoreUnavailable | AuthError::Unknown => "internal error",
        };
        String::from_str(text)
    }
}

/// A client cannot tell an unknown email from a wrong password: both
/// failures carry the same status and the same message.
pub proof fn lemma_credential_failures_alike()
    ensures
        status_of(AuthError::WrongCredentials) == status_of(AuthError::BadPassword),
        message_of(AuthError::WrongCredentials) == message_of(AuthError::BadPassword),
{
}

} // verus!
