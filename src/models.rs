//! The plain records exchanged with clients.
use vstd::prelude::*;

verus! {

/// A registered user as a client sees it.
#[derive(Clone, Debug)]
pub struct User {
    pub uid: String,
    pub email: String,
    pub pw: String,
    pub role: String,
}

/// The credentials a client submits to log in or to create an account.
#[derive(Clone, Debug)]
pub struct LoginRequest {
    pub email: String,
    pub pw: String,
}

/// What a client receives when it authenticates with a password or with a
/// valid refresh token.
#[derive(Clone, Debug)]
pub struct LoginResponse {
    pub refresh_token: String,
    pub access_token: String,
}

/// A request to use a resource owned by the subject `uid`.
#[derive(Clone, Debug)]
pub struct AccessRequest {
    pub uid: String,
}

} // verus!
