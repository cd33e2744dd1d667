//! A small bearer-token authentication service: a password-backed credential
//! store, and signed, role-scoped, time-bounded access and refresh tokens that
//! guard each protected request.

pub mod entropy;
pub mod error;
pub mod models;
pub mod role;
pub mod store;
pub mod text;
pub mod token;
