//! Credential and session authentication engine: password hashing and policy,
//! session claims, second factor (TOTP and backup codes), account lockout, and
//! the login, password-change, session-validation and logout protocols.
//!
//! Every operation is a function of its inputs: the user record as read from
//! storage, the request, and the current time. Storage, transport and the
//! audit log stand outside.

pub mod auth;
pub mod clock;
pub mod config;
mod crypto;
pub mod error;
pub mod middleware;
pub mod password;
mod random;
pub mod text;
pub mod token;
pub mod twofa;
pub mod user;
