//! Identity and credential management core: users reached through several
//! credential kinds, a per-user lookup ledger that keeps at most one active
//! credential of each exclusive kind, the request guard states and the OAuth
//! account-linking protocol.

pub mod credential;
pub mod error;
pub mod platform;
pub mod store;
pub mod user;
pub mod accounts;
pub mod guard;
pub mod oauth;
pub mod totp;
pub mod api_error;
pub mod laws;
