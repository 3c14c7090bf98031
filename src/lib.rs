//! Account management for a columned identity client: turning what the
//! accounts list and the login screen report into account-level effects,
//! and carrying the unknown-identity lookup that each new account needs.

pub mod keys;
pub mod unknown_ids;
pub mod route;
pub mod login;
pub mod store;
pub mod accounts;
