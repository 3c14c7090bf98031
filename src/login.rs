//! What the login screen holds while a key is typed, and what it reports.

use vstd::prelude::*;
use crate::keys::{FullKeypair, Keypair};

verus! {

/// The input state of the login screen.
#[derive(Debug)]
pub struct AcquireKeyState {
    /// The key as typed so far.
    pub desired_key: String,
    /// Whether the user asked for a new key instead of typing one.
    pub should_create_new: bool,
}

impl AcquireKeyState {
    /// Whether nothing has been typed or asked for.
    pub open spec fn is_fresh(&self) -> bool {
        &&& self.desired_key@.len() == 0
        &&& !self.should_create_new
    }

    pub fn new() -> (r: AcquireKeyState)
        ensures
            r.is_fresh(),
    {
        AcquireKeyState { desired_key: String::new(), should_create_new: false }
    }
}

impl Default for AcquireKeyState {
    fn default() -> (r: AcquireKeyState)
        ensures
            r.is_fresh(),
    {
        AcquireKeyState::new()
    }
}

/// What the login screen reports once the user is done with it.
#[derive(Debug, Clone, Copy)]
pub enum AccountLoginResponse {
    /// The user asked for a new identity; it carries the key pair made for it.
    CreateNew(FullKeypair),
    /// The user gave the key pair of an existing identity.
    LoginWith(Keypair),
}

impl AccountLoginResponse {
    /// The key pair to add as an account.
    pub open spec fn keypair(self) -> Keypair {
        match self {
            AccountLoginResponse::CreateNew(kp) => Keypair { pubkey: kp.pubkey, secret_key: Some(kp.secret_key) },
            AccountLoginResponse::LoginWith(kp) => kp,
        }
    }
}

} // verus!
