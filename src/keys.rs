//! Public keys and key pairs that identify accounts.

use vstd::prelude::*;

verus! {

/// A 32-byte public key: the identity of an account.
#[derive(Debug, Clone, Copy)]
pub struct Pubkey {
    pub bytes: [u8; 32],
}

impl Pubkey {
    pub fn new(bytes: [u8; 32]) -> (r: Pubkey)
        ensures
            r.bytes == bytes,
    {
        Pubkey { bytes }
    }

    /// The raw bytes of the key.
    pub fn bytes(&self) -> (r: &[u8; 32])
        ensures
            *r == self.bytes,
    {
        &self.bytes
    }

    /// Compares two keys byte by byte.
    pub fn same_key(&self, other: &Pubkey) -> (r: bool)
        ensures
            r == (*self == *other),
    {
        let mut i: usize = 0;
        while i < 32
            invariant
                0 <= i <= 32,
                forall|j: int| 0 <= j < i ==> self.bytes[j] == other.bytes[j],
            decreases 32 - i,
        {
            if self.bytes[i] != other.bytes[i] {
                return false;
            }
            i = i + 1;
        }
        assert(self.bytes =~= other.bytes);
        true
    }
}

impl PartialEq for Pubkey {
    fn eq(&self, other: &Pubkey) -> (r: bool) {
        self.same_key(other)
    }
}

impl vstd::std_specs::cmp::PartialEqSpecImpl for Pubkey {
    open spec fn obeys_eq_spec() -> bool {
        true
    }

    open spec fn eq_spec(&self, other: &Pubkey) -> bool {
        *self == *other
    }
}

impl Eq for Pubkey {}

/// A 32-byte secret key.
#[derive(Debug, Clone, Copy)]
pub struct SecretKey {
    pub bytes: [u8; 32],
}

/// The key pair of an account: a public key, with its secret key when the
/// account can sign, or without one when it is watch-only.
#[derive(Debug, Clone, Copy)]
pub struct Keypair {
    pub pubkey: Pubkey,
    pub secret_key: Option<SecretKey>,
}

impl Keypair {
    pub fn new(pubkey: Pubkey, secret_key: SecretKey) -> (r: Keypair)
        ensures
            r.pubkey == pubkey,
            r.secret_key == Some(secret_key),
    {
        Keypair { pubkey, secret_key: Some(secret_key) }
    }

    /// A watch-only key pair: the public key alone.
    pub fn only_pubkey(pubkey: Pubkey) -> (r: Keypair)
        ensures
            r.pubkey == pubkey,
            r.secret_key.is_none(),
    {
        Keypair { pubkey, secret_key: None }
    }
}

/// A key pair that holds its secret key.
#[derive(Debug, Clone, Copy)]
pub struct FullKeypair {
    pub pubkey: Pubkey,
    pub secret_key: SecretKey,
}

impl FullKeypair {
    pub fn new(pubkey: Pubkey, secret_key: SecretKey) -> (r: FullKeypair)
        ensures
            r.pubkey == pubkey,
            r.secret_key == secret_key,
    {
        FullKeypair { pubkey, secret_key }
    }

    pub fn to_keypair(self) -> (r: Keypair)
        ensures
            r.pubkey == self.pubkey,
            r.secret_key == Some(self.secret_key),
    {
        Keypair { pubkey: self.pubkey, secret_key: Some(self.secret_key) }
    }
}

} // verus!
