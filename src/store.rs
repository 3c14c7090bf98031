//! The accounts the client knows of.

use vstd::prelude::*;
use crate::keys::{Keypair, Pubkey};
use crate::unknown_ids::SingleUnkIdAction;

verus! {

/// The public keys of a list of key pairs, in order.
pub open spec fn pubkeys_of(accounts: Seq<Keypair>) -> Seq<Pubkey> {
    accounts.map_values(|kp: Keypair| kp.pubkey)
}

/// What the store answers when it takes an account.
#[derive(Debug, Clone, Copy)]
pub struct AddAccountResponse {
    /// The account to make active.
    pub switch_to: Pubkey,
    /// The lookup that the new identity needs.
    pub unk_id_action: SingleUnkIdAction,
}

/// The accounts, each key once, in the order in which they were added.
#[derive(Debug)]
pub struct Accounts {
    accounts: Vec<Keypair>,
}

impl View for Accounts {
    type V = Seq<Keypair>;

    closed spec fn view(&self) -> Seq<Keypair> {
        self.accounts@
    }
}

impl Accounts {
    pub closed spec fn wf(&self) -> bool {
        pubkeys_of(self.accounts@).no_duplicates()
    }

    pub fn new() -> (r: Accounts)
        ensures
            r.wf(),
            r@ == Seq::<Keypair>::empty(),
    {
        Accounts { accounts: Vec::new() }
    }

    pub fn len(&self) -> (r: usize)
        ensures
            r == self@.len(),
    {
        self.accounts.len()
    }

    /// The accounts, in order.
    pub fn keypairs(&self) -> (r: &Vec<Keypair>)
        ensures
            r@ == self@,
    {
        &self.accounts
    }

    /// Whether an account has the key `pk`.
    pub fn contains(&self, pk: &Pubkey) -> (r: bool)
        ensures
            r == pubkeys_of(self@).contains(*pk),
    {
        let mut i: usize = 0;
        while i < self.accounts.len()
            invariant
                0 <= i <= self.accounts@.len(),
                forall|j: int| 0 <= j < i ==> self.accounts@[j].pubkey != *pk,
            decreases self.accounts@.len() - i,
        {
            if self.accounts[i].pubkey.same_key(pk) {
                assert(pubkeys_of(self@)[i as int] == *pk);
                return true;
            }
            i = i + 1;
        }
        false
    }

    /// Adds the account of `kp`, unless one has its key already. A new
    /// account is to be made active, and its identity to be looked up.
    pub fn add_account(&mut self, kp: Keypair) -> (r: Option<AddAccountResponse>)
        requires
            old(self).wf(),
        ensures
            final(self).wf(),
            pubkeys_of(old(self)@).contains(kp.pubkey) ==> {
                &&& r.is_none()
                &&& final(self)@ == old(self)@
            },
            !pubkeys_of(old(self)@).contains(kp.pubkey) ==> {
                &&& r == Some(
                    AddAccountResponse {
                        switch_to: kp.pubkey,
                        unk_id_action: SingleUnkIdAction::NeedsProcess(kp.pubkey),
                    },
                )
                &&& final(self)@ == old(self)@.push(kp)
            },
    {
        if self.contains(&kp.pubkey) {
            return None;
        }
        self.accounts.push(kp);
        assert(pubkeys_of(self.accounts@) =~= pubkeys_of(old(self)@).push(kp.pubkey));
        Some(AddAccountResponse { switch_to: kp.pubkey, unk_id_action: SingleUnkIdAction::pubkey(kp.pubkey) })
    }
}

} // verus!
