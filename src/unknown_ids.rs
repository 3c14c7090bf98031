//! Identities still to be looked up, and the deferred action that adds one.

use vstd::prelude::*;
use nostrdb::{Ndb, Transaction};
use crate::keys::Pubkey;

verus! {

#[verifier::external_type_specification]
#[verifier::external_body]
pub struct ExNdb(Ndb);

#[verifier::external_type_specification]
#[verifier::external_body]
pub struct ExTransaction(Transaction);

/// Relies on nostrdb's `Ndb::get_profile_by_pubkey`, which finds the profile
/// stored for a key as the transaction sees the database. The answer depends
/// on what is stored, so nothing is stated of it.
#[verifier::external_body]
fn profile_in_store(ndb: &Ndb, txn: &Transaction, pk: &Pubkey) -> (r: bool) {
    ndb.get_profile_by_pubkey(txn, pk.bytes()).is_ok()
}

/// The pending list after a key has been looked up: a key whose profile is
/// not stored joins the list, unless it is on it already.
pub open spec fn after_lookup(ids: Seq<Pubkey>, pk: Pubkey, profile_known: bool) -> Seq<Pubkey> {
    if profile_known || ids.contains(pk) {
        ids
    } else {
        ids.push(pk)
    }
}

/// The keys whose profiles still have to be fetched, each once, in the order
/// in which they were found missing.
pub struct UnknownIds {
    ids: Vec<Pubkey>,
}

impl View for UnknownIds {
    type V = Seq<Pubkey>;

    closed spec fn view(&self) -> Seq<Pubkey> {
        self.ids@
    }
}

impl UnknownIds {
    pub closed spec fn wf(&self) -> bool {
        self.ids@.no_duplicates()
    }

    pub fn new() -> (r: UnknownIds)
        ensures
            r.wf(),
            r@ == Seq::<Pubkey>::empty(),
    {
        UnknownIds { ids: Vec::new() }
    }

    pub fn len(&self) -> (r: usize)
        ensures
            r == self@.len(),
    {
        self.ids.len()
    }

    pub fn contains(&self, pk: &Pubkey) -> (r: bool)
        ensures
            r == self@.contains(*pk),
    {
        let mut i: usize = 0;
        while i < self.ids.len()
            invariant
                0 <= i <= self.ids@.len(),
                forall|j: int| 0 <= j < i ==> self.ids@[j] != *pk,
            decreases self.ids@.len() - i,
        {
            if self.ids[i].same_key(pk) {
                return true;
            }
            i = i + 1;
        }
        false
    }

    /// The pending keys, in order.
    pub fn ids(&self) -> (r: &Vec<Pubkey>)
        ensures
            r@ == self@,
    {
        &self.ids
    }

    /// Takes the answer of a profile lookup for `pk` into account.
    pub fn note_lookup(&mut self, pk: &Pubkey, profile_known: bool)
        requires
            old(self).wf(),
        ensures
            final(self).wf(),
            final(self)@ == after_lookup(old(self)@, *pk, profile_known),
    {
        if !profile_known && !self.contains(pk) {
            self.ids.push(*pk);
        }
    }

    /// Looks `pk` up in the store and adds it to the pending keys when no
    /// profile is stored for it.
    pub fn add_pubkey_if_missing(&mut self, ndb: &Ndb, txn: &Transaction, pk: &Pubkey)
        requires
            old(self).wf(),
        ensures
            final(self).wf(),
            final(self)@ == after_lookup(old(self)@, *pk, true)
                || final(self)@ == after_lookup(old(self)@, *pk, false),
    {
        let known = profile_in_store(ndb, txn, pk);
        self.note_lookup(pk, known);
    }
}

/// An identity that may still need to be looked up.
#[derive(Debug, Clone, Copy)]
pub enum SingleUnkIdAction {
    NoAction,
    NeedsProcess(Pubkey),
}

impl SingleUnkIdAction {
    /// The pending list after this action, given what the lookup answered.
    pub open spec fn resolved(self, ids: Seq<Pubkey>, profile_known: bool) -> Seq<Pubkey> {
        match self {
            SingleUnkIdAction::NoAction => ids,
            SingleUnkIdAction::NeedsProcess(pk) => after_lookup(ids, pk, profile_known),
        }
    }

    pub fn no_action() -> (r: SingleUnkIdAction)
        ensures
            r == SingleUnkIdAction::NoAction,
    {
        SingleUnkIdAction::NoAction
    }

    pub fn pubkey(pk: Pubkey) -> (r: SingleUnkIdAction)
        ensures
            r == SingleUnkIdAction::NeedsProcess(pk),
    {
        SingleUnkIdAction::NeedsProcess(pk)
    }

    /// Applies the action to the pending keys, given the answer of the lookup.
    pub fn process_with_lookup(&self, ids: &mut UnknownIds, profile_known: bool)
        requires
            old(ids).wf(),
        ensures
            final(ids).wf(),
            final(ids)@ == self.resolved(old(ids)@, profile_known),
    {
        match self {
            SingleUnkIdAction::NeedsProcess(pk) => ids.note_lookup(pk, profile_known),
            SingleUnkIdAction::NoAction => {},
        }
    }

    /// Applies the action to the pending keys, looking its key up in the store.
    pub fn process_action(&self, ids: &mut UnknownIds, ndb: &Ndb, txn: &Transaction)
        requires
            old(ids).wf(),
        ensures
            final(ids).wf(),
            final(ids)@ == self.resolved(old(ids)@, true)
                || final(ids)@ == self.resolved(old(ids)@, false),
            self is NoAction ==> final(ids)@ == old(ids)@,
    {
        match self {
            SingleUnkIdAction::NeedsProcess(pk) => ids.add_pubkey_if_missing(ndb, txn, pk),
            SingleUnkIdAction::NoAction => {},
        }
    }
}

} // verus!
