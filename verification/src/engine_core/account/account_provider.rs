use vstd::prelude::*;

use crate::domain::{Account, ClientId};

verus! {

broadcast use vstd::std_specs::hash::group_hash_axioms;

/// The account stored for `client_id`, or a fresh zero-balance one.
pub open spec fn stored_or_fresh(accounts: Map<ClientId, Account>, client_id: ClientId) -> Account {
    if accounts.contains_key(client_id) {
        accounts[client_id]
    } else {
        Account::fresh(client_id)
    }
}

/// Every stored account sits under its own client id.
pub open spec fn keyed(accounts: Map<ClientId, Account>) -> bool {
    forall|c: ClientId| #[trigger] accounts.contains_key(c) ==> accounts[c].client_id == c
}

/// Storage for client accounts, kept apart from the engine's business rules
/// so the backing store can change without touching the engine. Every
/// account is stored under its own client id.
///
/// The engine is its only caller, one instruction at a time.
pub trait AccountProvider {
    /// The stored accounts, by client.
    spec fn accounts(&self) -> Map<ClientId, Account>;

    /// The account for `client_id`, or a fresh zero-balance one if it does
    /// not exist yet. Nothing is stored until `save` is called with it.
    fn get(&mut self, client_id: ClientId) -> (account: Account)
        ensures
            final(self).accounts() == old(self).accounts(),
            account == stored_or_fresh(old(self).accounts(), client_id),
            keyed(final(self).accounts()),
    ;

    /// Stores `account` under its client id.
    fn save(&mut self, account: Account)
        ensures
            final(self).accounts() == old(self).accounts().insert(account.client_id, account),
            keyed(final(self).accounts()),
    ;
}

} // verus!
