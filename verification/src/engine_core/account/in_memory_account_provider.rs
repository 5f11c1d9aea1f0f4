use std::collections::HashMap;

use vstd::prelude::*;

use crate::domain::{Account, ClientId};
use crate::engine_core::account::account_provider::{keyed, AccountProvider};

verus! {

broadcast use vstd::std_specs::hash::group_hash_axioms;

/// The default [`AccountProvider`]: accounts live in a `HashMap` for the
/// lifetime of the process.
#[derive(Debug)]
pub struct InMemoryAccountProvider {
    accounts: HashMap<ClientId, Account>,
}

impl InMemoryAccountProvider {
    #[verifier::type_invariant]
    spec fn consistent(self) -> bool {
        keyed(self.accounts@)
    }

    /// A provider with no accounts.
    pub fn new() -> (r: InMemoryAccountProvider)
        ensures
            r.accounts() == Map::<ClientId, Account>::empty(),
    {
        InMemoryAccountProvider { accounts: HashMap::new() }
    }
}

impl Default for InMemoryAccountProvider {
    fn default() -> (r: InMemoryAccountProvider)
        ensures
            r.accounts() == Map::<ClientId, Account>::empty(),
    {
        InMemoryAccountProvider::new()
    }
}

impl AccountProvider for InMemoryAccountProvider {
    closed spec fn accounts(&self) -> Map<ClientId, Account> {
        self.accounts@
    }

    fn get(&mut self, client_id: ClientId) -> (account: Account) {
        proof {
            use_type_invariant(&*self);
        }
        match self.accounts.get(&client_id) {
            Some(account) => *account,
            None => Account::new(client_id),
        }
    }

    fn save(&mut self, account: Account) {
        let mut this = InMemoryAccountProvider::new();
        std::mem::swap(&mut this, self);
        proof {
            use_type_invariant(&this);
        }
        let InMemoryAccountProvider { mut accounts } = this;
        accounts.insert(account.client_id, account);
        *self = InMemoryAccountProvider { accounts };
    }
}

} // verus!
