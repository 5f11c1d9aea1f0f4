use std::collections::HashSet;

use vstd::prelude::*;

use crate::domain::TransactionId;
use crate::engine_core::transaction_id_registry::TransactionIdRegistry;

verus! {

broadcast use vstd::std_specs::hash::group_hash_axioms;

/// A process-local registry of reserved transaction ids.
#[derive(Debug)]
pub struct InMemoryTransactionIdRegistry {
    transaction_ids: HashSet<TransactionId>,
}

impl InMemoryTransactionIdRegistry {
    /// A registry with nothing reserved.
    pub fn new() -> (r: InMemoryTransactionIdRegistry)
        ensures
            r.reserved() == Set::<TransactionId>::empty(),
    {
        InMemoryTransactionIdRegistry { transaction_ids: HashSet::new() }
    }
}

impl Default for InMemoryTransactionIdRegistry {
    fn default() -> (r: InMemoryTransactionIdRegistry)
        ensures
            r.reserved() == Set::<TransactionId>::empty(),
    {
        InMemoryTransactionIdRegistry::new()
    }
}

impl TransactionIdRegistry for InMemoryTransactionIdRegistry {
    open spec fn exclusive() -> bool {
        true
    }

    closed spec fn reserved(&self) -> Set<TransactionId> {
        self.transaction_ids@
    }

    fn reserve(&mut self, tx_id: TransactionId) -> (first_use: bool) {
        if self.transaction_ids.contains(&tx_id) {
            return false;
        }
        self.transaction_ids.insert(tx_id)
    }
}

} // verus!
