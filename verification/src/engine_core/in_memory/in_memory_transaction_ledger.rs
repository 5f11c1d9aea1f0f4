use std::collections::HashMap;

use vstd::prelude::*;

use crate::amount::Amount;
use crate::domain::{ClientId, TransactionId};
use crate::engine_core::transaction_ledger::TransactionLedger;
use crate::engine_core::transaction_record::DisputableTransaction;

verus! {

broadcast use vstd::std_specs::hash::group_hash_axioms;

/// The default [`TransactionLedger`]: disputable deposits live in a
/// `HashMap` for the lifetime of the process.
#[derive(Debug)]
pub struct InMemoryTransactionLedger {
    deposits: HashMap<TransactionId, DisputableTransaction>,
}

impl InMemoryTransactionLedger {
    /// A ledger tracking nothing.
    pub fn new() -> (r: InMemoryTransactionLedger)
        ensures
            r.deposits() == Map::<TransactionId, DisputableTransaction>::empty(),
    {
        InMemoryTransactionLedger { deposits: HashMap::new() }
    }
}

impl Default for InMemoryTransactionLedger {
    fn default() -> (r: InMemoryTransactionLedger)
        ensures
            r.deposits() == Map::<TransactionId, DisputableTransaction>::empty(),
    {
        InMemoryTransactionLedger::new()
    }
}

impl TransactionLedger for InMemoryTransactionLedger {
    closed spec fn deposits(&self) -> Map<TransactionId, DisputableTransaction> {
        self.deposits@
    }

    fn record_deposit(&mut self, tx_id: TransactionId, client_id: ClientId, amount: Amount) {
        self.deposits.insert(tx_id, DisputableTransaction { client_id, amount, disputed: false });
    }

    fn lookup_disputable(&mut self, tx_id: TransactionId) -> (r: Option<DisputableTransaction>) {
        match self.deposits.get(&tx_id) {
            Some(deposit) => Some(*deposit),
            None => None,
        }
    }

    fn mark_disputed(&mut self, tx_id: TransactionId) {
        let found = match self.deposits.get(&tx_id) {
            Some(deposit) => Some(*deposit),
            None => None,
        };
        if let Some(deposit) = found {
            self.deposits.insert(tx_id, DisputableTransaction { disputed: true, ..deposit });
        }
    }

    fn remove(&mut self, tx_id: TransactionId) {
        self.deposits.remove(&tx_id);
    }
}

} // verus!
