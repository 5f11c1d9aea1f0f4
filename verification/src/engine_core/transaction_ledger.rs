use vstd::prelude::*;

use crate::amount::Amount;
use crate::domain::{ClientId, TransactionId};
use crate::engine_core::transaction_record::DisputableTransaction;

verus! {

broadcast use vstd::std_specs::hash::group_hash_axioms;

/// `deposits` with `tx_id` marked as disputed, where it is tracked.
pub open spec fn marked_disputed(
    deposits: Map<TransactionId, DisputableTransaction>,
    tx_id: TransactionId,
) -> Map<TransactionId, DisputableTransaction> {
    if deposits.contains_key(tx_id) {
        deposits.insert(tx_id, DisputableTransaction { disputed: true, ..deposits[tx_id] })
    } else {
        deposits
    }
}

/// The record tracked for `tx_id`, if any.
pub open spec fn recorded_deposit(
    deposits: Map<TransactionId, DisputableTransaction>,
    tx_id: TransactionId,
) -> Option<DisputableTransaction> {
    if deposits.contains_key(tx_id) {
        Some(deposits[tx_id])
    } else {
        None
    }
}

/// Tracks disputable deposits through their dispute lifecycle:
/// `record_deposit` creates the record (not disputed); a dispute
/// `mark_disputed`s it; a resolve or a chargeback `remove`s it for good.
///
/// The engine is its only caller, one instruction at a time.
pub trait TransactionLedger {
    /// The tracked deposits, by transaction id.
    spec fn deposits(&self) -> Map<TransactionId, DisputableTransaction>;

    fn record_deposit(&mut self, tx_id: TransactionId, client_id: ClientId, amount: Amount)
        ensures
            final(self).deposits() == old(self).deposits().insert(
                tx_id,
                DisputableTransaction { client_id, amount, disputed: false },
            ),
    ;

    /// `None` if `tx_id` does not name a tracked deposit.
    fn lookup_disputable(&mut self, tx_id: TransactionId) -> (r: Option<DisputableTransaction>)
        ensures
            final(self).deposits() == old(self).deposits(),
            r == recorded_deposit(old(self).deposits(), tx_id),
    ;

    /// Marks a tracked deposit as disputed.
    fn mark_disputed(&mut self, tx_id: TransactionId)
        ensures
            final(self).deposits() == marked_disputed(old(self).deposits(), tx_id),
    ;

    /// Ends a deposit's dispute lifecycle; a no-op if `tx_id` is not tracked.
    fn remove(&mut self, tx_id: TransactionId)
        ensures
            final(self).deposits() == old(self).deposits().remove(tx_id),
    ;
}

} // verus!
