use vstd::prelude::*;

use crate::domain::TransactionId;

verus! {

/// Reserves ids for accepted monetary transactions, across every engine that
/// shares the registry.
///
/// A refused reservation leaves the registry as it was, whoever else shares
/// it. A registry that is the only keeper of its ids (no other engine
/// reserves through it at the same time) says so with `exclusive`, and then
/// `reserve` answers exactly by its `reserved` set. A shared registry's
/// answer may depend on other engines, so the engine states its own
/// behaviour for either answer.
pub trait TransactionIdRegistry: Sized {
    /// Whether `reserve` answers by `reserved` alone.
    open spec fn exclusive() -> bool {
        false
    }

    /// The ids reserved so far, where `exclusive` holds.
    open spec fn reserved(&self) -> Set<TransactionId> {
        Set::empty()
    }

    /// Reserves `tx_id`; `true` only for its first successful use. A refusal
    /// changes nothing.
    fn reserve(&mut self, tx_id: TransactionId) -> (first_use: bool)
        ensures
            !first_use ==> *final(self) == *old(self),
            Self::exclusive() ==> first_use == !old(self).reserved().contains(tx_id),
            Self::exclusive() ==> final(self).reserved() == old(self).reserved().insert(tx_id),
    ;
}

} // verus!
