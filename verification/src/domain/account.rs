use vstd::prelude::*;

use crate::amount::Amount;
use crate::domain::instructions::ClientId;

verus! {

broadcast use crate::amount::Amount::lemma_with_parts, crate::amount::Amount::lemma_parts_determine;

/// A single client's asset account.
///
/// A client has exactly one asset account, and every instruction for that
/// client moves funds in or out of it. The account holds state and the
/// arithmetic over it; whether an operation is allowed (a locked account,
/// sufficient funds) is decided by the engine, which then calls the matching
/// mutator here.
#[derive(Clone, Copy, Debug)]
pub struct Account {
    pub client_id: ClientId,
    pub available: Amount,
    pub held: Amount,
    pub total: Amount,
    pub locked: bool,
}

/// The zero amount, as a spec value.
pub open spec fn zero_amount() -> Amount {
    Amount::with_parts((0i128, 0u32))
}

impl Account {
    /// A fresh, unlocked account with every balance at zero.
    pub open spec fn fresh(client_id: ClientId) -> Account {
        Account {
            client_id,
            available: zero_amount(),
            held: zero_amount(),
            total: zero_amount(),
            locked: false,
        }
    }

    /// `total = available + held`, by value.
    pub open spec fn balanced(self) -> bool {
        self.total@ == self.available@ + self.held@
    }

    /// The account after a deposit of `amount`: `available` and `total` grow.
    /// `None` where the decimal arithmetic overflows.
    pub open spec fn after_credit(self, amount: Amount) -> Option<Account> {
        match (self.available.plus(amount), self.total.plus(amount)) {
            (Some(available), Some(total)) => Some(
                Account { available, total, ..self },
            ),
            _ => None,
        }
    }

    /// The account after a withdrawal of `amount`: `available` and `total` shrink.
    pub open spec fn after_debit(self, amount: Amount) -> Option<Account> {
        match (self.available.minus(amount), self.total.minus(amount)) {
            (Some(available), Some(total)) => Some(
                Account { available, total, ..self },
            ),
            _ => None,
        }
    }

    /// The account after a dispute opens on `amount`: it moves from
    /// `available` into `held`; `total` is unchanged.
    pub open spec fn after_hold(self, amount: Amount) -> Option<Account> {
        match (self.available.minus(amount), self.held.plus(amount)) {
            (Some(available), Some(held)) => Some(Account { available, held, ..self }),
            _ => None,
        }
    }

    /// The account after a dispute resolves on `amount`: it moves from `held`
    /// back into `available`; `total` is unchanged.
    pub open spec fn after_release(self, amount: Amount) -> Option<Account> {
        match (self.held.minus(amount), self.available.plus(amount)) {
            (Some(held), Some(available)) => Some(Account { available, held, ..self }),
            _ => None,
        }
    }

    /// The account after a chargeback of `amount`: `held` and `total` shrink
    /// and the account is frozen.
    pub open spec fn after_chargeback(self, amount: Amount) -> Option<Account> {
        match (self.held.minus(amount), self.total.minus(amount)) {
            (Some(held), Some(total)) => Some(Account { held, total, locked: true, ..self }),
            _ => None,
        }
    }

    pub fn new(client_id: ClientId) -> (r: Account)
        ensures
            r == Account::fresh(client_id),
    {
        Account {
            client_id,
            available: Amount::zero(),
            held: Amount::zero(),
            total: Amount::zero(),
            locked: false,
        }
    }

    pub fn has_sufficient_available_funds(&self, amount: Amount) -> (r: bool)
        ensures
            r == (self.available@ >= amount@),
    {
        self.available.at_least(amount)
    }

    /// The account a deposit of `amount` would leave, or `None` where the
    /// decimal arithmetic overflows.
    pub fn checked_credit(&self, amount: Amount) -> (r: Option<Account>)
        ensures
            r == self.after_credit(amount),
    {
        match (self.available.checked_add(amount), self.total.checked_add(amount)) {
            (Some(available), Some(total)) => Some(Account { available, total, ..*self }),
            _ => None,
        }
    }

    /// The account a withdrawal of `amount` would leave, or `None` where the
    /// decimal arithmetic overflows.
    pub fn checked_debit(&self, amount: Amount) -> (r: Option<Account>)
        ensures
            r == self.after_debit(amount),
    {
        match (self.available.checked_sub(amount), self.total.checked_sub(amount)) {
            (Some(available), Some(total)) => Some(Account { available, total, ..*self }),
            _ => None,
        }
    }

    /// The account holding `amount` would leave, or `None` where the decimal
    /// arithmetic overflows.
    pub fn checked_hold(&self, amount: Amount) -> (r: Option<Account>)
        ensures
            r == self.after_hold(amount),
    {
        match (self.available.checked_sub(amount), self.held.checked_add(amount)) {
            (Some(available), Some(held)) => Some(Account { available, held, ..*self }),
            _ => None,
        }
    }

    /// The account releasing `amount` would leave, or `None` where the
    /// decimal arithmetic overflows.
    pub fn checked_release(&self, amount: Amount) -> (r: Option<Account>)
        ensures
            r == self.after_release(amount),
    {
        match (self.held.checked_sub(amount), self.available.checked_add(amount)) {
            (Some(held), Some(available)) => Some(Account { available, held, ..*self }),
            _ => None,
        }
    }

    /// The account a chargeback of `amount` would leave, or `None` where the
    /// decimal arithmetic overflows.
    pub fn checked_chargeback(&self, amount: Amount) -> (r: Option<Account>)
        ensures
            r == self.after_chargeback(amount),
    {
        match (self.held.checked_sub(amount), self.total.checked_sub(amount)) {
            (Some(held), Some(total)) => Some(Account { held, total, locked: true, ..*self }),
            _ => None,
        }
    }

    /// A deposit: credits `available` and `total`.
    pub fn credit(&mut self, amount: Amount)
        requires
            old(self).after_credit(amount) is Some,
        ensures
            *final(self) == old(self).after_credit(amount).unwrap(),
    {
        if let Some(next) = self.checked_credit(amount) {
            *self = next;
        }
    }

    /// A withdrawal: debits `available` and `total`.
    pub fn debit(&mut self, amount: Amount)
        requires
            old(self).after_debit(amount) is Some,
        ensures
            *final(self) == old(self).after_debit(amount).unwrap(),
    {
        if let Some(next) = self.checked_debit(amount) {
            *self = next;
        }
    }

    /// A dispute opening: moves funds from `available` into `held`.
    pub fn hold(&mut self, amount: Amount)
        requires
            old(self).after_hold(amount) is Some,
        ensures
            *final(self) == old(self).after_hold(amount).unwrap(),
    {
        if let Some(next) = self.checked_hold(amount) {
            *self = next;
        }
    }

    /// A dispute resolving: moves funds from `held` back into `available`.
    pub fn release(&mut self, amount: Amount)
        requires
            old(self).after_release(amount) is Some,
        ensures
            *final(self) == old(self).after_release(amount).unwrap(),
    {
        if let Some(next) = self.checked_release(amount) {
            *self = next;
        }
    }

    /// A chargeback: removes the held funds for good and freezes the account.
    pub fn chargeback(&mut self, amount: Amount)
        requires
            old(self).after_chargeback(amount) is Some,
        ensures
            *final(self) == old(self).after_chargeback(amount).unwrap(),
    {
        if let Some(next) = self.checked_chargeback(amount) {
            *self = next;
        }
    }
}

} // verus!

verus! {

impl PartialEq for Account {
    fn eq(&self, other: &Account) -> (r: bool) {
        self.client_id == other.client_id && self.available.same_value(other.available)
            && self.held.same_value(other.held) && self.total.same_value(other.total)
            && self.locked == other.locked
    }
}

impl vstd::std_specs::cmp::PartialEqSpecImpl for Account {
    open spec fn obeys_eq_spec() -> bool {
        true
    }

    open spec fn eq_spec(&self, other: &Account) -> bool {
        &&& self.client_id == other.client_id
        &&& self.available@ == other.available@
        &&& self.held@ == other.held@
        &&& self.total@ == other.total@
        &&& self.locked == other.locked
    }
}

} // verus!
