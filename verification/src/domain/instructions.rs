use vstd::prelude::*;

use crate::amount::Amount;
use crate::domain::account::Account;

verus! {

/// Identifies a client account.
pub type ClientId = u16;

/// Identifies a transaction. Unique across all clients and instruction
/// kinds: a deposit and a withdrawal never share a `tx_id`.
pub type TransactionId = u32;

/// A credit to a client's account.
#[derive(Clone, Copy, Debug)]
pub struct Deposit {
    pub client_id: ClientId,
    pub tx_id: TransactionId,
    pub amount: Amount,
}

/// A debit from a client's account. Rejected if the account does not have
/// sufficient available funds.
#[derive(Clone, Copy, Debug)]
pub struct Withdrawal {
    pub client_id: ClientId,
    pub tx_id: TransactionId,
    pub amount: Amount,
}

/// A client's claim that `tx_id` was erroneous. Holds the disputed funds
/// without reversing them. Only a deposit can be disputed: a `tx_id`
/// referring to a withdrawal, or to nothing at all, is treated as unknown.
#[derive(Clone, Copy, Debug, PartialEq, Eq, Structural)]
pub struct Dispute {
    pub client_id: ClientId,
    pub tx_id: TransactionId,
}

/// Releases a prior dispute's held funds back to `available` without
/// reversing the underlying transaction.
#[derive(Clone, Copy, Debug, PartialEq, Eq, Structural)]
pub struct Resolve {
    pub client_id: ClientId,
    pub tx_id: TransactionId,
}

/// Reverses a disputed transaction and freezes the account. A locked
/// account rejects every further instruction.
#[derive(Clone, Copy, Debug, PartialEq, Eq, Structural)]
pub struct ChargeBack {
    pub client_id: ClientId,
    pub tx_id: TransactionId,
}

/// A single instruction from the transaction stream.
#[derive(Clone, Copy, Debug)]
pub enum Instruction {
    Deposit(Deposit),
    Withdrawal(Withdrawal),
    Dispute(Dispute),
    Resolve(Resolve),
    ChargeBack(ChargeBack),
}

/// What happened when an [`Instruction`] was applied.
#[derive(Clone, Copy, Debug, PartialEq, Eq, Structural)]
pub enum InstructionOutcome {
    Applied,
    Rejected { reason: RejectionReason },
}

/// Why an instruction was rejected instead of applied. A rejection is an
/// expected business outcome, not a system failure.
#[derive(Clone, Copy, Debug, PartialEq, Eq, Structural)]
pub enum RejectionReason {
    /// The account is locked (a prior chargeback froze it).
    AccountLocked,
    /// A withdrawal exceeded the account's available funds.
    InsufficientFunds,
    /// A deposit or withdrawal reused a `tx_id` belonging to an accepted
    /// transaction.
    DuplicateTransaction,
    /// A deposit or withdrawal supplied a negative amount.
    InvalidAmount,
    /// A dispute, resolve, or chargeback referenced a `tx_id` with no
    /// matching disputable transaction for that client.
    UnknownTransaction,
    /// A dispute referenced a `tx_id` that is already under dispute.
    TransactionAlreadyDisputed,
    /// A resolve or chargeback referenced a `tx_id` that is not under dispute.
    TransactionNotDisputed,
}

/// The outcome of applying one instruction, paired with the affected
/// account's resulting state.
#[derive(Clone, Copy, Debug)]
pub struct InstructionResult {
    pub outcome: InstructionOutcome,
    pub account: Account,
}

impl Instruction {
    /// The client the instruction is about.
    pub open spec fn client(self) -> ClientId {
        match self {
            Instruction::Deposit(i) => i.client_id,
            Instruction::Withdrawal(i) => i.client_id,
            Instruction::Dispute(i) => i.client_id,
            Instruction::Resolve(i) => i.client_id,
            Instruction::ChargeBack(i) => i.client_id,
        }
    }

    /// The transaction the instruction is, or names.
    pub open spec fn transaction_id(self) -> TransactionId {
        match self {
            Instruction::Deposit(i) => i.tx_id,
            Instruction::Withdrawal(i) => i.tx_id,
            Instruction::Dispute(i) => i.tx_id,
            Instruction::Resolve(i) => i.tx_id,
            Instruction::ChargeBack(i) => i.tx_id,
        }
    }

    /// The client the instruction is about.
    pub fn client_id(&self) -> (r: ClientId)
        ensures
            r == self.client(),
    {
        match self {
            Instruction::Deposit(i) => i.client_id,
            Instruction::Withdrawal(i) => i.client_id,
            Instruction::Dispute(i) => i.client_id,
            Instruction::Resolve(i) => i.client_id,
            Instruction::ChargeBack(i) => i.client_id,
        }
    }
}

impl PartialEq for Deposit {
    fn eq(&self, other: &Deposit) -> (r: bool) {
        self.client_id == other.client_id && self.tx_id == other.tx_id
            && self.amount.same_value(other.amount)
    }
}

impl vstd::std_specs::cmp::PartialEqSpecImpl for Deposit {
    open spec fn obeys_eq_spec() -> bool {
        true
    }

    open spec fn eq_spec(&self, other: &Deposit) -> bool {
        self.client_id == other.client_id && self.tx_id == other.tx_id && self.amount@
            == other.amount@
    }
}

impl PartialEq for Withdrawal {
    fn eq(&self, other: &Withdrawal) -> (r: bool) {
        self.client_id == other.client_id && self.tx_id == other.tx_id
            && self.amount.same_value(other.amount)
    }
}

impl vstd::std_specs::cmp::PartialEqSpecImpl for Withdrawal {
    open spec fn obeys_eq_spec() -> bool {
        true
    }

    open spec fn eq_spec(&self, other: &Withdrawal) -> bool {
        self.client_id == other.client_id && self.tx_id == other.tx_id && self.amount@
            == other.amount@
    }
}

impl PartialEq for Instruction {
    fn eq(&self, other: &Instruction) -> (r: bool) {
        match (self, other) {
            (Instruction::Deposit(a), Instruction::Deposit(b)) => a.eq(b),
            (Instruction::Withdrawal(a), Instruction::Withdrawal(b)) => a.eq(b),
            (Instruction::Dispute(a), Instruction::Dispute(b)) => a == b,
            (Instruction::Resolve(a), Instruction::Resolve(b)) => a == b,
            (Instruction::ChargeBack(a), Instruction::ChargeBack(b)) => a == b,
            _ => false,
        }
    }
}

impl vstd::std_specs::cmp::PartialEqSpecImpl for Instruction {
    open spec fn obeys_eq_spec() -> bool {
        true
    }

    open spec fn eq_spec(&self, other: &Instruction) -> bool {
        match (*self, *other) {
            (Instruction::Deposit(a), Instruction::Deposit(b)) => a.client_id == b.client_id
                && a.tx_id == b.tx_id && a.amount@ == b.amount@,
            (Instruction::Withdrawal(a), Instruction::Withdrawal(b)) => a.client_id
                == b.client_id && a.tx_id == b.tx_id && a.amount@ == b.amount@,
            (Instruction::Dispute(a), Instruction::Dispute(b)) => a == b,
            (Instruction::Resolve(a), Instruction::Resolve(b)) => a == b,
            (Instruction::ChargeBack(a), Instruction::ChargeBack(b)) => a == b,
            _ => false,
        }
    }
}

impl PartialEq for InstructionResult {
    fn eq(&self, other: &InstructionResult) -> (r: bool) {
        self.outcome == other.outcome && self.account.eq(&other.account)
    }
}

impl vstd::std_specs::cmp::PartialEqSpecImpl for InstructionResult {
    open spec fn obeys_eq_spec() -> bool {
        true
    }

    open spec fn eq_spec(&self, other: &InstructionResult) -> bool {
        &&& self.outcome == other.outcome
        &&& self.account.client_id == other.account.client_id
        &&& self.account.available@ == other.account.available@
        &&& self.account.held@ == other.account.held@
        &&& self.account.total@ == other.account.total@
        &&& self.account.locked == other.account.locked
    }
}

} // verus!
