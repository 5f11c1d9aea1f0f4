use vstd::prelude::*;

use crate::domain::{
    Account, ChargeBack, ClientId, Deposit, Dispute, Instruction, InstructionOutcome,
    InstructionResult, RejectionReason, Resolve, TransactionId, Withdrawal,
};
use crate::engine_core::account::account_provider::{keyed, stored_or_fresh, AccountProvider};
use crate::engine_core::transaction_id_registry::TransactionIdRegistry;
use crate::engine_core::transaction_ledger::{marked_disputed, TransactionLedger};
use crate::engine_core::transaction_record::DisputableTransaction;

verus! {

/// Stored accounts, by client.
pub type Accounts = Map<ClientId, Account>;

/// Tracked disputable deposits, by transaction id.
pub type Deposits = Map<TransactionId, DisputableTransaction>;

/// The stores after one instruction, with its result.
pub type Step = (Accounts, Deposits, InstructionResult);

pub open spec fn rejected(reason: RejectionReason, account: Account) -> InstructionResult {
    InstructionResult { outcome: InstructionOutcome::Rejected { reason }, account }
}

pub open spec fn applied(account: Account) -> InstructionResult {
    InstructionResult { outcome: InstructionOutcome::Applied, account }
}

/// Whether the registry admitted the transaction id, read back from a result:
/// only its refusal yields `DuplicateTransaction`.
pub open spec fn admitted_by(result: InstructionResult) -> bool {
    result.outcome != (InstructionOutcome::Rejected { reason: RejectionReason::DuplicateTransaction })
}

/// A deposit: rejected if negative, if the account is locked, or if the
/// registry refuses its id; otherwise credited and recorded as disputable.
/// `None` where the decimal arithmetic overflows.
pub open spec fn deposit_step(
    accounts: Accounts,
    deposits: Deposits,
    deposit: Deposit,
    admitted: bool,
) -> Option<Step> {
    let account = stored_or_fresh(accounts, deposit.client_id);
    if deposit.amount@ < 0 {
        Some((accounts, deposits, rejected(RejectionReason::InvalidAmount, account)))
    } else if account.locked {
        Some((accounts, deposits, rejected(RejectionReason::AccountLocked, account)))
    } else if !admitted {
        Some((accounts, deposits, rejected(RejectionReason::DuplicateTransaction, account)))
    } else {
        match account.after_credit(deposit.amount) {
            None => None,
            Some(next) => Some(
                (
                    accounts.insert(next.client_id, next),
                    deposits.insert(
                        deposit.tx_id,
                        DisputableTransaction {
                            client_id: deposit.client_id,
                            amount: deposit.amount,
                            disputed: false,
                        },
                    ),
                    applied(next),
                ),
            ),
        }
    }
}

/// A withdrawal: rejected if negative, if the account is locked, if it
/// exceeds the available funds, or if the registry refuses its id; otherwise
/// debited. Withdrawals are never disputable, so the ledger is untouched.
pub open spec fn withdrawal_step(
    accounts: Accounts,
    deposits: Deposits,
    withdrawal: Withdrawal,
    admitted: bool,
) -> Option<Step> {
    let account = stored_or_fresh(accounts, withdrawal.client_id);
    if withdrawal.amount@ < 0 {
        Some((accounts, deposits, rejected(RejectionReason::InvalidAmount, account)))
    } else if account.locked {
        Some((accounts, deposits, rejected(RejectionReason::AccountLocked, account)))
    } else if !(account.available@ >= withdrawal.amount@) {
        Some((accounts, deposits, rejected(RejectionReason::InsufficientFunds, account)))
    } else if !admitted {
        Some((accounts, deposits, rejected(RejectionReason::DuplicateTransaction, account)))
    } else {
        match account.after_debit(withdrawal.amount) {
            None => None,
            Some(next) => Some((accounts.insert(next.client_id, next), deposits, applied(next))),
        }
    }
}

/// The rejection a dispute, resolve or chargeback gets before any arithmetic:
/// a locked account, a transaction that is not a tracked deposit of this
/// client, or (for `want_disputed` = whether the deposit must already be
/// under dispute) the wrong dispute status.
pub open spec fn lifecycle_rejection(
    accounts: Accounts,
    deposits: Deposits,
    client_id: ClientId,
    tx_id: TransactionId,
    want_disputed: bool,
) -> Option<RejectionReason> {
    let account = stored_or_fresh(accounts, client_id);
    if account.locked {
        Some(RejectionReason::AccountLocked)
    } else if !deposits.contains_key(tx_id) || deposits[tx_id].client_id != client_id {
        Some(RejectionReason::UnknownTransaction)
    } else if deposits[tx_id].disputed != want_disputed {
        if want_disputed {
            Some(RejectionReason::TransactionNotDisputed)
        } else {
            Some(RejectionReason::TransactionAlreadyDisputed)
        }
    } else {
        None
    }
}

/// A dispute: holds the deposit's amount and marks the deposit disputed.
/// No sufficient-funds check applies, so `available` may go negative.
pub open spec fn dispute_step(accounts: Accounts, deposits: Deposits, dispute: Dispute) -> Option<
    Step,
> {
    let account = stored_or_fresh(accounts, dispute.client_id);
    match lifecycle_rejection(accounts, deposits, dispute.client_id, dispute.tx_id, false) {
        Some(reason) => Some((accounts, deposits, rejected(reason, account))),
        None => match account.after_hold(deposits[dispute.tx_id].amount) {
            None => None,
            Some(next) => Some(
                (
                    accounts.insert(next.client_id, next),
                    marked_disputed(deposits, dispute.tx_id),
                    applied(next),
                ),
            ),
        },
    }
}

/// A resolve: releases the disputed amount and ends the deposit's lifecycle.
pub open spec fn resolve_step(accounts: Accounts, deposits: Deposits, resolve: Resolve) -> Option<
    Step,
> {
    let account = stored_or_fresh(accounts, resolve.client_id);
    match lifecycle_rejection(accounts, deposits, resolve.client_id, resolve.tx_id, true) {
        Some(reason) => Some((accounts, deposits, rejected(reason, account))),
        None => match account.after_release(deposits[resolve.tx_id].amount) {
            None => None,
            Some(next) => Some(
                (accounts.insert(next.client_id, next), deposits.remove(resolve.tx_id), applied(next)),
            ),
        },
    }
}

/// A chargeback: removes the disputed amount for good, freezes the account
/// and ends the deposit's lifecycle.
pub open spec fn chargeback_step(
    accounts: Accounts,
    deposits: Deposits,
    chargeback: ChargeBack,
) -> Option<Step> {
    let account = stored_or_fresh(accounts, chargeback.client_id);
    match lifecycle_rejection(accounts, deposits, chargeback.client_id, chargeback.tx_id, true) {
        Some(reason) => Some((accounts, deposits, rejected(reason, account))),
        None => match account.after_chargeback(deposits[chargeback.tx_id].amount) {
            None => None,
            Some(next) => Some(
                (
                    accounts.insert(next.client_id, next),
                    deposits.remove(chargeback.tx_id),
                    applied(next),
                ),
            ),
        },
    }
}

/// Whether the instruction reaches the transaction id registry: a deposit or
/// withdrawal that passes its other checks.
pub open spec fn consults_registry(accounts: Accounts, instruction: Instruction) -> bool {
    let account = stored_or_fresh(accounts, instruction.client());
    match instruction {
        Instruction::Deposit(d) => !(d.amount@ < 0) && !account.locked,
        Instruction::Withdrawal(w) => !(w.amount@ < 0) && !account.locked && account.available@
            >= w.amount@,
        _ => false,
    }
}

/// One instruction applied to the stores, given whether the registry admits
/// its transaction id (consulted by deposits and withdrawals only, after
/// their other checks pass). `None` where the decimal arithmetic overflows.
pub open spec fn step(
    accounts: Accounts,
    deposits: Deposits,
    instruction: Instruction,
    admitted: bool,
) -> Option<Step> {
    match instruction {
        Instruction::Deposit(d) => deposit_step(accounts, deposits, d, admitted),
        Instruction::Withdrawal(w) => withdrawal_step(accounts, deposits, w, admitted),
        Instruction::Dispute(d) => dispute_step(accounts, deposits, d),
        Instruction::Resolve(r) => resolve_step(accounts, deposits, r),
        Instruction::ChargeBack(c) => chargeback_step(accounts, deposits, c),
    }
}

/// How one instruction moves the transaction id registry. An instruction
/// that does not consult it, or whose id it refuses, leaves it as it was. A
/// registry that answers by its own reserved set (`exclusive`) gains the id
/// when consulted, and admits it exactly when it was not reserved before.
pub open spec fn registry_follows<R: TransactionIdRegistry>(
    accounts: Accounts,
    instruction: Instruction,
    result: Option<InstructionResult>,
    before: R,
    after: R,
) -> bool {
    let consults = consults_registry(accounts, instruction);
    let admitted = match result {
        Some(r) => admitted_by(r),
        None => true,
    };
    &&& !consults || !admitted ==> after == before
    &&& R::exclusive() && consults ==> after.reserved() == before.reserved().insert(
        instruction.transaction_id(),
    )
    &&& R::exclusive() && consults ==> admitted == !before.reserved().contains(
        instruction.transaction_id(),
    )
}

/// Everything an engine needs to start, bundled into one value.
pub struct EngineParams<A: AccountProvider, T: TransactionLedger, R: TransactionIdRegistry> {
    pub accounts: A,
    pub transactions: T,
    pub transaction_ids: R,
}

/// Owns one shard's engine state and applies instructions one at a time.
pub struct Engine<A: AccountProvider, T: TransactionLedger, R: TransactionIdRegistry> {
    accounts: A,
    transactions: T,
    transaction_ids: R,
}

impl<A: AccountProvider, T: TransactionLedger, R: TransactionIdRegistry> Engine<A, T, R> {
    /// The stored accounts.
    pub closed spec fn account_map(&self) -> Accounts {
        self.accounts.accounts()
    }

    /// The tracked disputable deposits.
    pub closed spec fn deposit_map(&self) -> Deposits {
        self.transactions.deposits()
    }

    /// The transaction id registry.
    pub closed spec fn registry(&self) -> R {
        self.transaction_ids
    }

    pub fn new(accounts: A, transactions: T, transaction_ids: R) -> (r: Self)
        ensures
            r.account_map() == accounts.accounts(),
            r.deposit_map() == transactions.deposits(),
            r.registry() == transaction_ids,
    {
        Engine { accounts, transactions, transaction_ids }
    }

    pub fn from_params(params: EngineParams<A, T, R>) -> (r: Self)
        ensures
            r.account_map() == params.accounts.accounts(),
            r.deposit_map() == params.transactions.deposits(),
            r.registry() == params.transaction_ids,
    {
        let EngineParams { accounts, transactions, transaction_ids } = params;
        Engine { accounts, transactions, transaction_ids }
    }

    /// Applies one instruction and returns its outcome with the client's
    /// resulting account; `None` where the decimal arithmetic overflows
    /// (the account and the ledger are then unchanged).
    ///
    /// The registry's answer on the transaction id is read back from the
    /// result: `DuplicateTransaction` exactly when it refused. Every result
    /// carries the instruction's own client; a rejected instruction reports
    /// that client's account as it stands and changes nothing: neither the
    /// accounts, nor the ledger, nor the registry, shared or not.
    pub fn apply(&mut self, instruction: Instruction) -> (result: Option<InstructionResult>)
        ensures
            match result {
                Some(r) => step(
                    old(self).account_map(),
                    old(self).deposit_map(),
                    instruction,
                    admitted_by(r),
                ) == Some((final(self).account_map(), final(self).deposit_map(), r)),
                None => {
                    &&& step(old(self).account_map(), old(self).deposit_map(), instruction, true)
                        is None
                    &&& final(self).account_map() == old(self).account_map()
                    &&& final(self).deposit_map() == old(self).deposit_map()
                },
            },
            registry_follows(
                old(self).account_map(),
                instruction,
                result,
                old(self).registry(),
                final(self).registry(),
            ),
            keyed(old(self).account_map()),
            keyed(final(self).account_map()),
            result matches Some(r) ==> r.account.client_id == instruction.client(),
            result matches Some(r) ==> (r.outcome is Rejected ==> {
                &&& r.account == stored_or_fresh(old(self).account_map(), instruction.client())
                &&& final(self).account_map() == old(self).account_map()
                &&& final(self).deposit_map() == old(self).deposit_map()
                &&& final(self).registry() == old(self).registry()
            }),
            R::exclusive() && (instruction is Deposit || instruction is Withdrawal)
                && old(self).registry().reserved().contains(instruction.transaction_id()) ==> {
                &&& result matches Some(r) && r.outcome is Rejected
                &&& final(self).account_map() == old(self).account_map()
                &&& final(self).deposit_map() == old(self).deposit_map()
            },
    {
        match instruction {
            Instruction::Deposit(deposit) => self.apply_deposit(deposit),
            Instruction::Withdrawal(withdrawal) => self.apply_withdrawal(withdrawal),
            Instruction::Dispute(dispute) => self.apply_dispute(dispute),
            Instruction::Resolve(resolve) => self.apply_resolve(resolve),
            Instruction::ChargeBack(chargeback) => self.apply_chargeback(chargeback),
        }
    }

    fn apply_deposit(&mut self, deposit: Deposit) -> (result: Option<InstructionResult>)
        ensures
            match result {
                Some(r) => deposit_step(
                    old(self).account_map(),
                    old(self).deposit_map(),
                    deposit,
                    admitted_by(r),
                ) == Some((final(self).account_map(), final(self).deposit_map(), r)),
                None => {
                    &&& deposit_step(old(self).account_map(), old(self).deposit_map(), deposit, true)
                        is None
                    &&& final(self).account_map() == old(self).account_map()
                    &&& final(self).deposit_map() == old(self).deposit_map()
                },
            },
            registry_follows(
                old(self).account_map(),
                Instruction::Deposit(deposit),
                result,
                old(self).registry(),
                final(self).registry(),
            ),
            keyed(old(self).account_map()),
            keyed(final(self).account_map()),
    {
        let account = self.accounts.get(deposit.client_id);

        if deposit.amount.is_negative() {
            return Some(InstructionResult {
                outcome: InstructionOutcome::Rejected { reason: RejectionReason::InvalidAmount },
                account,
            });
        }

        if account.locked {
            return Some(InstructionResult {
                outcome: InstructionOutcome::Rejected { reason: RejectionReason::AccountLocked },
                account,
            });
        }

        let admitted = self.transaction_ids.reserve(deposit.tx_id);
        self.finish_deposit(deposit, account, admitted)
    }

    /// The rest of a deposit that passed its own checks, once the registry
    /// has answered on its id: `DuplicateTransaction` if it refused, else the
    /// account is credited and the deposit recorded as disputable.
    pub(crate) fn finish_deposit(&mut self, deposit: Deposit, account: Account, admitted: bool) -> (result:
        Option<InstructionResult>)
        requires
            account == stored_or_fresh(old(self).account_map(), deposit.client_id),
            consults_registry(old(self).account_map(), Instruction::Deposit(deposit)),
        ensures
            final(self).registry() == old(self).registry(),
            match result {
                Some(r) => deposit_step(old(self).account_map(), old(self).deposit_map(), deposit, admitted)
                    == Some((final(self).account_map(), final(self).deposit_map(), r)),
                None => {
                    &&& deposit_step(old(self).account_map(), old(self).deposit_map(), deposit, admitted)
                        is None
                    &&& final(self).account_map() == old(self).account_map()
                    &&& final(self).deposit_map() == old(self).deposit_map()
                },
            },
    {
        if !admitted {
            return Some(InstructionResult {
                outcome: InstructionOutcome::Rejected {
                    reason: RejectionReason::DuplicateTransaction,
                },
                account,
            });
        }

        let account = match account.checked_credit(deposit.amount) {
            Some(next) => next,
            None => {
                return None;
            },
        };
        self.accounts.save(account);
        self.transactions.record_deposit(deposit.tx_id, deposit.client_id, deposit.amount);

        Some(InstructionResult { outcome: InstructionOutcome::Applied, account })
    }

    fn apply_withdrawal(&mut self, withdrawal: Withdrawal) -> (result: Option<InstructionResult>)
        ensures
            match result {
                Some(r) => withdrawal_step(
                    old(self).account_map(),
                    old(self).deposit_map(),
                    withdrawal,
                    admitted_by(r),
                ) == Some((final(self).account_map(), final(self).deposit_map(), r)),
                None => {
                    &&& withdrawal_step(old(self).account_map(), old(self).deposit_map(), withdrawal, true)
                        is None
                    &&& final(self).account_map() == old(self).account_map()
                    &&& final(self).deposit_map() == old(self).deposit_map()
                },
            },
            registry_follows(
                old(self).account_map(),
                Instruction::Withdrawal(withdrawal),
                result,
                old(self).registry(),
                final(self).registry(),
            ),
            keyed(old(self).account_map()),
            keyed(final(self).account_map()),
    {
        let account = self.accounts.get(withdrawal.client_id);

        if withdrawal.amount.is_negative() {
            return Some(InstructionResult {
                outcome: InstructionOutcome::Rejected { reason: RejectionReason::InvalidAmount },
                account,
            });
        }

        if account.locked {
            return Some(InstructionResult {
                outcome: InstructionOutcome::Rejected { reason: RejectionReason::AccountLocked },
                account,
            });
        }

        if !account.has_sufficient_available_funds(withdrawal.amount) {
            return Some(InstructionResult {
                outcome: InstructionOutcome::Rejected {
                    reason: RejectionReason::InsufficientFunds,
                },
                account,
            });
        }

        let admitted = self.transaction_ids.reserve(withdrawal.tx_id);
        self.finish_withdrawal(withdrawal, account, admitted)
    }

    /// The rest of a withdrawal that passed its own checks, once the registry
    /// has answered on its id: `DuplicateTransaction` if it refused, else the
    /// account is debited.
    pub(crate) fn finish_withdrawal(&mut self, withdrawal: Withdrawal, account: Account, admitted: bool) -> (result:
        Option<InstructionResult>)
        requires
            account == stored_or_fresh(old(self).account_map(), withdrawal.client_id),
            consults_registry(old(self).account_map(), Instruction::Withdrawal(withdrawal)),
        ensures
            final(self).registry() == old(self).registry(),
            match result {
                Some(r) => withdrawal_step(old(self).account_map(), old(self).deposit_map(), withdrawal, admitted)
                    == Some((final(self).account_map(), final(self).deposit_map(), r)),
                None => {
                    &&& withdrawal_step(old(self).account_map(), old(self).deposit_map(), withdrawal, admitted)
                        is None
                    &&& final(self).account_map() == old(self).account_map()
                    &&& final(self).deposit_map() == old(self).deposit_map()
                },
            },
    {
        if !admitted {
            return Some(InstructionResult {
                outcome: InstructionOutcome::Rejected {
                    reason: RejectionReason::DuplicateTransaction,
                },
                account,
            });
        }

        let account = match account.checked_debit(withdrawal.amount) {
            Some(next) => next,
            None => {
                return None;
            },
        };
        self.accounts.save(account);

        Some(InstructionResult { outcome: InstructionOutcome::Applied, account })
    }

    /// The tracked deposit a dispute, resolve or chargeback names, or the
    /// reason it is rejected before any arithmetic.
    fn check_lifecycle(
        &mut self,
        account: &Account,
        client_id: ClientId,
        tx_id: TransactionId,
        want_disputed: bool,
    ) -> (r: Result<DisputableTransaction, RejectionReason>)
        requires
            *account == stored_or_fresh(old(self).account_map(), client_id),
        ensures
            final(self).account_map() == old(self).account_map(),
            final(self).deposit_map() == old(self).deposit_map(),
            final(self).registry() == old(self).registry(),
            match r {
                Ok(found) => {
                    &&& lifecycle_rejection(
                        old(self).account_map(),
                        old(self).deposit_map(),
                        client_id,
                        tx_id,
                        want_disputed,
                    ) is None
                    &&& found == old(self).deposit_map()[tx_id]
                },
                Err(reason) => lifecycle_rejection(
                    old(self).account_map(),
                    old(self).deposit_map(),
                    client_id,
                    tx_id,
                    want_disputed,
                ) == Some(reason),
            },
    {
        if account.locked {
            return Err(RejectionReason::AccountLocked);
        }
        let found = match self.transactions.lookup_disputable(tx_id) {
            Some(found) => found,
            None => {
                return Err(RejectionReason::UnknownTransaction);
            },
        };
        if found.client_id != client_id {
            return Err(RejectionReason::UnknownTransaction);
        }
        if found.disputed != want_disputed {
            if want_disputed {
                return Err(RejectionReason::TransactionNotDisputed);
            } else {
                return Err(RejectionReason::TransactionAlreadyDisputed);
            }
        }
        Ok(found)
    }

    fn apply_dispute(&mut self, dispute: Dispute) -> (result: Option<InstructionResult>)
        ensures
            match result {
                Some(r) => dispute_step(old(self).account_map(), old(self).deposit_map(), dispute)
                    == Some((final(self).account_map(), final(self).deposit_map(), r)),
                None => {
                    &&& dispute_step(old(self).account_map(), old(self).deposit_map(), dispute)
                        is None
                    &&& final(self).account_map() == old(self).account_map()
                    &&& final(self).deposit_map() == old(self).deposit_map()
                },
            },
            final(self).registry() == old(self).registry(),
            keyed(old(self).account_map()),
            keyed(final(self).account_map()),
    {
        let account = self.accounts.get(dispute.client_id);
        let found = match self.check_lifecycle(&account, dispute.client_id, dispute.tx_id, false) {
            Ok(found) => found,
            Err(reason) => {
                return Some(
                    InstructionResult { outcome: InstructionOutcome::Rejected { reason }, account },
                );
            },
        };
        let account = match account.checked_hold(found.amount) {
            Some(next) => next,
            None => {
                return None;
            },
        };
        self.accounts.save(account);
        self.transactions.mark_disputed(dispute.tx_id);

        Some(InstructionResult { outcome: InstructionOutcome::Applied, account })
    }

    fn apply_resolve(&mut self, resolve: Resolve) -> (result: Option<InstructionResult>)
        ensures
            match result {
                Some(r) => resolve_step(old(self).account_map(), old(self).deposit_map(), resolve)
                    == Some((final(self).account_map(), final(self).deposit_map(), r)),
                None => {
                    &&& resolve_step(old(self).account_map(), old(self).deposit_map(), resolve)
                        is None
                    &&& final(self).account_map() == old(self).account_map()
                    &&& final(self).deposit_map() == old(self).deposit_map()
                },
            },
            final(self).registry() == old(self).registry(),
            keyed(old(self).account_map()),
            keyed(final(self).account_map()),
    {
        let account = self.accounts.get(resolve.client_id);
        let found = match self.check_lifecycle(&account, resolve.client_id, resolve.tx_id, true) {
            Ok(found) => found,
            Err(reason) => {
                return Some(
                    InstructionResult { outcome: InstructionOutcome::Rejected { reason }, account },
                );
            },
        };
        let account = match account.checked_release(found.amount) {
            Some(next) => next,
            None => {
                return None;
            },
        };
        self.accounts.save(account);
        self.transactions.remove(resolve.tx_id);

        Some(InstructionResult { outcome: InstructionOutcome::Applied, account })
    }

    fn apply_chargeback(&mut self, chargeback: ChargeBack) -> (result: Option<InstructionResult>)
        ensures
            match result {
                Some(r) => chargeback_step(
                    old(self).account_map(),
                    old(self).deposit_map(),
                    chargeback,
                ) == Some((final(self).account_map(), final(self).deposit_map(), r)),
                None => {
                    &&& chargeback_step(old(self).account_map(), old(self).deposit_map(), chargeback)
                        is None
                    &&& final(self).account_map() == old(self).account_map()
                    &&& final(self).deposit_map() == old(self).deposit_map()
                },
            },
            final(self).registry() == old(self).registry(),
            keyed(old(self).account_map()),
            keyed(final(self).account_map()),
    {
        let account = self.accounts.get(chargeback.client_id);
        let found = match self.check_lifecycle(
            &account,
            chargeback.client_id,
            chargeback.tx_id,
            true,
        ) {
            Ok(found) => found,
            Err(reason) => {
                return Some(
                    InstructionResult { outcome: InstructionOutcome::Rejected { reason }, account },
                );
            },
        };
        let account = match account.checked_chargeback(found.amount) {
            Some(next) => next,
            None => {
                return None;
            },
        };
        self.accounts.save(account);
        self.transactions.remove(chargeback.tx_id);

        Some(InstructionResult { outcome: InstructionOutcome::Applied, account })
    }
}

} // verus!
