//! What holds of the engine across instructions, proved over `step`, the
//! function that `Engine::apply` is proved to follow.
use vstd::prelude::*;

use crate::amount::{
    exactly_representable, four_place_bounded, lemma_four_place_exact, lemma_minus_exact,
    lemma_plus_exact, lemma_zero_value, Amount,
};
use crate::domain::{
    Account, ChargeBack, ClientId, Deposit, Dispute, Instruction, InstructionOutcome,
    RejectionReason, Resolve, TransactionId, Withdrawal,
};
use crate::engine_core::transaction_record::DisputableTransaction;
use crate::engine_core::account::account_provider::{keyed, stored_or_fresh};
use crate::engine_core::engine::{step, Accounts, Deposits};

verus! {

broadcast use crate::amount::Amount::lemma_with_parts, crate::amount::Amount::lemma_parts_determine;

/// Every stored account has `total = available + held`.
pub open spec fn all_balanced(accounts: Accounts) -> bool {
    forall|c: ClientId| #[trigger] accounts.contains_key(c) ==> accounts[c].balanced()
}

/// Every amount of the account is representable.
pub open spec fn account_valid(account: Account) -> bool {
    account.available.valid() && account.held.valid() && account.total.valid()
}

/// Every amount the stores hold is representable (true of every exec value).
pub open spec fn stores_valid(accounts: Accounts, deposits: Deposits) -> bool {
    &&& forall|c: ClientId| #[trigger] accounts.contains_key(c) ==> account_valid(accounts[c])
    &&& forall|t: TransactionId| #[trigger] deposits.contains_key(t) ==> deposits[t].amount.valid()
}

/// The instruction's amount, if it has one, is representable.
pub open spec fn instruction_valid(instruction: Instruction) -> bool {
    match instruction {
        Instruction::Deposit(d) => d.amount.valid(),
        Instruction::Withdrawal(w) => w.amount.valid(),
        _ => true,
    }
}

/// The amount a dispute, resolve or chargeback would move, if it names a
/// tracked deposit.
pub open spec fn lifecycle_amount(deposits: Deposits, tx_id: TransactionId) -> Amount {
    deposits[tx_id].amount
}

/// The decimal arithmetic the instruction would perform needs no rounding.
pub open spec fn exact_step(accounts: Accounts, deposits: Deposits, instruction: Instruction) -> bool {
    let account = stored_or_fresh(accounts, instruction.client());
    let a = account.available.parts();
    let h = account.held.parts();
    let t = account.total.parts();
    match instruction {
        Instruction::Deposit(d) => {
            &&& exactly_representable(a, d.amount.parts(), false)
            &&& exactly_representable(t, d.amount.parts(), false)
        },
        Instruction::Withdrawal(w) => {
            &&& exactly_representable(a, w.amount.parts(), true)
            &&& exactly_representable(t, w.amount.parts(), true)
        },
        Instruction::Dispute(d) => deposits.contains_key(d.tx_id) ==> {
            let x = lifecycle_amount(deposits, d.tx_id).parts();
            &&& exactly_representable(a, x, true)
            &&& exactly_representable(h, x, false)
        },
        Instruction::Resolve(r) => deposits.contains_key(r.tx_id) ==> {
            let x = lifecycle_amount(deposits, r.tx_id).parts();
            &&& exactly_representable(h, x, true)
            &&& exactly_representable(a, x, false)
        },
        Instruction::ChargeBack(c) => deposits.contains_key(c.tx_id) ==> {
            let x = lifecycle_amount(deposits, c.tx_id).parts();
            &&& exactly_representable(h, x, true)
            &&& exactly_representable(t, x, true)
        },
    }
}

proof fn lemma_fresh_account(client_id: ClientId)
    ensures
        Account::fresh(client_id).balanced(),
        account_valid(Account::fresh(client_id)),
        Account::fresh(client_id).available@ == 0,
        Account::fresh(client_id).held@ == 0,
        Account::fresh(client_id).total@ == 0,
{
    lemma_zero_value((0i128, 0u32));
}

proof fn lemma_stored_or_fresh(accounts: Accounts, deposits: Deposits, client_id: ClientId)
    requires
        all_balanced(accounts),
        stores_valid(accounts, deposits),
    ensures
        stored_or_fresh(accounts, client_id).balanced(),
        account_valid(stored_or_fresh(accounts, client_id)),
{
    lemma_fresh_account(client_id);
}

/// Balance law: after every instruction, applied or rejected, the result
/// account and every stored account still have `total = available + held`,
/// provided the decimal arithmetic involved needs no rounding; that
/// arithmetic then never overflows either.
pub proof fn lemma_step_keeps_balance(
    accounts: Accounts,
    deposits: Deposits,
    instruction: Instruction,
    admitted: bool,
)
    requires
        all_balanced(accounts),
        stores_valid(accounts, deposits),
        instruction_valid(instruction),
        exact_step(accounts, deposits, instruction),
    ensures
        step(accounts, deposits, instruction, admitted) is Some,
        all_balanced(step(accounts, deposits, instruction, admitted).unwrap().0),
        stores_valid(
            step(accounts, deposits, instruction, admitted).unwrap().0,
            step(accounts, deposits, instruction, admitted).unwrap().1,
        ),
        step(accounts, deposits, instruction, admitted).unwrap().2.account.balanced(),
{
    let account = stored_or_fresh(accounts, instruction.client());
    lemma_stored_or_fresh(accounts, deposits, instruction.client());
    match instruction {
        Instruction::Deposit(d) => {
            lemma_plus_exact(account.available, d.amount);
            lemma_plus_exact(account.total, d.amount);
        },
        Instruction::Withdrawal(w) => {
            lemma_minus_exact(account.available, w.amount);
            lemma_minus_exact(account.total, w.amount);
        },
        Instruction::Dispute(d) => {
            if deposits.contains_key(d.tx_id) {
                let x = lifecycle_amount(deposits, d.tx_id);
                lemma_minus_exact(account.available, x);
                lemma_plus_exact(account.held, x);
            }
        },
        Instruction::Resolve(r) => {
            if deposits.contains_key(r.tx_id) {
                let x = lifecycle_amount(deposits, r.tx_id);
                lemma_minus_exact(account.held, x);
                lemma_plus_exact(account.available, x);
            }
        },
        Instruction::ChargeBack(c) => {
            if deposits.contains_key(c.tx_id) {
                let x = lifecycle_amount(deposits, c.tx_id);
                lemma_minus_exact(account.held, x);
                lemma_minus_exact(account.total, x);
            }
        },
    }
}

/// Every amount of the account is a four-place amount.
pub open spec fn account_four_place(account: Account) -> bool {
    &&& four_place_bounded(account.available.parts())
    &&& four_place_bounded(account.held.parts())
    &&& four_place_bounded(account.total.parts())
}

/// Every amount the stores hold, and the instruction's amount if it has one,
/// is a four-place amount (at most four decimal places, within
/// `FOUR_PLACE_BOUND` at that scale).
pub open spec fn four_place_state(
    accounts: Accounts,
    deposits: Deposits,
    instruction: Instruction,
) -> bool {
    &&& forall|c: ClientId| #[trigger] accounts.contains_key(c) ==> account_four_place(accounts[c])
    &&& forall|t: TransactionId| #[trigger]
        deposits.contains_key(t) ==> four_place_bounded(deposits[t].amount.parts())
    &&& match instruction {
        Instruction::Deposit(d) => four_place_bounded(d.amount.parts()),
        Instruction::Withdrawal(w) => four_place_bounded(w.amount.parts()),
        _ => true,
    }
}

/// Four-place law: where every amount involved has at most four decimal
/// places (the precision of the input format) and stays within
/// `FOUR_PLACE_BOUND` at that scale, the instruction needs no rounding, so
/// the balance law applies to it.
pub proof fn lemma_four_place_step_is_exact(
    accounts: Accounts,
    deposits: Deposits,
    instruction: Instruction,
)
    requires
        four_place_state(accounts, deposits, instruction),
    ensures
        exact_step(accounts, deposits, instruction),
{
    let account = stored_or_fresh(accounts, instruction.client());
    assert(account_four_place(account)) by {
        if !accounts.contains_key(instruction.client()) {
            assert(crate::amount::mantissa_at((0i128, 0u32), 4) == 0);
        }
    }
    let a = account.available.parts();
    let h = account.held.parts();
    let t = account.total.parts();
    match instruction {
        Instruction::Deposit(d) => {
            lemma_four_place_exact(a, d.amount.parts(), false);
            lemma_four_place_exact(t, d.amount.parts(), false);
        },
        Instruction::Withdrawal(w) => {
            lemma_four_place_exact(a, w.amount.parts(), true);
            lemma_four_place_exact(t, w.amount.parts(), true);
        },
        Instruction::Dispute(d) => {
            if deposits.contains_key(d.tx_id) {
                let x = lifecycle_amount(deposits, d.tx_id).parts();
                lemma_four_place_exact(a, x, true);
                lemma_four_place_exact(h, x, false);
            }
        },
        Instruction::Resolve(r) => {
            if deposits.contains_key(r.tx_id) {
                let x = lifecycle_amount(deposits, r.tx_id).parts();
                lemma_four_place_exact(h, x, true);
                lemma_four_place_exact(a, x, false);
            }
        },
        Instruction::ChargeBack(c) => {
            if deposits.contains_key(c.tx_id) {
                let x = lifecycle_amount(deposits, c.tx_id).parts();
                lemma_four_place_exact(h, x, true);
                lemma_four_place_exact(t, x, true);
            }
        },
    }
}

proof fn lemma_account_before(accounts: Accounts, deposits: Deposits, client_id: ClientId)
    requires
        stores_valid(accounts, deposits),
    ensures
        account_valid(stored_or_fresh(accounts, client_id)),
{
    lemma_fresh_account(client_id);
}

/// Deposit law: a deposit of a non-negative amount to an unlocked account,
/// whose id the registry admits, is applied: `available` and `total` grow
/// by its amount, `held` is untouched, the account is stored, and the
/// ledger tracks exactly this deposit (its client, its amount, undisputed)
/// under its id. Any other deposit is rejected.
pub proof fn lemma_deposit_outcome(
    accounts: Accounts,
    deposits: Deposits,
    deposit: Deposit,
    admitted: bool,
)
    requires
        keyed(accounts),
        stores_valid(accounts, deposits),
        deposit.amount.valid(),
        exact_step(accounts, deposits, Instruction::Deposit(deposit)),
    ensures
        ({
            let before = stored_or_fresh(accounts, deposit.client_id);
            let ok = deposit.amount@ >= 0 && !before.locked && admitted;
            let r = step(accounts, deposits, Instruction::Deposit(deposit), admitted);
            &&& r is Some
            &&& (r.unwrap().2.outcome is Applied) == ok
            &&& ok ==> {
                &&& r.unwrap().2.account.available@ == before.available@ + deposit.amount@
                &&& r.unwrap().2.account.total@ == before.total@ + deposit.amount@
                &&& r.unwrap().2.account.held == before.held
                &&& !r.unwrap().2.account.locked
                &&& r.unwrap().0 == accounts.insert(deposit.client_id, r.unwrap().2.account)
                &&& r.unwrap().1 == deposits.insert(
                    deposit.tx_id,
                    DisputableTransaction {
                        client_id: deposit.client_id,
                        amount: deposit.amount,
                        disputed: false,
                    },
                )
            }
        }),
{
    let before = stored_or_fresh(accounts, deposit.client_id);
    lemma_account_before(accounts, deposits, deposit.client_id);
    lemma_plus_exact(before.available, deposit.amount);
    lemma_plus_exact(before.total, deposit.amount);
}

/// Withdrawal law: a withdrawal of a non-negative amount no larger than an
/// unlocked account's available funds, whose id the registry admits, is
/// applied whatever the account holds under dispute: `available` and
/// `total` shrink by its amount, `held` and the ledger are untouched. Any
/// other withdrawal is rejected.
pub proof fn lemma_withdrawal_outcome(
    accounts: Accounts,
    deposits: Deposits,
    withdrawal: Withdrawal,
    admitted: bool,
)
    requires
        keyed(accounts),
        stores_valid(accounts, deposits),
        withdrawal.amount.valid(),
        exact_step(accounts, deposits, Instruction::Withdrawal(withdrawal)),
    ensures
        ({
            let before = stored_or_fresh(accounts, withdrawal.client_id);
            let ok = withdrawal.amount@ >= 0 && !before.locked && before.available@
                >= withdrawal.amount@ && admitted;
            let r = step(accounts, deposits, Instruction::Withdrawal(withdrawal), admitted);
            &&& r is Some
            &&& (r.unwrap().2.outcome is Applied) == ok
            &&& ok ==> {
                &&& r.unwrap().2.account.available@ == before.available@ - withdrawal.amount@
                &&& r.unwrap().2.account.total@ == before.total@ - withdrawal.amount@
                &&& r.unwrap().2.account.held == before.held
                &&& !r.unwrap().2.account.locked
                &&& r.unwrap().0 == accounts.insert(withdrawal.client_id, r.unwrap().2.account)
                &&& r.unwrap().1 == deposits
            }
        }),
{
    let before = stored_or_fresh(accounts, withdrawal.client_id);
    lemma_account_before(accounts, deposits, withdrawal.client_id);
    lemma_minus_exact(before.available, withdrawal.amount);
    lemma_minus_exact(before.total, withdrawal.amount);
}

/// Whether a dispute (`want_disputed` false), resolve or chargeback (true)
/// by `client_id` on `tx_id` may apply: the account is unlocked, and `tx_id`
/// is a tracked deposit owned by that very client, under dispute exactly
/// when `want_disputed`.
pub open spec fn lifecycle_allowed(
    accounts: Accounts,
    deposits: Deposits,
    client_id: ClientId,
    tx_id: TransactionId,
    want_disputed: bool,
) -> bool {
    &&& !stored_or_fresh(accounts, client_id).locked
    &&& deposits.contains_key(tx_id)
    &&& deposits[tx_id].client_id == client_id
    &&& deposits[tx_id].disputed == want_disputed
}

/// Dispute law: a dispute is applied exactly when `lifecycle_allowed`
/// holds, whatever other deposits of the client are under dispute or held;
/// it moves exactly the named deposit's amount from `available` to `held`,
/// keeps `total`, and marks that deposit, and only it, disputed.
pub proof fn lemma_dispute_outcome(
    accounts: Accounts,
    deposits: Deposits,
    dispute: Dispute,
    admitted: bool,
)
    requires
        keyed(accounts),
        stores_valid(accounts, deposits),
        exact_step(accounts, deposits, Instruction::Dispute(dispute)),
    ensures
        ({
            let before = stored_or_fresh(accounts, dispute.client_id);
            let ok = lifecycle_allowed(accounts, deposits, dispute.client_id, dispute.tx_id, false);
            let x = deposits[dispute.tx_id];
            let r = step(accounts, deposits, Instruction::Dispute(dispute), admitted);
            &&& r is Some
            &&& (r.unwrap().2.outcome is Applied) == ok
            &&& ok ==> {
                &&& r.unwrap().2.account.available@ == before.available@ - x.amount@
                &&& r.unwrap().2.account.held@ == before.held@ + x.amount@
                &&& r.unwrap().2.account.total == before.total
                &&& !r.unwrap().2.account.locked
                &&& r.unwrap().0 == accounts.insert(dispute.client_id, r.unwrap().2.account)
                &&& r.unwrap().1 == deposits.insert(
                    dispute.tx_id,
                    DisputableTransaction { client_id: x.client_id, amount: x.amount, disputed: true },
                )
            }
        }),
{
    let before = stored_or_fresh(accounts, dispute.client_id);
    lemma_account_before(accounts, deposits, dispute.client_id);
    if deposits.contains_key(dispute.tx_id) {
        let x = deposits[dispute.tx_id].amount;
        lemma_minus_exact(before.available, x);
        lemma_plus_exact(before.held, x);
    }
}

/// Resolve law: a resolve is applied exactly when `lifecycle_allowed` holds
/// with the deposit under dispute, so only for the client that owns the
/// deposit; it moves exactly the deposit's amount from `held` back to
/// `available`, keeps `total`, and stops tracking the deposit.
pub proof fn lemma_resolve_outcome(
    accounts: Accounts,
    deposits: Deposits,
    resolve: Resolve,
    admitted: bool,
)
    requires
        keyed(accounts),
        stores_valid(accounts, deposits),
        exact_step(accounts, deposits, Instruction::Resolve(resolve)),
    ensures
        ({
            let before = stored_or_fresh(accounts, resolve.client_id);
            let ok = lifecycle_allowed(accounts, deposits, resolve.client_id, resolve.tx_id, true);
            let x = deposits[resolve.tx_id];
            let r = step(accounts, deposits, Instruction::Resolve(resolve), admitted);
            &&& r is Some
            &&& (r.unwrap().2.outcome is Applied) == ok
            &&& ok ==> {
                &&& r.unwrap().2.account.available@ == before.available@ + x.amount@
                &&& r.unwrap().2.account.held@ == before.held@ - x.amount@
                &&& r.unwrap().2.account.total == before.total
                &&& !r.unwrap().2.account.locked
                &&& r.unwrap().0 == accounts.insert(resolve.client_id, r.unwrap().2.account)
                &&& r.unwrap().1 == deposits.remove(resolve.tx_id)
            }
        }),
{
    let before = stored_or_fresh(accounts, resolve.client_id);
    lemma_account_before(accounts, deposits, resolve.client_id);
    if deposits.contains_key(resolve.tx_id) {
        let x = deposits[resolve.tx_id].amount;
        lemma_minus_exact(before.held, x);
        lemma_plus_exact(before.available, x);
    }
}

/// Chargeback law: a chargeback is applied exactly when `lifecycle_allowed`
/// holds with the deposit under dispute, so only for the client that owns
/// the deposit; it removes exactly the deposit's amount from `held` and
/// `total`, keeps `available`, locks the account and stops tracking the
/// deposit.
pub proof fn lemma_chargeback_outcome(
    accounts: Accounts,
    deposits: Deposits,
    chargeback: ChargeBack,
    admitted: bool,
)
    requires
        keyed(accounts),
        stores_valid(accounts, deposits),
        exact_step(accounts, deposits, Instruction::ChargeBack(chargeback)),
    ensures
        ({
            let before = stored_or_fresh(accounts, chargeback.client_id);
            let ok = lifecycle_allowed(
                accounts,
                deposits,
                chargeback.client_id,
                chargeback.tx_id,
                true,
            );
            let x = deposits[chargeback.tx_id];
            let r = step(accounts, deposits, Instruction::ChargeBack(chargeback), admitted);
            &&& r is Some
            &&& (r.unwrap().2.outcome is Applied) == ok
            &&& ok ==> {
                &&& r.unwrap().2.account.available == before.available
                &&& r.unwrap().2.account.held@ == before.held@ - x.amount@
                &&& r.unwrap().2.account.total@ == before.total@ - x.amount@
                &&& r.unwrap().2.account.locked
                &&& r.unwrap().0 == accounts.insert(chargeback.client_id, r.unwrap().2.account)
                &&& r.unwrap().1 == deposits.remove(chargeback.tx_id)
            }
        }),
{
    let before = stored_or_fresh(accounts, chargeback.client_id);
    lemma_account_before(accounts, deposits, chargeback.client_id);
    if deposits.contains_key(chargeback.tx_id) {
        let x = deposits[chargeback.tx_id].amount;
        lemma_minus_exact(before.held, x);
        lemma_minus_exact(before.total, x);
    }
}

/// Deposit-dispute law: disputing a deposit right after it was applied, by
/// the same client, is applied and moves exactly the deposited amount from
/// `available` to `held`.
pub proof fn lemma_deposit_then_dispute(accounts: Accounts, deposits: Deposits, deposit: Deposit)
    requires
        keyed(accounts),
        stores_valid(accounts, deposits),
        deposit.amount.valid(),
        exact_step(accounts, deposits, Instruction::Deposit(deposit)),
        step(accounts, deposits, Instruction::Deposit(deposit), true) matches Some(s)
            && s.2.outcome is Applied,
        ({
            let s1 = step(accounts, deposits, Instruction::Deposit(deposit), true).unwrap();
            exact_step(
                s1.0,
                s1.1,
                Instruction::Dispute(Dispute { client_id: deposit.client_id, tx_id: deposit.tx_id }),
            )
        }),
    ensures
        ({
            let s1 = step(accounts, deposits, Instruction::Deposit(deposit), true).unwrap();
            let s2 = step(
                s1.0,
                s1.1,
                Instruction::Dispute(Dispute { client_id: deposit.client_id, tx_id: deposit.tx_id }),
                true,
            );
            &&& s2 matches Some(s) && s.2.outcome is Applied
            &&& s2.unwrap().2.account.available@ == s1.2.account.available@ - deposit.amount@
            &&& s2.unwrap().2.account.held@ == s1.2.account.held@ + deposit.amount@
            &&& s2.unwrap().2.account.total == s1.2.account.total
        }),
{
    let before = stored_or_fresh(accounts, deposit.client_id);
    lemma_account_before(accounts, deposits, deposit.client_id);
    lemma_plus_exact(before.available, deposit.amount);
    lemma_plus_exact(before.total, deposit.amount);
    let s1 = step(accounts, deposits, Instruction::Deposit(deposit), true).unwrap();
    let mid = s1.2.account;
    assert(stored_or_fresh(s1.0, deposit.client_id) == mid);
    assert(s1.1[deposit.tx_id].amount == deposit.amount);
    lemma_minus_exact(mid.available, deposit.amount);
    lemma_plus_exact(mid.held, deposit.amount);
}

/// Lock law: once stored locked, an account never changes again, and every
/// instruction for its client is rejected with that account unchanged.
pub proof fn lemma_locked_account_is_frozen(
    accounts: Accounts,
    deposits: Deposits,
    instruction: Instruction,
    admitted: bool,
)
    requires
        keyed(accounts),
    ensures
        step(accounts, deposits, instruction, admitted) matches Some(s) ==> {
            &&& keyed(s.0)
            &&& forall|c: ClientId| #[trigger]
                accounts.contains_key(c) && accounts[c].locked ==> s.0.contains_key(c) && s.0[c]
                    == accounts[c]
            &&& accounts.contains_key(instruction.client()) && accounts[instruction.client()].locked
                ==> s.2.outcome is Rejected && s.2.account == accounts[instruction.client()]
        },
{
}

/// Rejection law: a rejected instruction changes neither the accounts nor
/// the ledger, and reports the client's account as it stands.
pub proof fn lemma_rejection_changes_nothing(
    accounts: Accounts,
    deposits: Deposits,
    instruction: Instruction,
    admitted: bool,
)
    ensures
        step(accounts, deposits, instruction, admitted) matches Some(s) ==> (s.2.outcome is Rejected
            ==> {
            &&& s.0 == accounts
            &&& s.1 == deposits
            &&& s.2.account == stored_or_fresh(accounts, instruction.client())
        }),
{
}

/// Record law: every instruction, applied or rejected, reports its own
/// client's account (a fresh zero-balance one if the client is new), and an
/// applied one stores exactly that account.
pub proof fn lemma_result_is_clients_account(
    accounts: Accounts,
    deposits: Deposits,
    instruction: Instruction,
    admitted: bool,
)
    requires
        keyed(accounts),
    ensures
        step(accounts, deposits, instruction, admitted) matches Some(s) ==> {
            &&& s.2.account.client_id == instruction.client()
            &&& keyed(s.0)
            &&& s.2.outcome is Applied ==> s.0 == accounts.insert(instruction.client(), s.2.account)
        },
{
}

/// Amount law: a deposit or withdrawal of a negative amount is rejected as
/// invalid, whatever else holds, and changes nothing.
pub proof fn lemma_negative_amount_is_rejected(
    accounts: Accounts,
    deposits: Deposits,
    instruction: Instruction,
    admitted: bool,
)
    requires
        match instruction {
            Instruction::Deposit(d) => d.amount@ < 0,
            Instruction::Withdrawal(w) => w.amount@ < 0,
            _ => false,
        },
    ensures
        step(accounts, deposits, instruction, admitted) == Some(
            (
                accounts,
                deposits,
                crate::engine_core::engine::rejected(
                    RejectionReason::InvalidAmount,
                    stored_or_fresh(accounts, instruction.client()),
                ),
            ),
        ),
{
}

/// Duplicate law: a deposit or withdrawal whose transaction id the registry
/// refuses is never applied and changes nothing.
pub proof fn lemma_refused_id_is_never_applied(
    accounts: Accounts,
    deposits: Deposits,
    instruction: Instruction,
)
    requires
        instruction is Deposit || instruction is Withdrawal,
    ensures
        step(accounts, deposits, instruction, false) matches Some(s) && s.2.outcome
            is Rejected && s.0 == accounts && s.1 == deposits,
{
}

/// Overdraft law: an applied withdrawal leaves `available` reduced by its
/// amount and never below zero.
pub proof fn lemma_withdrawal_never_overdraws(
    accounts: Accounts,
    deposits: Deposits,
    instruction: Instruction,
    admitted: bool,
)
    requires
        instruction is Withdrawal,
        stores_valid(accounts, deposits),
        instruction_valid(instruction),
        exact_step(accounts, deposits, instruction),
    ensures
        step(accounts, deposits, instruction, admitted) matches Some(s) ==> (s.2.outcome
            is Applied ==> {
            &&& s.2.account.available@ == stored_or_fresh(accounts, instruction.client()).available@
                - instruction->Withdrawal_0.amount@
            &&& s.2.account.available@ >= 0
        }),
{
    let account = stored_or_fresh(accounts, instruction.client());
    lemma_fresh_account(instruction.client());
    let w = instruction->Withdrawal_0;
    lemma_minus_exact(account.available, w.amount);
    lemma_minus_exact(account.total, w.amount);
}

/// Dispute-resolve law: a resolve right after a dispute of the same deposit
/// is applied, returns the client's `available`, `held` and `total` to their
/// values before the dispute, and ends the deposit's lifecycle.
pub proof fn lemma_dispute_then_resolve(
    accounts: Accounts,
    deposits: Deposits,
    client_id: ClientId,
    tx_id: TransactionId,
)
    requires
        keyed(accounts),
        stores_valid(accounts, deposits),
        step(accounts, deposits, Instruction::Dispute(Dispute { client_id, tx_id }), true) matches Some(
            s,
        ) && s.2.outcome is Applied,
        exact_step(accounts, deposits, Instruction::Dispute(Dispute { client_id, tx_id })),
    ensures
        ({
            let before = stored_or_fresh(accounts, client_id);
            let s1 = step(accounts, deposits, Instruction::Dispute(Dispute { client_id, tx_id }), true).unwrap();
            let s2 = step(s1.0, s1.1, Instruction::Resolve(Resolve { client_id, tx_id }), true);
            &&& exact_step(s1.0, s1.1, Instruction::Resolve(Resolve { client_id, tx_id })) ==> {
                &&& s2 matches Some(s) && s.2.outcome is Applied
                &&& s2.unwrap().2.account.available@ == before.available@
                &&& s2.unwrap().2.account.held@ == before.held@
                &&& s2.unwrap().2.account.total@ == before.total@
                &&& !s2.unwrap().2.account.locked
                &&& !s2.unwrap().1.contains_key(tx_id)
            }
        }),
{
    let before = stored_or_fresh(accounts, client_id);
    lemma_fresh_account(client_id);
    let x = deposits[tx_id].amount;
    lemma_minus_exact(before.available, x);
    lemma_plus_exact(before.held, x);
    let s1 = step(accounts, deposits, Instruction::Dispute(Dispute { client_id, tx_id }), true).unwrap();
    let mid = s1.2.account;
    assert(stored_or_fresh(s1.0, client_id) == mid);
    assert(s1.1[tx_id].amount == x);
    if exact_step(s1.0, s1.1, Instruction::Resolve(Resolve { client_id, tx_id })) {
        lemma_minus_exact(mid.held, x);
        lemma_plus_exact(mid.available, x);
    }
}

/// Dispute-chargeback law: a chargeback right after a dispute of the same
/// deposit is applied, removes the deposit's amount from `total`, returns
/// `held` to its value before the dispute, leaves `available` as the dispute
/// left it, freezes the account, and ends the deposit's lifecycle.
pub proof fn lemma_dispute_then_chargeback(
    accounts: Accounts,
    deposits: Deposits,
    client_id: ClientId,
    tx_id: TransactionId,
)
    requires
        keyed(accounts),
        stores_valid(accounts, deposits),
        step(accounts, deposits, Instruction::Dispute(Dispute { client_id, tx_id }), true) matches Some(
            s,
        ) && s.2.outcome is Applied,
        exact_step(accounts, deposits, Instruction::Dispute(Dispute { client_id, tx_id })),
    ensures
        ({
            let before = stored_or_fresh(accounts, client_id);
            let x = deposits[tx_id].amount;
            let s1 = step(accounts, deposits, Instruction::Dispute(Dispute { client_id, tx_id }), true).unwrap();
            let s2 = step(s1.0, s1.1, Instruction::ChargeBack(ChargeBack { client_id, tx_id }), true);
            &&& exact_step(s1.0, s1.1, Instruction::ChargeBack(ChargeBack { client_id, tx_id })) ==> {
                &&& s2 matches Some(s) && s.2.outcome is Applied
                &&& s2.unwrap().2.account.available@ == before.available@ - x@
                &&& s2.unwrap().2.account.held@ == before.held@
                &&& s2.unwrap().2.account.total@ == before.total@ - x@
                &&& s2.unwrap().2.account.locked
                &&& !s2.unwrap().1.contains_key(tx_id)
            }
        }),
{
    let before = stored_or_fresh(accounts, client_id);
    lemma_fresh_account(client_id);
    let x = deposits[tx_id].amount;
    lemma_minus_exact(before.available, x);
    lemma_plus_exact(before.held, x);
    let s1 = step(accounts, deposits, Instruction::Dispute(Dispute { client_id, tx_id }), true).unwrap();
    let mid = s1.2.account;
    assert(stored_or_fresh(s1.0, client_id) == mid);
    assert(s1.1[tx_id].amount == x);
    if exact_step(s1.0, s1.1, Instruction::ChargeBack(ChargeBack { client_id, tx_id })) {
        lemma_minus_exact(mid.held, x);
        lemma_minus_exact(mid.total, x);
    }
}

/// Double-dispute law: once a deposit is under dispute, disputing it again
/// is rejected as already disputed and changes nothing, so its funds are
/// never held twice.
pub proof fn lemma_no_double_dispute(
    accounts: Accounts,
    deposits: Deposits,
    client_id: ClientId,
    tx_id: TransactionId,
)
    requires
        keyed(accounts),
        step(accounts, deposits, Instruction::Dispute(Dispute { client_id, tx_id }), true) matches Some(
            s,
        ) && s.2.outcome is Applied,
    ensures
        ({
            let s1 = step(accounts, deposits, Instruction::Dispute(Dispute { client_id, tx_id }), true).unwrap();
            step(s1.0, s1.1, Instruction::Dispute(Dispute { client_id, tx_id }), true) == Some(
                (
                    s1.0,
                    s1.1,
                    crate::engine_core::engine::rejected(
                        RejectionReason::TransactionAlreadyDisputed,
                        s1.2.account,
                    ),
                ),
            )
        }),
{
}

/// Lifecycle-end law: once a resolve or a chargeback is applied, the deposit
/// is no longer tracked, so no dispute, resolve or chargeback can apply to
/// it again.
pub proof fn lemma_ended_lifecycle_is_final(
    accounts: Accounts,
    deposits: Deposits,
    instruction: Instruction,
    next: Instruction,
    admitted: bool,
)
    requires
        instruction is Resolve || instruction is ChargeBack,
        step(accounts, deposits, instruction, admitted) matches Some(s) && s.2.outcome is Applied,
        match (instruction, next) {
            (Instruction::Resolve(r), Instruction::Dispute(d)) => r.tx_id == d.tx_id,
            (Instruction::Resolve(r), Instruction::Resolve(d)) => r.tx_id == d.tx_id,
            (Instruction::Resolve(r), Instruction::ChargeBack(d)) => r.tx_id == d.tx_id,
            (Instruction::ChargeBack(r), Instruction::Dispute(d)) => r.tx_id == d.tx_id,
            (Instruction::ChargeBack(r), Instruction::Resolve(d)) => r.tx_id == d.tx_id,
            (Instruction::ChargeBack(r), Instruction::ChargeBack(d)) => r.tx_id == d.tx_id,
            _ => false,
        },
    ensures
        ({
            let s1 = step(accounts, deposits, instruction, admitted).unwrap();
            step(s1.0, s1.1, next, admitted) matches Some(s) && s.2.outcome is Rejected
        }),
{
}

/// Withdrawal law: a withdrawal never touches the dispute ledger, so a
/// dispute naming a withdrawal's id (never a tracked deposit) is rejected as
/// unknown.
pub proof fn lemma_withdrawals_are_not_disputable(
    accounts: Accounts,
    deposits: Deposits,
    instruction: Instruction,
    admitted: bool,
    client_id: ClientId,
)
    requires
        instruction is Withdrawal,
        !deposits.contains_key(instruction->Withdrawal_0.tx_id),
    ensures
        step(accounts, deposits, instruction, admitted) matches Some(s) ==> {
            &&& s.1 == deposits
            &&& step(
                s.0,
                s.1,
                Instruction::Dispute(Dispute { client_id, tx_id: instruction->Withdrawal_0.tx_id }),
                admitted,
            ) matches Some(s2) && (s2.2.outcome == InstructionOutcome::Rejected {
                reason: RejectionReason::UnknownTransaction,
            } || s2.2.outcome == InstructionOutcome::Rejected {
                reason: RejectionReason::AccountLocked,
            })
        },
{
}

} // verus!
