use ledger_engine::account_row::AccountRow;
use ledger_engine::amount::Amount;
use ledger_engine::domain::{
    Account, ChargeBack, Deposit, Dispute, Instruction, InstructionOutcome, RejectionReason,
    Resolve, Withdrawal,
};
use ledger_engine::engine_core::routing::shard_index;
use ledger_engine::engine_core::{
    AccountProvider, Engine, InMemoryAccountProvider, InMemoryTransactionIdRegistry,
    InMemoryTransactionLedger, TransactionIdRegistry, TransactionLedger,
};

fn dec(mantissa: i64, scale: u32) -> Amount {
    Amount::new(mantissa, scale)
}

#[test]
fn amounts_compare_by_value() {
    assert_eq!(dec(10, 1), dec(1, 0));
    assert_eq!(dec(0, 5), Amount::zero());
    assert_ne!(dec(15, 1), dec(15, 2));
    assert!(dec(-1, 4).is_negative());
    assert!(!dec(0, 3).is_negative());
}

#[test]
fn amount_parts_are_checked() {
    assert!(Amount::from_parts(1, 29).is_none());
    assert!(Amount::from_parts(1 << 96, 0).is_none());
    assert!(Amount::from_parts(-(1 << 96), 0).is_none());
    let max = Amount::from_parts((1 << 96) - 1, 28).unwrap();
    assert_eq!(max.mantissa(), (1 << 96) - 1);
    assert_eq!(max.scale(), 28);
}

#[test]
fn account_arithmetic() {
    let account = Account::new(9);
    assert_eq!(account.client_id, 9);
    assert_eq!(account.total, Amount::zero());
    assert!(!account.locked);

    let mut account = account.checked_credit(dec(25, 1)).unwrap();
    assert_eq!(account.available, dec(25, 1));
    assert_eq!(account.total, dec(25, 1));
    assert!(account.has_sufficient_available_funds(dec(25, 1)));
    assert!(!account.has_sufficient_available_funds(dec(2501, 3)));

    account.debit(dec(5, 1));
    assert_eq!(account.available, dec(2, 0));
    assert_eq!(account.total, dec(2, 0));

    account.hold(dec(3, 0));
    assert_eq!(account.available, dec(-1, 0));
    assert_eq!(account.held, dec(3, 0));
    assert_eq!(account.total, dec(2, 0));

    let released = account.checked_release(dec(1, 0)).unwrap();
    assert_eq!(released.available, dec(0, 0));
    assert_eq!(released.held, dec(2, 0));

    account.chargeback(dec(3, 0));
    assert_eq!(account.held, dec(0, 0));
    assert_eq!(account.total, dec(-1, 0));
    assert!(account.locked);

    let mut credited = Account::new(1);
    credited.credit(dec(7, 2));
    assert_eq!(credited.available, dec(7, 2));
}

#[test]
fn account_arithmetic_reports_overflow() {
    let max = Amount::from_parts((1 << 96) - 1, 0).unwrap();
    let full = Account::new(1).checked_credit(max).unwrap();
    assert!(full.checked_credit(dec(1, 0)).is_none());
    assert!(full.checked_hold(dec(-1, 0)).is_none());
    assert!(full.checked_debit(dec(1, 0)).is_some());
}

#[test]
fn account_row_renames_the_client_column() {
    let mut account = Account::new(3);
    account.credit(dec(125, 2));
    let row = AccountRow::from(account);
    assert_eq!(row.client, 3);
    assert_eq!(row.available, dec(125, 2));
    assert_eq!(row.held, Amount::zero());
    assert_eq!(row.total, dec(125, 2));
    assert!(!row.locked);
}

#[test]
fn negative_amounts_are_rejected_as_invalid() {
    let mut engine = Engine::new(
        InMemoryAccountProvider::new(),
        InMemoryTransactionLedger::new(),
        InMemoryTransactionIdRegistry::new(),
    );
    let result = engine
        .apply(Instruction::Deposit(Deposit {
            client_id: 1,
            tx_id: 1,
            amount: dec(-1, 2),
        }))
        .unwrap();
    assert_eq!(
        result.outcome,
        InstructionOutcome::Rejected {
            reason: RejectionReason::InvalidAmount
        }
    );
    let result = engine
        .apply(Instruction::Withdrawal(Withdrawal {
            client_id: 1,
            tx_id: 1,
            amount: dec(-1, 2),
        }))
        .unwrap();
    assert_eq!(
        result.outcome,
        InstructionOutcome::Rejected {
            reason: RejectionReason::InvalidAmount
        }
    );
    // The id was never reserved by the rejected instructions.
    let result = engine
        .apply(Instruction::Deposit(Deposit {
            client_id: 1,
            tx_id: 1,
            amount: dec(1, 2),
        }))
        .unwrap();
    assert_eq!(result.outcome, InstructionOutcome::Applied);
}

#[test]
fn registry_admits_each_id_once() {
    let mut registry = InMemoryTransactionIdRegistry::new();
    assert!(registry.reserve(7));
    assert!(!registry.reserve(7));
    assert!(registry.reserve(8));
    assert!(!registry.reserve(7));
}

#[test]
fn in_memory_stores() {
    let mut accounts = InMemoryAccountProvider::default();
    let fresh = accounts.get(5);
    assert_eq!(fresh, Account::new(5));
    let mut changed = fresh;
    changed.credit(dec(1, 0));
    accounts.save(changed);
    assert_eq!(accounts.get(5), changed);

    let mut ledger = InMemoryTransactionLedger::default();
    assert!(ledger.lookup_disputable(1).is_none());
    ledger.record_deposit(1, 5, dec(2, 0));
    let found = ledger.lookup_disputable(1).unwrap();
    assert_eq!(found.client_id, 5);
    assert_eq!(found.amount, dec(2, 0));
    assert!(!found.disputed);
    ledger.mark_disputed(1);
    assert!(ledger.lookup_disputable(1).unwrap().disputed);
    ledger.mark_disputed(2);
    assert!(ledger.lookup_disputable(2).is_none());
    ledger.remove(1);
    assert!(ledger.lookup_disputable(1).is_none());
}

#[test]
fn instructions_route_by_client() {
    let deposit = Instruction::Deposit(Deposit {
        client_id: 6,
        tx_id: 1,
        amount: dec(1, 0),
    });
    let dispute = Instruction::Dispute(Dispute { client_id: 6, tx_id: 1 });
    let resolve = Instruction::Resolve(Resolve { client_id: 7, tx_id: 1 });
    let chargeback = Instruction::ChargeBack(ChargeBack { client_id: 6, tx_id: 1 });
    assert_eq!(shard_index(&deposit, 4), 2);
    assert_eq!(shard_index(&dispute, 4), 2);
    assert_eq!(shard_index(&chargeback, 4), 2);
    assert_eq!(shard_index(&resolve, 4), 3);
    assert_eq!(shard_index(&resolve, 1), 0);
    assert_eq!(deposit.client_id(), 6);
}

#[test]
fn instruction_equality_compares_amounts_by_value() {
    let a = Instruction::Withdrawal(Withdrawal {
        client_id: 1,
        tx_id: 2,
        amount: dec(10, 1),
    });
    let b = Instruction::Withdrawal(Withdrawal {
        client_id: 1,
        tx_id: 2,
        amount: dec(1, 0),
    });
    assert_eq!(a, b);
    assert_ne!(a, Instruction::Dispute(Dispute { client_id: 1, tx_id: 2 }));
}
