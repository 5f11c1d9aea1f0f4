use ledger_engine::amount::Amount;
use ledger_engine::csv_row::CsvRow;
use ledger_engine::domain::{ChargeBack, Deposit, Dispute, Instruction, Resolve, Withdrawal};
use ledger_engine::parse::instruction_parser::instruction_from_normalized;
use ledger_engine::parse::parse_instruction;
use ledger_engine::parse_error::ParseError;

fn row(kind: &str, amount: Option<Amount>) -> CsvRow {
    CsvRow {
        kind: kind.to_string(),
        client: 1,
        tx: 1,
        amount,
    }
}

#[test]
fn parses_a_deposit() {
    let instruction = parse_instruction(CsvRow {
        kind: "deposit".to_string(),
        client: 1,
        tx: 1,
        amount: Some(Amount::new(15, 1)),
    })
    .unwrap();

    assert_eq!(
        instruction,
        Instruction::Deposit(Deposit {
            client_id: 1,
            tx_id: 1,
            amount: Amount::new(15, 1),
        })
    );
}

#[test]
fn trims_and_lowercases_the_type() {
    let instruction = parse_instruction(CsvRow {
        kind: " Dispute ".to_string(),
        client: 1,
        tx: 1,
        amount: None,
    })
    .unwrap();

    assert_eq!(
        instruction,
        Instruction::Dispute(Dispute {
            client_id: 1,
            tx_id: 1,
        })
    );
}

#[test]
fn rejects_an_unknown_type() {
    let error = parse_instruction(CsvRow {
        kind: "bogus".to_string(),
        client: 1,
        tx: 1,
        amount: None,
    })
    .unwrap_err();

    assert!(matches!(error, ParseError::UnknownType(kind) if kind == "bogus"));
}

#[test]
fn rejects_a_deposit_with_no_amount() {
    let error = parse_instruction(CsvRow {
        kind: "deposit".to_string(),
        client: 1,
        tx: 1,
        amount: None,
    })
    .unwrap_err();

    assert!(matches!(error, ParseError::MissingAmount));
}

#[test]
fn rejects_a_withdrawal_with_no_amount() {
    let error = parse_instruction(CsvRow {
        kind: "withdrawal".to_string(),
        client: 1,
        tx: 1,
        amount: None,
    })
    .unwrap_err();

    assert!(matches!(error, ParseError::MissingAmount));
}

#[test]
fn parses_every_kind_after_normalizing() {
    assert_eq!(
        parse_instruction(row("WITHDRAWAL", Some(Amount::new(5, 0)))).unwrap(),
        Instruction::Withdrawal(Withdrawal {
            client_id: 1,
            tx_id: 1,
            amount: Amount::new(5, 0),
        })
    );
    assert_eq!(
        parse_instruction(row("\tresolve", None)).unwrap(),
        Instruction::Resolve(Resolve { client_id: 1, tx_id: 1 })
    );
    assert_eq!(
        parse_instruction(row("ChargeBack  ", Some(Amount::new(9, 0)))).unwrap(),
        Instruction::ChargeBack(ChargeBack { client_id: 1, tx_id: 1 })
    );
}

#[test]
fn unknown_type_keeps_the_normalized_text() {
    let error = parse_instruction(row("  Refund ", None)).unwrap_err();
    assert!(matches!(&error, ParseError::UnknownType(kind) if kind == "refund"));
    assert_eq!(error.message(), "unknown instruction type \"refund\"");
}

#[test]
fn normalized_type_is_matched_exactly() {
    assert!(instruction_from_normalized("Deposit".to_string(), 1, 1, Some(Amount::new(1, 0))).is_err());
    assert!(instruction_from_normalized("dispute".to_string(), 7, 9, None).is_ok());
}

#[test]
fn error_messages() {
    assert_eq!(
        ParseError::MissingAmount.message(),
        "a deposit/withdrawal row is missing its amount"
    );
    assert_eq!(
        ParseError::UnknownType("a\"b".to_string()).message(),
        "unknown instruction type \"a\\\"b\""
    );
}
