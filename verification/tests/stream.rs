use std::str::FromStr;

use ledger_engine::amount::Amount;
use ledger_engine::csv_row::CsvRow;
use ledger_engine::domain::{Account, Instruction};
use ledger_engine::engine_core::{
    Engine, InMemoryAccountProvider, InMemoryTransactionIdRegistry, InMemoryTransactionLedger,
};
use ledger_engine::parse::parse_instruction;
use ledger_engine::parse_error::ParseError;
use ledger_engine::report::AccountStatusReport;
use rust_decimal::Decimal;

/// What one CSV row became: an instruction, a row the engine rejects as
/// malformed, or a CSV-level failure.
#[derive(Debug)]
enum RowOutcome {
    Instruction(Instruction),
    Row(ParseError),
    Csv(String),
}

/// Reads `text` as the instruction stream does: trimmed, flexible CSV with a
/// header, `type, client, tx, amount`.
///
/// The stream reader, the command line and the report writer are part of the
/// application, which tests cannot link against; this reader feeds the same
/// CSV settings into the library's `parse_instruction`, and the tests compare
/// the resulting account values rather than the printed report text.
fn read_rows(text: &str) -> Vec<RowOutcome> {
    let mut reader = csv::ReaderBuilder::new()
        .trim(csv::Trim::All)
        .flexible(true)
        .from_reader(text.as_bytes());
    let mut outcomes = Vec::new();
    for record in reader.records() {
        let record = match record {
            Ok(record) => record,
            Err(error) => {
                outcomes.push(RowOutcome::Csv(error.to_string()));
                continue;
            }
        };
        let client = record.get(1).and_then(|field| field.parse::<u16>().ok());
        let tx = record.get(2).and_then(|field| field.parse::<u32>().ok());
        let amount = match record.get(3).filter(|field| !field.is_empty()) {
            None => Ok(None),
            Some(field) => Decimal::from_str(field)
                .map_err(|error| error.to_string())
                .map(|d| Amount::from_parts(d.mantissa(), d.scale())),
        };
        let (Some(client), Some(tx), Ok(amount)) = (client, tx, amount) else {
            outcomes.push(RowOutcome::Csv("malformed field".to_string()));
            continue;
        };
        let row = CsvRow {
            kind: record.get(0).unwrap_or("").to_string(),
            client,
            tx,
            amount,
        };
        outcomes.push(match parse_instruction(row) {
            Ok(instruction) => RowOutcome::Instruction(instruction),
            Err(error) => RowOutcome::Row(error),
        });
    }
    outcomes
}

/// Streams `text` through a fresh engine and returns the final account of
/// every client that appeared, sorted by client id.
fn process(text: &str) -> Vec<Account> {
    let mut engine = Engine::new(
        InMemoryAccountProvider::new(),
        InMemoryTransactionLedger::new(),
        InMemoryTransactionIdRegistry::new(),
    );
    let mut report = AccountStatusReport::new();
    for outcome in read_rows(text) {
        if let RowOutcome::Instruction(instruction) = outcome {
            let result = engine.apply(instruction).expect("no decimal overflow");
            report.record(result.account);
        }
    }
    let mut accounts = report.into_accounts();
    accounts.sort_by_key(|account| account.client_id);
    accounts
}

fn dec(mantissa: i64, scale: u32) -> Amount {
    Amount::new(mantissa, scale)
}

const BRIEF_EXAMPLE: &str = "type, client, tx, amount\n\
     deposit, 1, 1, 1.0\n\
     deposit, 2, 2, 2.0\n\
     deposit, 1, 3, 2.0\n\
     withdrawal, 1, 4, 1.5\n\
     withdrawal, 2, 5, 3.0\n";

const DISPUTE_LIFECYCLE: &str = "type, client, tx, amount\n\
     deposit, 1, 1, 5.0\n\
     dispute, 1, 1,\n\
     resolve, 1, 1,\n\
     deposit, 2, 2, 3.0\n\
     dispute, 2, 2,\n\
     chargeback, 2, 2,\n";

const BAD_ROWS: &str = "type, client, tx, amount\n\
     deposit, 1, 1, 1.0\n\
     bogus, 2, 2, 1.0\n\
     deposit, 3, 3, notanumber\n";

#[test]
fn streams_valid_rows_and_skips_bad_ones() {
    let results = read_rows(
        "type, client, tx, amount\n\
         deposit, 1, 1, 1.0\n\
         bogus, 2, 2, 1.0\n\
         deposit, 3, 3, notanumber\n\
         withdrawal, 1, 4, 0.5\n",
    );

    assert_eq!(results.len(), 4);
    assert!(matches!(results[0], RowOutcome::Instruction(_)));
    assert!(matches!(
        &results[1],
        RowOutcome::Row(ParseError::UnknownType(kind)) if kind == "bogus"
    ));
    assert!(matches!(&results[2], RowOutcome::Csv(_)));
    assert!(matches!(results[3], RowOutcome::Instruction(_)));
}

#[test]
fn matches_the_brief_example() {
    let accounts = process(BRIEF_EXAMPLE);

    assert_eq!(accounts.len(), 2);

    assert_eq!(accounts[0].client_id, 1);
    assert_eq!(accounts[0].available, dec(15, 1));
    assert_eq!(accounts[0].held, dec(0, 0));
    assert_eq!(accounts[0].total, dec(15, 1));
    assert!(!accounts[0].locked);

    assert_eq!(accounts[1].client_id, 2);
    assert_eq!(accounts[1].available, dec(20, 1));
    assert_eq!(accounts[1].held, dec(0, 0));
    assert_eq!(accounts[1].total, dec(20, 1));
    assert!(!accounts[1].locked);
}

#[test]
fn stream_generator_tests_dispute_resolve_and_chargeback_lifecycle() {
    let accounts = process(DISPUTE_LIFECYCLE);

    assert_eq!(accounts.len(), 2);

    assert_eq!(accounts[0].client_id, 1);
    assert_eq!(accounts[0].available, dec(50, 1));
    assert_eq!(accounts[0].held, dec(0, 0));
    assert_eq!(accounts[0].total, dec(50, 1));
    assert!(!accounts[0].locked);

    assert_eq!(accounts[1].client_id, 2);
    assert_eq!(accounts[1].available, dec(0, 0));
    assert_eq!(accounts[1].held, dec(0, 0));
    assert_eq!(accounts[1].total, dec(0, 0));
    assert!(accounts[1].locked);
}

#[test]
fn bad_rows_are_skipped_not_fatal() {
    let accounts = process(BAD_ROWS);

    assert_eq!(accounts.len(), 1);
    assert_eq!(accounts[0].client_id, 1);
    assert_eq!(accounts[0].total, dec(10, 1));
}

#[test]
fn basic_deposits_and_withdrawals() {
    let accounts = process(BRIEF_EXAMPLE);

    assert_eq!(accounts.len(), 2);
    assert_eq!(accounts[0].available, dec(15, 1));
    assert_eq!(accounts[0].held, dec(0, 0));
    assert_eq!(accounts[0].total, dec(15, 1));
    assert!(!accounts[0].locked);
    assert_eq!(accounts[1].available, dec(2, 0));
    assert_eq!(accounts[1].held, dec(0, 0));
    assert_eq!(accounts[1].total, dec(2, 0));
    assert!(!accounts[1].locked);
}

#[test]
fn cli_dispute_resolve_and_chargeback_lifecycle() {
    let accounts = process(DISPUTE_LIFECYCLE);

    assert_eq!(accounts.len(), 2);
    assert_eq!(accounts[0].available, dec(5, 0));
    assert_eq!(accounts[0].held, dec(0, 0));
    assert_eq!(accounts[0].total, dec(5, 0));
    assert!(!accounts[0].locked);
    assert_eq!(accounts[1].available, dec(0, 0));
    assert_eq!(accounts[1].held, dec(0, 0));
    assert_eq!(accounts[1].total, dec(0, 0));
    assert!(accounts[1].locked);
}

#[test]
fn malformed_rows_are_skipped_not_fatal() {
    let accounts = process(BAD_ROWS);

    assert_eq!(accounts.len(), 1);
    assert_eq!(accounts[0].total, dec(1, 0));
}

#[test]
fn many_transactions_across_many_clients() {
    let mut text = String::from("type, client, tx, amount\n");
    let mut tx = 0u32;
    for _ in 0..50 {
        for client in 1..=100u16 {
            tx += 1;
            text.push_str(&format!("deposit, {client}, {tx}, 1.0\n"));
        }
    }

    let accounts = process(&text);

    assert_eq!(accounts.len(), 100);
    for (index, account) in accounts.iter().enumerate() {
        assert_eq!(usize::from(account.client_id), index + 1);
        assert_eq!(account.available, dec(50, 0));
        assert_eq!(account.held, dec(0, 0));
        assert_eq!(account.total, dec(50, 0));
        assert!(!account.locked);
    }
}

#[test]
fn report_keeps_one_row_per_client_in_order_of_appearance() {
    let mut engine = Engine::new(
        InMemoryAccountProvider::new(),
        InMemoryTransactionLedger::new(),
        InMemoryTransactionIdRegistry::new(),
    );
    let mut report = AccountStatusReport::new();
    for row in read_rows("type,client,tx,amount\ndeposit,7,1,2\nwithdrawal,3,2,1\ndeposit,7,3,1\n") {
        if let RowOutcome::Instruction(instruction) = row {
            report.record(engine.apply(instruction).unwrap().account);
        }
    }
    let accounts = report.into_accounts();
    assert_eq!(accounts.len(), 2);
    assert_eq!(accounts[0].client_id, 7);
    assert_eq!(accounts[0].total, dec(3, 0));
    assert_eq!(accounts[1].client_id, 3);
    assert_eq!(accounts[1].total, dec(0, 0));
}
