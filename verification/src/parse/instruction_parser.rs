use vstd::prelude::*;
use vstd::string::StringExecFns;

use crate::amount::Amount;
use crate::csv_row::CsvRow;
use crate::domain::{ChargeBack, ClientId, Deposit, Dispute, Instruction, Resolve, TransactionId, Withdrawal};
use crate::parse_error::{ParseError, ParseErrorView};

verus! {

/// Whether `c` has the Unicode `White_Space` property, the characters that
/// `str::trim` strips.
pub open spec fn is_white_space(c: char) -> bool {
    let n = c as u32;
    ||| 0x09 <= n <= 0x0d
    ||| n == 0x20
    ||| n == 0x85
    ||| n == 0xa0
    ||| n == 0x1680
    ||| 0x2000 <= n <= 0x200a
    ||| n == 0x2028
    ||| n == 0x2029
    ||| n == 0x202f
    ||| n == 0x205f
    ||| n == 0x3000
}

/// `s` without its leading white space.
pub open spec fn trim_start(s: Seq<char>) -> Seq<char>
    decreases s.len(),
{
    if s.len() > 0 && is_white_space(s[0]) {
        trim_start(s.drop_first())
    } else {
        s
    }
}

/// `s` without its trailing white space.
pub open spec fn trim_end(s: Seq<char>) -> Seq<char>
    decreases s.len(),
{
    if s.len() > 0 && is_white_space(s.last()) {
        trim_end(s.drop_last())
    } else {
        s
    }
}

/// The characters of `s.trim()`: `s` without leading and trailing white
/// space.
pub open spec fn trimmed(s: Seq<char>) -> Seq<char> {
    trim_end(trim_start(s))
}

/// The characters of `s.to_lowercase()`: `s` in Unicode lower case.
pub uninterp spec fn lowercased(s: Seq<char>) -> Seq<char>;

/// `s` without leading and trailing white space.
#[verifier::external_body]
fn trim(s: &str) -> (r: &str)
    ensures
        r@ == trimmed(s@),
{
    s.trim()
}

/// `s` in lower case.
#[verifier::external_body]
fn to_lowercase(s: &str) -> (r: String)
    ensures
        r@ == lowercased(s@),
{
    s.to_lowercase()
}

/// The instruction a row describes, given its already trimmed and
/// lower-cased type.
pub open spec fn instruction_from(
    kind: Seq<char>,
    client: ClientId,
    tx: TransactionId,
    amount: Option<Amount>,
) -> Result<Instruction, ParseErrorView> {
    if kind == "deposit"@ {
        match amount {
            Some(amount) => Ok(Instruction::Deposit(Deposit { client_id: client, tx_id: tx, amount })),
            None => Err(ParseErrorView::MissingAmount),
        }
    } else if kind == "withdrawal"@ {
        match amount {
            Some(amount) => Ok(
                Instruction::Withdrawal(Withdrawal { client_id: client, tx_id: tx, amount }),
            ),
            None => Err(ParseErrorView::MissingAmount),
        }
    } else if kind == "dispute"@ {
        Ok(Instruction::Dispute(Dispute { client_id: client, tx_id: tx }))
    } else if kind == "resolve"@ {
        Ok(Instruction::Resolve(Resolve { client_id: client, tx_id: tx }))
    } else if kind == "chargeback"@ {
        Ok(Instruction::ChargeBack(ChargeBack { client_id: client, tx_id: tx }))
    } else {
        Err(ParseErrorView::UnknownType(kind))
    }
}

/// The instruction carries the row's client and transaction id, and, for a
/// deposit or withdrawal, the row's amount.
pub open spec fn keeps_row_fields(
    i: Instruction,
    client: ClientId,
    tx: TransactionId,
    amount: Option<Amount>,
) -> bool {
    &&& i.client() == client
    &&& i.transaction_id() == tx
    &&& i matches Instruction::Deposit(d) ==> amount == Some(d.amount)
    &&& i matches Instruction::Withdrawal(w) ==> amount == Some(w.amount)
}

/// Row law: whatever the type, a row that parses keeps its client, its
/// transaction id and, for a deposit or withdrawal, its amount; a row
/// without an amount never parses as a deposit or withdrawal.
pub proof fn lemma_parsed_row_keeps_fields(
    kind: Seq<char>,
    client: ClientId,
    tx: TransactionId,
    amount: Option<Amount>,
)
    ensures
        instruction_from(kind, client, tx, amount) matches Ok(i) ==> keeps_row_fields(
            i,
            client,
            tx,
            amount,
        ),
        amount is None ==> !(instruction_from(kind, client, tx, amount) matches Ok(i) && (
        i is Deposit || i is Withdrawal)),
{
}

/// A parse result with its error as a view.
pub open spec fn result_view(r: Result<Instruction, ParseError>) -> Result<Instruction, ParseErrorView> {
    match r {
        Ok(i) => Ok(i),
        Err(e) => Err(e@),
    }
}

/// Converts a row whose type is already trimmed and lower-cased into the
/// instruction it describes.
pub fn instruction_from_normalized(
    kind: String,
    client: ClientId,
    tx: TransactionId,
    amount: Option<Amount>,
) -> (r: Result<Instruction, ParseError>)
    ensures
        result_view(r) == instruction_from(kind@, client, tx, amount),
        r matches Ok(i) ==> keeps_row_fields(i, client, tx, amount),
{
    if kind == String::from_str("deposit") {
        match amount {
            Some(amount) => Ok(Instruction::Deposit(Deposit { client_id: client, tx_id: tx, amount })),
            None => Err(ParseError::MissingAmount),
        }
    } else if kind == String::from_str("withdrawal") {
        match amount {
            Some(amount) => Ok(
                Instruction::Withdrawal(Withdrawal { client_id: client, tx_id: tx, amount }),
            ),
            None => Err(ParseError::MissingAmount),
        }
    } else if kind == String::from_str("dispute") {
        Ok(Instruction::Dispute(Dispute { client_id: client, tx_id: tx }))
    } else if kind == String::from_str("resolve") {
        Ok(Instruction::Resolve(Resolve { client_id: client, tx_id: tx }))
    } else if kind == String::from_str("chargeback") {
        Ok(Instruction::ChargeBack(ChargeBack { client_id: client, tx_id: tx }))
    } else {
        Err(ParseError::UnknownType(kind))
    }
}

/// Converts one parsed CSV row into the instruction it describes; the type
/// is matched after trimming and lower-casing it.
pub fn parse_instruction(row: CsvRow) -> (r: Result<Instruction, ParseError>)
    ensures
        result_view(r) == instruction_from(lowercased(trimmed(row.kind@)), row.client, row.tx, row.amount),
        r matches Ok(i) ==> keeps_row_fields(i, row.client, row.tx, row.amount),
{
    let kind = to_lowercase(trim(row.kind.as_str()));
    instruction_from_normalized(kind, row.client, row.tx, row.amount)
}

} // verus!
