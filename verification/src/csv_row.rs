use vstd::prelude::*;

use crate::amount::Amount;
use crate::domain::{ClientId, TransactionId};

verus! {

/// One row of the input CSV as it appears: `type, client, tx, amount`.
/// `amount` is absent for a dispute, resolve or chargeback row.
#[derive(Debug)]
pub struct CsvRow {
    pub kind: String,
    pub client: ClientId,
    pub tx: TransactionId,
    pub amount: Option<Amount>,
}

} // verus!
