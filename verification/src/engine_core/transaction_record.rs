use vstd::prelude::*;

use crate::amount::Amount;
use crate::domain::ClientId;

verus! {

/// A previously accepted deposit. Only deposits are disputable, so this is
/// the shape of any transaction a dispute, resolve or chargeback can name.
#[derive(Clone, Copy, Debug)]
pub struct DisputableTransaction {
    pub client_id: ClientId,
    pub amount: Amount,
    pub disputed: bool,
}

} // verus!
