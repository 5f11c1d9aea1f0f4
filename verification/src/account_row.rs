use vstd::prelude::*;

use crate::amount::Amount;
use crate::domain::{Account, ClientId};

verus! {

/// The output row shape, `client,available,held,total,locked`: the column
/// is `client`, where [`Account`] says `client_id`.
#[derive(Clone, Copy, Debug)]
pub struct AccountRow {
    pub client: ClientId,
    pub available: Amount,
    pub held: Amount,
    pub total: Amount,
    pub locked: bool,
}

impl From<Account> for AccountRow {
    fn from(account: Account) -> (r: AccountRow) {
        AccountRow {
            client: account.client_id,
            available: account.available,
            held: account.held,
            total: account.total,
            locked: account.locked,
        }
    }
}

impl vstd::std_specs::convert::FromSpecImpl<Account> for AccountRow {
    open spec fn obeys_from_spec() -> bool {
        true
    }

    open spec fn from_spec(account: Account) -> AccountRow {
        AccountRow {
            client: account.client_id,
            available: account.available,
            held: account.held,
            total: account.total,
            locked: account.locked,
        }
    }
}

} // verus!
