use std::collections::HashMap;

use vstd::prelude::*;

use crate::domain::{Account, ClientId};

verus! {

broadcast use vstd::std_specs::hash::group_hash_axioms;

/// No two rows belong to the same client.
pub open spec fn one_row_per_client(rows: Seq<Account>) -> bool {
    forall|i: int, j: int|
        0 <= i < rows.len() && 0 <= j < rows.len() && i != j ==> #[trigger] rows[i].client_id
            != #[trigger] rows[j].client_id
}

/// The row of client `c`, if any.
pub open spec fn has_row(rows: Seq<Account>, c: ClientId) -> bool {
    exists|i: int| 0 <= i < rows.len() && #[trigger] rows[i].client_id == c
}

/// `rows` after recording `account`: it replaces its client's row, or is
/// appended when the client has none yet.
pub open spec fn record_row(rows: Seq<Account>, account: Account) -> Seq<Account> {
    if has_row(rows, account.client_id) {
        let i = choose|i: int| 0 <= i < rows.len() && #[trigger] rows[i].client_id == account.client_id;
        rows.update(i, account)
    } else {
        rows.push(account)
    }
}

/// The final state of every client account that some instruction touched:
/// one row per client, holding the account from its latest result, in order
/// of first appearance.
pub struct AccountStatusReport {
    rows: Vec<Account>,
    positions: HashMap<ClientId, usize>,
}

impl AccountStatusReport {
    #[verifier::type_invariant]
    spec fn consistent(self) -> bool {
        &&& forall|c: ClientId| #[trigger]
            self.positions@.contains_key(c) ==> self.positions@[c] < self.rows@.len()
                && self.rows@[self.positions@[c] as int].client_id == c
        &&& forall|i: int|
            #![trigger self.rows@[i]]
            0 <= i < self.rows@.len() ==> self.positions@.contains_key(self.rows@[i].client_id)
                && self.positions@[self.rows@[i].client_id] == i
    }

    /// The rows, in order of first appearance.
    pub closed spec fn rows(&self) -> Seq<Account> {
        self.rows@
    }

    /// An empty report.
    pub fn new() -> (r: AccountStatusReport)
        ensures
            r.rows() == Seq::<Account>::empty(),
    {
        AccountStatusReport { rows: Vec::new(), positions: HashMap::new() }
    }

    /// Records the account an instruction left for its client.
    pub fn record(&mut self, account: Account)
        ensures
            final(self).rows() == record_row(old(self).rows(), account),
            one_row_per_client(final(self).rows()),
    {
        let mut this = AccountStatusReport::new();
        std::mem::swap(&mut this, self);
        proof {
            use_type_invariant(&this);
        }
        let AccountStatusReport { mut rows, mut positions } = this;
        let c = account.client_id;
        let found = match positions.get(&c) {
            Some(i) => Some(*i),
            None => None,
        };
        match found {
            Some(i) => {
                proof {
                    assert(rows@[i as int].client_id == c);
                    let j = choose|j: int| 0 <= j < rows@.len() && #[trigger] rows@[j].client_id == c;
                    assert(positions@[rows@[j].client_id] == j);
                }
                rows.set(i, account);
            },
            None => {
                proof {
                    assert forall|j: int| 0 <= j < rows@.len() implies #[trigger] rows@[j].client_id
                        != c by {
                        assert(positions@.contains_key(rows@[j].client_id));
                    }
                }
                let n = rows.len();
                positions.insert(c, n);
                rows.push(account);
            },
        }
        proof {
            assert forall|i: int, j: int|
                0 <= i < rows@.len() && 0 <= j < rows@.len() && i != j implies #[trigger] rows@[i].client_id
                != #[trigger] rows@[j].client_id by {
                assert(positions@[rows@[i].client_id] == i);
                assert(positions@[rows@[j].client_id] == j);
            }
        }
        *self = AccountStatusReport { rows, positions };
    }

    /// The rows, one per client, in order of first appearance.
    pub fn into_accounts(self) -> (r: Vec<Account>)
        ensures
            r@ == self.rows(),
            one_row_per_client(r@),
    {
        proof {
            use_type_invariant(&self);
            assert forall|i: int, j: int|
                0 <= i < self.rows@.len() && 0 <= j < self.rows@.len() && i != j implies #[trigger] self.rows@[i].client_id
                != #[trigger] self.rows@[j].client_id by {
                assert(self.positions@[self.rows@[i].client_id] == i);
                assert(self.positions@[self.rows@[j].client_id] == j);
            }
        }
        self.rows
    }
}

/// Report law: recording an account keeps one row per client; the recorded
/// account becomes its client's row, every other client's row is unchanged,
/// and a client seen for the first time adds exactly one row at the end.
pub proof fn lemma_record_row(rows: Seq<Account>, account: Account)
    requires
        one_row_per_client(rows),
    ensures
        ({
            let next = record_row(rows, account);
            &&& one_row_per_client(next)
            &&& has_row(next, account.client_id)
            &&& forall|i: int|
                0 <= i < next.len() && #[trigger] next[i].client_id == account.client_id ==> next[i]
                    == account
            &&& forall|i: int|
                0 <= i < rows.len() && #[trigger] rows[i].client_id != account.client_id ==> next[i]
                    == rows[i]
            &&& next.len() == if has_row(rows, account.client_id) {
                rows.len()
            } else {
                rows.len() + 1
            }
        }),
{
    let next = record_row(rows, account);
    let c = account.client_id;
    if has_row(rows, c) {
        let k = choose|i: int| 0 <= i < rows.len() && #[trigger] rows[i].client_id == c;
        assert(next[k].client_id == c);
    } else {
        assert(next[rows.len() as int] == account);
    }
}

} // verus!
