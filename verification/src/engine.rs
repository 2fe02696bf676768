use vstd::prelude::*;

use std::collections::HashMap;

use crate::account::{Account, AccountView};
use crate::error::LedgerError;
use crate::transaction::Transaction;

verus! {

broadcast use vstd::std_specs::hash::group_hash_axioms;

/// Routes one transaction through a table of account states: the owning
/// account is looked up by client id, created in its initial state on first
/// sight, and stepped by the transaction.
pub open spec fn route_step(m: Map<u16, AccountView>, t: Transaction) -> (
    Result<(), LedgerError>,
    Map<u16, AccountView>,
) {
    let s0 = if m.contains_key(t.client) {
        m[t.client]
    } else {
        AccountView::initial(t.client)
    };
    let (r, s1) = s0.step(t);
    (r, m.insert(t.client, s1))
}

/// The ledger engine: one account per client id, created lazily on the first
/// transaction that names the client. Its mathematical state is the map from
/// client id to [`AccountView`].
pub struct Engine {
    accounts: HashMap<u16, Account>,
}

impl View for Engine {
    type V = Map<u16, AccountView>;

    closed spec fn view(&self) -> Map<u16, AccountView> {
        self.accounts@.map_values(|a: Account| a@)
    }
}

impl Engine {
    /// Well-formedness of the engine: every account is well formed and sits
    /// under its own client id.
    pub open spec fn inv(&self) -> bool {
        forall|c: u16| #[trigger] self@.contains_key(c) ==> self@[c].inv() && self@[c].client == c
    }

    pub fn new() -> (r: Engine)
        ensures
            r@ == Map::<u16, AccountView>::empty(),
            r.inv(),
    {
        let r = Engine { accounts: HashMap::new() };
        proof {
            assert(r@ =~= Map::<u16, AccountView>::empty());
        }
        r
    }

    /// Hands the transaction to the owning account, creating the account on
    /// first sight of its client id, exactly as [`route_step`] describes.
    pub fn process_transaction(&mut self, transaction: Transaction) -> (r: Result<(), LedgerError>)
        requires
            old(self).inv(),
        ensures
            final(self).inv(),
            r == route_step(old(self)@, transaction).0,
            final(self)@ == route_step(old(self)@, transaction).1,
    {
        let client_id = transaction.client();

        let mut account = match self.accounts.remove(&client_id) {
            Some(a) => a,
            None => Account::new(client_id),
        };
        proof {
            assert(account@ == (if old(self)@.contains_key(client_id) {
                old(self)@[client_id]
            } else {
                AccountView::initial(client_id)
            }));
        }

        let result = account.process_transaction(transaction);

        self.accounts.insert(client_id, account);
        proof {
            assert(self@ =~= route_step(old(self)@, transaction).1);
        }
        result
    }

    /// The client ids that own an account, in ascending order, for the final
    /// report: the result lists exactly the ids the engine knows, each once,
    /// strictly increasing.
    pub fn clients_sorted(&self) -> (r: Vec<u16>)
        ensures
            forall|i: int, j: int| 0 <= i < j < r@.len() ==> r@[i] < r@[j],
            forall|c: u16| self@.contains_key(c) <==> r@.contains(c),
    {
        let mut r: Vec<u16> = Vec::new();
        let mut c: u32 = 0;
        while c < 65536
            invariant
                c <= 65536,
                forall|i: int, j: int| 0 <= i < j < r@.len() ==> r@[i] < r@[j],
                forall|i: int| 0 <= i < r@.len() ==> (r@[i] as u32) < c,
                forall|k: u16| (k as u32) < c ==> (self@.contains_key(k) <==> r@.contains(k)),
            decreases 65536 - c,
        {
            let key: u16 = c as u16;
            let ghost r0 = r@;
            let present = self.accounts.contains_key(&key);
            if present {
                r.push(key);
            }
            proof {
                assert(present == self@.contains_key(key));
                assert forall|k: u16| (k as u32) < c + 1 implies (self@.contains_key(k)
                    <==> r@.contains(k)) by {
                    if k == key {
                        if present {
                            assert(r@[r0.len() as int] == key);
                        } else if r@.contains(key) {
                            let i = choose|i: int| 0 <= i < r@.len() && r@[i] == key;
                            assert((r@[i] as u32) < c);
                        }
                    } else {
                        if r0.contains(k) {
                            let i = choose|i: int| 0 <= i < r0.len() && r0[i] == k;
                            assert(r@[i] == k);
                        }
                        if r@.contains(k) {
                            let i = choose|i: int| 0 <= i < r@.len() && r@[i] == k;
                            assert(0 <= i < r0.len() && r0[i] == k);
                        }
                    }
                }
            }
            c = c + 1;
        }
        r
    }

    /// The full set of accounts, for final reporting; the map's entries are
    /// exactly the engine's account states.
    pub fn get_accounts(&self) -> (r: &HashMap<u16, Account>)
        ensures
            forall|c: u16| #[trigger] r@.contains_key(c) <==> self@.contains_key(c),
            forall|c: u16| #[trigger] r@.contains_key(c) ==> r@[c]@ == self@[c],
    {
        &self.accounts
    }
}

} // verus!
