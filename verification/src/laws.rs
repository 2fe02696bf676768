use vstd::prelude::*;

use crate::account::{fits_units, AccountView};
use crate::engine::route_step;
use crate::error::LedgerError;
use crate::transaction::{Transaction, TransactionType};

verus! {

/// Every transition preserves well-formedness; in particular
/// `total == available + held` holds after every operation, starting from
/// any well-formed state.
pub proof fn lemma_step_preserves_inv(s: AccountView, t: Transaction)
    requires
        s.inv(),
    ensures
        s.step(t).1.inv(),
{
}

/// A rejected transaction has no effect: whenever a transition reports an
/// error, the account state is exactly what it was before.
pub proof fn lemma_rejected_leaves_state_unchanged(s: AccountView, t: Transaction)
    ensures
        s.step(t).0 is Err ==> s.step(t).1 == s,
{
}

/// Depositing an amount and then immediately disputing that deposit succeeds
/// and moves exactly the deposited amount from available to held: relative
/// to the state after the deposit, available drops by the amount, held grows
/// by it, and the total is unchanged — so available returns to its value
/// before the deposit.
pub proof fn lemma_deposit_then_dispute(s: AccountView, dep: Transaction, dis: Transaction)
    requires
        s.inv(),
        dep.transaction_type matches TransactionType::Deposit { .. },
        dis.transaction_type is Dispute,
        dep.client == s.client,
        dis.client == s.client,
        dis.tx == dep.tx,
        s.step(dep).0 is Ok,
        !s.disputes.contains_key(dep.tx),
        fits_units(s.held + dep.transaction_type.spec_amount()),
    ensures
        s.step(dep).1.step(dis).0 is Ok,
        s.step(dep).1.step(dis).1.available == s.step(dep).1.available
            - dep.transaction_type.spec_amount(),
        s.step(dep).1.step(dis).1.held == s.step(dep).1.held
            + dep.transaction_type.spec_amount(),
        s.step(dep).1.step(dis).1.total == s.step(dep).1.total,
        s.step(dep).1.step(dis).1.available == s.available,
{
}

/// Resolving a disputed transaction restores the account exactly to its
/// state before the dispute: the disputed amount moves back from held to
/// available, the record becomes disputable again, and the total is
/// unchanged throughout the dispute-resolve round trip.
pub proof fn lemma_dispute_then_resolve(s: AccountView, dis: Transaction, res: Transaction)
    requires
        s.inv(),
        dis.transaction_type is Dispute,
        res.transaction_type is Resolve,
        dis.client == s.client,
        res.client == s.client,
        res.tx == dis.tx,
        s.step(dis).0 is Ok,
    ensures
        s.step(dis).1.total == s.total,
        s.step(dis).1.step(res).0 is Ok,
        s.step(dis).1.step(res).1 == s,
{
    let s1 = s.step(dis).1;
    let s2 = s1.step(res).1;
    assert(s2.effects =~= s.effects);
    assert(s2.disputes =~= s.disputes);
    assert(s2 =~= s);
}

/// Charging back a disputed transaction succeeds, removes the disputed
/// amount from both held and total, leaves available untouched, and locks
/// the account.
pub proof fn lemma_chargeback(s: AccountView, cb: Transaction)
    requires
        s.inv(),
        cb.transaction_type is Chargeback,
        cb.client == s.client,
        s.disputes.contains_key(cb.tx),
        fits_units(s.held - s.disputes[cb.tx].transaction_type.spec_amount()),
        fits_units(s.total - s.disputes[cb.tx].transaction_type.spec_amount()),
    ensures
        s.step(cb).0 is Ok,
        s.step(cb).1.held == s.held - s.disputes[cb.tx].transaction_type.spec_amount(),
        s.step(cb).1.total == s.total - s.disputes[cb.tx].transaction_type.spec_amount(),
        s.step(cb).1.available == s.available,
        s.step(cb).1.locked,
{
}

/// The lock is final for deposits and withdrawals: on a locked account every
/// deposit and every withdrawal is rejected.
pub proof fn lemma_locked_blocks_effects(s: AccountView, t: Transaction)
    requires
        s.locked,
        t.transaction_type.is_effect(),
    ensures
        s.step(t).0 is Err,
{
}

/// The lock does not block the dispute lifecycle: a resolve or chargeback of
/// a transaction already under dispute succeeds on a locked account just as
/// on an unlocked one — only deposits and withdrawals check the lock.
pub proof fn lemma_lock_does_not_block_dispute_lifecycle(s: AccountView, t: Transaction)
    requires
        s.inv(),
        t.client == s.client,
        t.transaction_type is Resolve || t.transaction_type is Chargeback,
        s.disputes.contains_key(t.tx),
        fits_units(s.held - s.disputes[t.tx].transaction_type.spec_amount()),
        fits_units(s.available + s.disputes[t.tx].transaction_type.spec_amount()),
        fits_units(s.total - s.disputes[t.tx].transaction_type.spec_amount()),
    ensures
        s.step(t).0 is Ok,
{
}

/// A transaction id cannot be disputed twice in a row: once a dispute of an
/// id succeeds, a second dispute of the same id is rejected as already
/// disputed until a resolve or chargeback intervenes.
pub proof fn lemma_no_double_dispute(s: AccountView, dis: Transaction, dis2: Transaction)
    requires
        dis.transaction_type is Dispute,
        dis2.transaction_type is Dispute,
        dis2.client == s.client,
        dis2.tx == dis.tx,
        s.step(dis).0 is Ok,
    ensures
        s.step(dis).1.step(dis2).0 == Result::<(), LedgerError>::Err(LedgerError::AlreadyDisputed),
{
}

/// A withdrawal of more than the available balance is rejected as
/// insufficient funds and changes nothing.
pub proof fn lemma_insufficient_funds(s: AccountView, t: Transaction)
    requires
        t.client == s.client,
        !s.locked,
        (t.transaction_type matches TransactionType::Withdrawal { amount } && amount@ >= 0
            && amount@ > s.available),
    ensures
        s.step(t).0 == Result::<(), LedgerError>::Err(LedgerError::InsufficientFunds),
        s.step(t).1 == s,
{
}

/// Routing by client id never trips the account's defensive client check:
/// when every account in the table sits under its own client id — as the
/// engine maintains — no transaction is rejected as a client mismatch.
pub proof fn lemma_routing_never_mismatches(m: Map<u16, AccountView>, t: Transaction)
    requires
        forall|c: u16| #[trigger] m.contains_key(c) ==> m[c].client == c,
    ensures
        route_step(m, t).0 != Result::<(), LedgerError>::Err(LedgerError::ClientMismatch),
{
}

/// Dispute, resolve, dispute again on the same transaction id: after a
/// resolve the id re-enters the disputable set, so the second dispute
/// succeeds just as the first one did.
pub proof fn lemma_dispute_resolve_dispute(
    s: AccountView,
    dis: Transaction,
    res: Transaction,
    dis2: Transaction,
)
    requires
        s.inv(),
        dis.transaction_type is Dispute,
        res.transaction_type is Resolve,
        dis2.transaction_type is Dispute,
        dis.client == s.client,
        res.client == s.client,
        dis2.client == s.client,
        res.tx == dis.tx,
        dis2.tx == dis.tx,
        s.step(dis).0 is Ok,
    ensures
        s.step(dis).1.step(res).0 is Ok,
        s.step(dis).1.step(res).1.step(dis2).0 is Ok,
{
    lemma_dispute_then_resolve(s, dis, res);
}

} // verus!
