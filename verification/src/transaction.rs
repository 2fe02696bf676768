use vstd::prelude::*;

use crate::account::Account;
use crate::amount::Amount;
use crate::error::LedgerError;

verus! {

/// The payload of a ledger event.
///
/// Deposits and withdrawals carry the moved amount; dispute, resolve and
/// chargeback reference a prior deposit or withdrawal by its transaction id
/// and carry no amount of their own.
#[derive(Clone, Copy, Debug, PartialEq, Eq, Structural)]
pub enum TransactionType {
    Deposit { amount: Amount },
    Withdrawal { amount: Amount },
    Dispute,
    Resolve,
    Chargeback,
}

impl TransactionType {
    /// The amount carried by the payload: the deposited or withdrawn amount,
    /// and zero for the three dispute-lifecycle kinds.
    pub open spec fn spec_amount(&self) -> int {
        match *self {
            TransactionType::Deposit { amount } => amount@,
            TransactionType::Withdrawal { amount } => amount@,
            _ => 0,
        }
    }

    /// True for the two kinds that change balances directly and are recorded
    /// for a later dispute.
    pub open spec fn is_effect(&self) -> bool {
        self is Deposit || self is Withdrawal
    }
}

/// One immutable ledger event: the owning client, the transaction id and the
/// payload.
#[derive(Clone, Copy, Debug, PartialEq, Eq, Structural)]
pub struct Transaction {
    pub client: u16,
    pub tx: u32,
    pub transaction_type: TransactionType,
}

impl Transaction {
    pub fn new(client: u16, tx: u32, transaction_type: TransactionType) -> (r: Transaction)
        ensures
            r == (Transaction { client, tx, transaction_type }),
    {
        Transaction { client, tx, transaction_type }
    }

    pub fn client(&self) -> (r: u16)
        ensures
            r == self.client,
    {
        self.client
    }

    pub fn tx(&self) -> (r: u32)
        ensures
            r == self.tx,
    {
        self.tx
    }

    pub fn transaction_type(&self) -> (r: &TransactionType)
        ensures
            *r == self.transaction_type,
    {
        &self.transaction_type
    }

    /// The amount moved by this transaction: the payload amount for deposits
    /// and withdrawals, zero otherwise.
    pub fn get_amount(&self) -> (r: Amount)
        ensures
            r@ == self.transaction_type.spec_amount(),
    {
        match &self.transaction_type {
            TransactionType::Deposit { amount } => *amount,
            TransactionType::Withdrawal { amount } => *amount,
            _ => Amount { units: 0 },
        }
    }

    /// Runs this transaction's operation against `account` directly, without
    /// the client check and without recording the effect; see
    /// [`AccountView::run_step`](crate::account::AccountView::run_step) for
    /// the exact transition.
    pub fn run(&self, account: &mut Account) -> (r: Result<(), LedgerError>)
        requires
            old(account).inv(),
        ensures
            final(account).inv(),
            r == old(account)@.run_step(*self).0,
            final(account)@ == old(account)@.run_step(*self).1,
    {
        match self.transaction_type {
            TransactionType::Deposit { amount } => account.deposit(amount),
            TransactionType::Withdrawal { amount } => account.withdraw(amount),
            TransactionType::Dispute => account.dispute(self),
            TransactionType::Resolve => account.resolve(self),
            TransactionType::Chargeback => account.chargeback(self),
        }
    }
}

} // verus!
