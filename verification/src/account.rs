use vstd::prelude::*;

use std::collections::HashMap;

use crate::amount::Amount;
use crate::error::LedgerError;
use crate::transaction::{Transaction, TransactionType};

verus! {

broadcast use vstd::std_specs::hash::group_hash_axioms;

/// True when an exact balance value is representable by the fixed-point
/// machine type that the account stores.
pub open spec fn fits_units(x: int) -> bool {
    i128::MIN <= x <= i128::MAX
}

/// The mathematical state of one client's account.
///
/// Balances are unbounded integers counting ten-thousandths; `effects` keeps
/// the recorded deposits and withdrawals that a later dispute may reference,
/// and `disputes` keeps the deposits currently under dispute.
#[verifier::ext_equal]
pub ghost struct AccountView {
    pub client: u16,
    pub available: int,
    pub held: int,
    pub total: int,
    pub locked: bool,
    pub effects: Map<u32, Transaction>,
    pub disputes: Map<u32, Transaction>,
}

impl AccountView {
    /// The state of a freshly created account: all balances zero, unlocked,
    /// nothing recorded.
    pub open spec fn initial(client: u16) -> AccountView {
        AccountView {
            client,
            available: 0,
            held: 0,
            total: 0,
            locked: false,
            effects: Map::empty(),
            disputes: Map::empty(),
        }
    }

    /// Well-formedness of an account state.
    ///
    /// The total balance is always the sum of available and held funds, every
    /// balance is representable by the machine type, every recorded effect is
    /// a deposit or withdrawal of a non-negative amount keyed by its own
    /// transaction id, and every disputed entry is such a deposit.
    pub open spec fn inv(self) -> bool {
        &&& self.total == self.available + self.held
        &&& fits_units(self.available)
        &&& fits_units(self.held)
        &&& fits_units(self.total)
        &&& forall|k: u32| #[trigger] self.effects.contains_key(k) ==> {
            &&& self.effects[k].client == self.client
            &&& self.effects[k].tx == k
            &&& self.effects[k].transaction_type.is_effect()
            &&& self.effects[k].transaction_type.spec_amount() >= 0
        }
        &&& forall|k: u32| #[trigger] self.disputes.contains_key(k) ==> {
            &&& self.disputes[k].client == self.client
            &&& self.disputes[k].tx == k
            &&& self.disputes[k].transaction_type is Deposit
            &&& self.disputes[k].transaction_type.spec_amount() >= 0
        }
    }

    /// The deposit transition on the balances alone: rejected on a locked
    /// account, for a negative amount, and when a balance would leave the
    /// representable range; otherwise `amount` is added to both the available
    /// and the total balance.
    pub open spec fn deposit_step(self, amount: int) -> (Result<(), LedgerError>, AccountView) {
        if self.locked {
            (Err(LedgerError::AccountLocked), self)
        } else if amount < 0 {
            (Err(LedgerError::NegativeAmount), self)
        } else if !fits_units(self.available + amount) || !fits_units(self.total + amount) {
            (Err(LedgerError::BalanceOutOfRange), self)
        } else {
            (
                Ok(()),
                AccountView {
                    available: self.available + amount,
                    total: self.total + amount,
                    ..self
                },
            )
        }
    }

    /// The withdrawal transition on the balances alone: rejected on a locked
    /// account, for a negative amount, and when the available balance is
    /// smaller than `amount`; otherwise `amount` is taken from both the
    /// available and the total balance.
    pub open spec fn withdraw_step(self, amount: int) -> (Result<(), LedgerError>, AccountView) {
        if self.locked {
            (Err(LedgerError::AccountLocked), self)
        } else if amount < 0 {
            (Err(LedgerError::NegativeAmount), self)
        } else if self.available >= amount {
            (
                Ok(()),
                AccountView {
                    available: self.available - amount,
                    total: self.total - amount,
                    ..self
                },
            )
        } else {
            (Err(LedgerError::InsufficientFunds), self)
        }
    }

    /// The dispute transition: the referenced id must not already be under
    /// dispute, must be recorded, and must name a deposit. On success the
    /// deposited amount moves from available to held, the total is unchanged,
    /// and the record moves from `effects` to `disputes`.
    pub open spec fn dispute_step(self, t: Transaction) -> (Result<(), LedgerError>, AccountView) {
        if self.disputes.contains_key(t.tx) {
            (Err(LedgerError::AlreadyDisputed), self)
        } else if !self.effects.contains_key(t.tx) {
            (Err(LedgerError::TransactionNotFound), self)
        } else {
            let e = self.effects[t.tx];
            let amount = e.transaction_type.spec_amount();
            if !(e.transaction_type is Deposit) {
                (Err(LedgerError::NotDisputable), self)
            } else if !fits_units(self.available - amount) || !fits_units(self.held + amount) {
                (Err(LedgerError::BalanceOutOfRange), self)
            } else {
                (
                    Ok(()),
                    AccountView {
                        available: self.available - amount,
                        held: self.held + amount,
                        effects: self.effects.remove(t.tx),
                        disputes: self.disputes.insert(t.tx, e),
                        ..self
                    },
                )
            }
        }
    }

    /// The resolve transition: the referenced id must be under dispute. On
    /// success the disputed amount moves back from held to available, the
    /// total is unchanged, and the record moves back into `effects`, making
    /// the deposit disputable again.
    pub open spec fn resolve_step(self, t: Transaction) -> (Result<(), LedgerError>, AccountView) {
        if !self.disputes.contains_key(t.tx) {
            (Err(LedgerError::NotDisputed), self)
        } else {
            let e = self.disputes[t.tx];
            let amount = e.transaction_type.spec_amount();
            if !fits_units(self.held - amount) || !fits_units(self.available + amount) {
                (Err(LedgerError::BalanceOutOfRange), self)
            } else {
                (
                    Ok(()),
                    AccountView {
                        available: self.available + amount,
                        held: self.held - amount,
                        effects: self.effects.insert(t.tx, e),
                        disputes: self.disputes.remove(t.tx),
                        ..self
                    },
                )
            }
        }
    }

    /// The chargeback transition: the referenced id must be under dispute. On
    /// success the disputed amount leaves both the held and the total
    /// balance, the record is dropped for good, and the account is locked
    /// permanently.
    pub open spec fn chargeback_step(self, t: Transaction) -> (Result<(), LedgerError>, AccountView) {
        if !self.disputes.contains_key(t.tx) {
            (Err(LedgerError::NotDisputed), self)
        } else {
            let e = self.disputes[t.tx];
            let amount = e.transaction_type.spec_amount();
            if !fits_units(self.held - amount) || !fits_units(self.total - amount) {
                (Err(LedgerError::BalanceOutOfRange), self)
            } else {
                (
                    Ok(()),
                    AccountView {
                        held: self.held - amount,
                        total: self.total - amount,
                        locked: true,
                        disputes: self.disputes.remove(t.tx),
                        ..self
                    },
                )
            }
        }
    }

    /// One full transition of the account state machine, as
    /// [`Account::process_transaction`] performs it: the transaction must
    /// belong to this account's client; the payload picks the operation; and
    /// a successful deposit or withdrawal is recorded in `effects` for a
    /// later dispute.
    pub open spec fn step(self, t: Transaction) -> (Result<(), LedgerError>, AccountView) {
        if t.client != self.client {
            (Err(LedgerError::ClientMismatch), self)
        } else {
            let (r, s) = self.run_step(t);
            if r is Ok && t.transaction_type.is_effect() {
                (r, AccountView { effects: s.effects.insert(t.tx, t), ..s })
            } else {
                (r, s)
            }
        }
    }

    /// The operation picked by the transaction's payload, without the client
    /// check and without recording the effect; this is what
    /// [`Transaction::run`] performs.
    pub open spec fn run_step(self, t: Transaction) -> (Result<(), LedgerError>, AccountView) {
        match t.transaction_type {
            TransactionType::Deposit { amount } => self.deposit_step(amount@),
            TransactionType::Withdrawal { amount } => self.withdraw_step(amount@),
            TransactionType::Dispute => self.dispute_step(t),
            TransactionType::Resolve => self.resolve_step(t),
            TransactionType::Chargeback => self.chargeback_step(t),
        }
    }
}

/// One client's ledger: the balances, the lock flag, and the two bookkeeping
/// maps of the dispute lifecycle. Its mathematical state is an
/// [`AccountView`]; every operation is verified against the transition
/// functions on that view.
pub struct Account {
    client: u16,
    available: Amount,
    withheld: Amount,
    total: Amount,
    locked: bool,
    effect_transactions: HashMap<u32, Transaction>,
    dispute_transactions: HashMap<u32, Transaction>,
}

impl View for Account {
    type V = AccountView;

    closed spec fn view(&self) -> AccountView {
        AccountView {
            client: self.client,
            available: self.available@,
            held: self.withheld@,
            total: self.total@,
            locked: self.locked,
            effects: self.effect_transactions@,
            disputes: self.dispute_transactions@,
        }
    }
}

impl Account {
    /// Well-formedness of the account; established by [`Account::new`] and
    /// preserved by every operation.
    pub open spec fn inv(&self) -> bool {
        self@.inv()
    }

    pub fn new(client: u16) -> (r: Account)
        ensures
            r@ == AccountView::initial(client),
            r.inv(),
    {
        let r = Account {
            client,
            available: Amount::zero(),
            withheld: Amount::zero(),
            total: Amount::zero(),
            locked: false,
            effect_transactions: HashMap::new(),
            dispute_transactions: HashMap::new(),
        };
        proof {
            assert(r@ =~= AccountView::initial(client));
        }
        r
    }

    pub fn locked(&self) -> (r: bool)
        ensures
            r == self@.locked,
    {
        self.locked
    }

    pub fn client(&self) -> (r: u16)
        ensures
            r == self@.client,
    {
        self.client
    }

    pub fn available(&self) -> (r: Amount)
        ensures
            r@ == self@.available,
    {
        self.available
    }

    pub fn withheld(&self) -> (r: Amount)
        ensures
            r@ == self@.held,
    {
        self.withheld
    }

    pub fn total(&self) -> (r: Amount)
        ensures
            r@ == self@.total,
    {
        self.total
    }

    /// Applies one transaction to this account, exactly as
    /// [`AccountView::step`] describes: the result and the new state are the
    /// transition's result and state, and a rejected transaction leaves the
    /// account unchanged.
    pub fn process_transaction(&mut self, transaction: Transaction) -> (r: Result<(), LedgerError>)
        requires
            old(self).inv(),
        ensures
            final(self).inv(),
            r == old(self)@.step(transaction).0,
            final(self)@ == old(self)@.step(transaction).1,
    {
        if transaction.client != self.client {
            return Err(LedgerError::ClientMismatch);
        }

        let result = match transaction.transaction_type {
            TransactionType::Deposit { amount } => self.deposit(amount),
            TransactionType::Withdrawal { amount } => self.withdraw(amount),
            TransactionType::Dispute => self.dispute(&transaction),
            TransactionType::Resolve => self.resolve(&transaction),
            TransactionType::Chargeback => self.chargeback(&transaction),
        };

        if result.is_ok() {
            match transaction.transaction_type {
                TransactionType::Deposit { .. } | TransactionType::Withdrawal { .. } => {
                    self.effect_transactions.insert(transaction.tx, transaction);
                },
                _ => {},
            }
        }
        result
    }

    /// The deposit operation on the balances; see
    /// [`AccountView::deposit_step`].
    pub(crate) fn deposit(&mut self, amount: Amount) -> (r: Result<(), LedgerError>)
        requires
            old(self).inv(),
        ensures
            final(self).inv(),
            r == old(self)@.deposit_step(amount@).0,
            final(self)@ == old(self)@.deposit_step(amount@).1,
    {
        if self.locked {
            return Err(LedgerError::AccountLocked);
        }
        if amount.units < 0 {
            return Err(LedgerError::NegativeAmount);
        }
        if self.available.units > i128::MAX - amount.units || self.total.units > i128::MAX
            - amount.units {
            return Err(LedgerError::BalanceOutOfRange);
        }

        self.available = Amount { units: self.available.units + amount.units };
        self.total = Amount { units: self.total.units + amount.units };
        Ok(())
    }

    /// The withdrawal operation on the balances; see
    /// [`AccountView::withdraw_step`].
    pub(crate) fn withdraw(&mut self, amount: Amount) -> (r: Result<(), LedgerError>)
        requires
            old(self).inv(),
        ensures
            final(self).inv(),
            r == old(self)@.withdraw_step(amount@).0,
            final(self)@ == old(self)@.withdraw_step(amount@).1,
    {
        if self.locked {
            return Err(LedgerError::AccountLocked);
        }
        if amount.units < 0 {
            return Err(LedgerError::NegativeAmount);
        }
        if self.available.units >= amount.units {
            self.available = Amount { units: self.available.units - amount.units };
            self.total = Amount { units: self.total.units - amount.units };
            Ok(())
        } else {
            Err(LedgerError::InsufficientFunds)
        }
    }

    /// The dispute operation; see [`AccountView::dispute_step`].
    pub(crate) fn dispute(&mut self, tx: &Transaction) -> (r: Result<(), LedgerError>)
        requires
            old(self).inv(),
        ensures
            final(self).inv(),
            r == old(self)@.dispute_step(*tx).0,
            final(self)@ == old(self)@.dispute_step(*tx).1,
    {
        if self.dispute_transactions.contains_key(&tx.tx) {
            return Err(LedgerError::AlreadyDisputed);
        }

        let transaction = match self.effect_transactions.get(&tx.tx) {
            Some(t) => *t,
            None => {
                return Err(LedgerError::TransactionNotFound);
            },
        };
        let amount = transaction.get_amount();

        if !(matches!(transaction.transaction_type, TransactionType::Deposit { .. })) {
            return Err(LedgerError::NotDisputable);
        }

        if self.available.units < i128::MIN + amount.units || self.withheld.units > i128::MAX
            - amount.units {
            return Err(LedgerError::BalanceOutOfRange);
        }

        self.effect_transactions.remove(&tx.tx);
        self.available = Amount { units: self.available.units - amount.units };
        self.withheld = Amount { units: self.withheld.units + amount.units };
        self.dispute_transactions.insert(tx.tx, transaction);
        Ok(())
    }

    /// The resolve operation; see [`AccountView::resolve_step`].
    pub(crate) fn resolve(&mut self, tx: &Transaction) -> (r: Result<(), LedgerError>)
        requires
            old(self).inv(),
        ensures
            final(self).inv(),
            r == old(self)@.resolve_step(*tx).0,
            final(self)@ == old(self)@.resolve_step(*tx).1,
    {
        let transaction = match self.dispute_transactions.get(&tx.tx) {
            Some(t) => *t,
            None => {
                return Err(LedgerError::NotDisputed);
            },
        };
        let amount = transaction.get_amount();

        if self.withheld.units < i128::MIN + amount.units || self.available.units > i128::MAX
            - amount.units {
            return Err(LedgerError::BalanceOutOfRange);
        }

        self.dispute_transactions.remove(&tx.tx);
        self.withheld = Amount { units: self.withheld.units - amount.units };
        self.available = Amount { units: self.available.units + amount.units };
        self.effect_transactions.insert(tx.tx, transaction);
        Ok(())
    }

    /// The chargeback operation; see [`AccountView::chargeback_step`].
    pub(crate) fn chargeback(&mut self, tx: &Transaction) -> (r: Result<(), LedgerError>)
        requires
            old(self).inv(),
        ensures
            final(self).inv(),
            r == old(self)@.chargeback_step(*tx).0,
            final(self)@ == old(self)@.chargeback_step(*tx).1,
    {
        let transaction = match self.dispute_transactions.get(&tx.tx) {
            Some(t) => *t,
            None => {
                return Err(LedgerError::NotDisputed);
            },
        };
        let amount = transaction.get_amount();

        if self.withheld.units < i128::MIN + amount.units || self.total.units < i128::MIN
            + amount.units {
            return Err(LedgerError::BalanceOutOfRange);
        }

        self.dispute_transactions.remove(&tx.tx);
        self.withheld = Amount { units: self.withheld.units - amount.units };
        self.total = Amount { units: self.total.units - amount.units };
        self.locked = true;
        Ok(())
    }
}

} // verus!
