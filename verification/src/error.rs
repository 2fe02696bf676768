use vstd::prelude::*;

verus! {

/// Every way a record or a transaction can be rejected.
///
/// Each rejection is local to the offending record: the ledger state is left
/// unchanged and processing continues with the next record.
#[derive(Clone, Copy, Debug, PartialEq, Eq, Structural)]
pub enum LedgerError {
    /// The transaction's client id does not match the account it was routed
    /// to.
    ClientMismatch,
    /// The account was locked by an earlier chargeback; deposits and
    /// withdrawals no longer succeed.
    AccountLocked,
    /// A deposit or withdrawal carried an amount below zero.
    NegativeAmount,
    /// A withdrawal asked for more than the available balance.
    InsufficientFunds,
    /// A dispute referenced a transaction id with no recorded effect.
    TransactionNotFound,
    /// A dispute referenced a transaction id that is already under dispute.
    AlreadyDisputed,
    /// A dispute referenced a recorded effect that is not a deposit;
    /// withdrawals cannot be disputed.
    NotDisputable,
    /// A resolve or chargeback referenced a transaction id that is not
    /// currently under dispute.
    NotDisputed,
    /// The operation would push a balance outside the representable
    /// fixed-point range.
    BalanceOutOfRange,
    /// An input record named a transaction kind other than the five known
    /// ones.
    UnknownKind,
    /// An input record for a deposit or withdrawal carried no amount.
    MissingAmount,
}

impl LedgerError {
    /// A short description of the rejection, for an adapter that logs them.
    pub fn describe(&self) -> (r: &'static str)
        ensures
            r@.len() > 0,
    {
        let r = match self {
            LedgerError::ClientMismatch => "transaction client id does not match account client id",
            LedgerError::AccountLocked => "account locked",
            LedgerError::NegativeAmount => "amount should be positive",
            LedgerError::InsufficientFunds => "insufficient funds",
            LedgerError::TransactionNotFound => "transaction not found",
            LedgerError::AlreadyDisputed => "transaction already disputed",
            LedgerError::NotDisputable => "only deposit transactions can be disputed",
            LedgerError::NotDisputed => "transaction not disputed",
            LedgerError::BalanceOutOfRange => "balance out of range",
            LedgerError::UnknownKind => "unknown transaction type",
            LedgerError::MissingAmount => "amount is required",
        };
        proof {
            reveal_strlit("transaction client id does not match account client id");
            reveal_strlit("account locked");
            reveal_strlit("amount should be positive");
            reveal_strlit("insufficient funds");
            reveal_strlit("transaction not found");
            reveal_strlit("transaction already disputed");
            reveal_strlit("only deposit transactions can be disputed");
            reveal_strlit("transaction not disputed");
            reveal_strlit("balance out of range");
            reveal_strlit("unknown transaction type");
            reveal_strlit("amount is required");
        }
        r
    }
}

} // verus!
