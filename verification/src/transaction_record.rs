use vstd::prelude::*;

use crate::amount::Amount;
use crate::error::LedgerError;
use crate::transaction::{Transaction, TransactionType};

verus! {

/// One input record as the adapter hands it in after reading and converting
/// a raw row: the transaction kind as the raw type string, the client and
/// transaction ids, and the amount column if one was present, already
/// converted to fixed point.
#[derive(Debug)]
pub struct TransactionRecord {
    pub transaction_type: String,
    pub client: u16,
    pub tx: u32,
    pub amount: Option<Amount>,
}

impl TransactionRecord {
    /// What validating the record's type string and amount column yields:
    /// the five kind names match exactly and case-sensitively; a deposit or
    /// withdrawal must carry an amount; the amount column is ignored for the
    /// three dispute-lifecycle kinds; any other type string is rejected.
    pub open spec fn parsed_kind(&self) -> Result<TransactionType, LedgerError> {
        if self.transaction_type@ == "deposit"@ {
            match self.amount {
                Some(amount) => Ok(TransactionType::Deposit { amount }),
                None => Err(LedgerError::MissingAmount),
            }
        } else if self.transaction_type@ == "withdrawal"@ {
            match self.amount {
                Some(amount) => Ok(TransactionType::Withdrawal { amount }),
                None => Err(LedgerError::MissingAmount),
            }
        } else if self.transaction_type@ == "dispute"@ {
            Ok(TransactionType::Dispute)
        } else if self.transaction_type@ == "resolve"@ {
            Ok(TransactionType::Resolve)
        } else if self.transaction_type@ == "chargeback"@ {
            Ok(TransactionType::Chargeback)
        } else {
            Err(LedgerError::UnknownKind)
        }
    }

    /// The transaction this record validates to, or the rejection.
    pub open spec fn parsed(&self) -> Result<Transaction, LedgerError> {
        match self.parsed_kind() {
            Ok(transaction_type) => Ok(
                Transaction { client: self.client, tx: self.tx, transaction_type },
            ),
            Err(e) => Err(e),
        }
    }
}

impl Transaction {
    /// Validates one input record into a transaction, exactly as
    /// [`TransactionRecord::parsed`] describes.
    pub fn try_from(record: &TransactionRecord) -> (r: Result<Transaction, LedgerError>)
        ensures
            r == record.parsed(),
    {
        if record.transaction_type == "deposit".to_owned() {
            match record.amount {
                Some(amount) => Ok(
                    Transaction::new(
                        record.client,
                        record.tx,
                        TransactionType::Deposit { amount },
                    ),
                ),
                None => Err(LedgerError::MissingAmount),
            }
        } else if record.transaction_type == "withdrawal".to_owned() {
            match record.amount {
                Some(amount) => Ok(
                    Transaction::new(
                        record.client,
                        record.tx,
                        TransactionType::Withdrawal { amount },
                    ),
                ),
                None => Err(LedgerError::MissingAmount),
            }
        } else if record.transaction_type == "dispute".to_owned() {
            Ok(Transaction::new(record.client, record.tx, TransactionType::Dispute))
        } else if record.transaction_type == "resolve".to_owned() {
            Ok(Transaction::new(record.client, record.tx, TransactionType::Resolve))
        } else if record.transaction_type == "chargeback".to_owned() {
            Ok(Transaction::new(record.client, record.tx, TransactionType::Chargeback))
        } else {
            Err(LedgerError::UnknownKind)
        }
    }
}

} // verus!
