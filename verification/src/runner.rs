use vstd::prelude::*;

use crate::account::AccountView;
use crate::engine::{route_step, Engine};
use crate::transaction::Transaction;
use crate::transaction_record::TransactionRecord;

verus! {

/// What one input record does to the table of account states: a record that
/// fails validation is skipped, any other is routed to its account, and a
/// transaction the account rejects leaves every balance unchanged.
pub open spec fn record_step(m: Map<u16, AccountView>, record: TransactionRecord) -> Map<
    u16,
    AccountView,
> {
    match record.parsed() {
        Ok(t) => route_step(m, t).1,
        Err(_) => m,
    }
}

/// What a whole batch of input records does to the table of account states,
/// applied strictly in input order.
pub open spec fn batch_step(m: Map<u16, AccountView>, records: Seq<TransactionRecord>) -> Map<
    u16,
    AccountView,
>
    decreases records.len(),
{
    if records.len() == 0 {
        m
    } else {
        record_step(batch_step(m, records.drop_last()), records.last())
    }
}

/// Drives batches of already-validated input records through an engine.
///
/// Reading rows from the input source and rendering the final balance table
/// are the adapter's work; this runner owns the order and the
/// skip-and-continue policy of the stream.
pub struct FileRunner;

impl FileRunner {
    pub fn new() -> (r: FileRunner) {
        FileRunner
    }

    /// Feeds every record through the engine in input order. A record that
    /// fails validation, and a transaction that its account rejects, are
    /// skipped; processing always continues with the next record.
    pub fn run(&self, records: &Vec<TransactionRecord>, engine: &mut Engine)
        requires
            old(engine).inv(),
        ensures
            final(engine).inv(),
            final(engine)@ == batch_step(old(engine)@, records@),
    {
        let mut i: usize = 0;
        while i < records.len()
            invariant
                i <= records@.len(),
                engine.inv(),
                engine@ == batch_step(old(engine)@, records@.take(i as int)),
            decreases records@.len() - i,
        {
            let ghost prefix = records@.take(i as int);
            match Transaction::try_from(&records[i]) {
                Ok(transaction) => {
                    let _ = engine.process_transaction(transaction);
                },
                Err(_) => {},
            }
            proof {
                assert(records@.take(i as int + 1).drop_last() =~= prefix);
                assert(records@.take(i as int + 1).last() == records@[i as int]);
            }
            i = i + 1;
        }
        proof {
            assert(records@.take(records@.len() as int) =~= records@);
        }
    }
}

} // verus!
