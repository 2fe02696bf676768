use ledger::amount::Amount;
use ledger::engine::Engine;
use ledger::error::LedgerError;
use ledger::runner::FileRunner;
use ledger::transaction::{Transaction, TransactionType};
use ledger::transaction_record::TransactionRecord;

fn deposit(client: u16, tx: u32, units: i128) -> Transaction {
    Transaction::new(client, tx, TransactionType::Deposit { amount: Amount::from_units(units) })
}

fn record(kind: &str, client: u16, tx: u32, units: Option<i128>) -> TransactionRecord {
    TransactionRecord {
        transaction_type: String::from(kind),
        client,
        tx,
        amount: units.map(Amount::from_units),
    }
}

#[test]
fn engine_creates_accounts_lazily_and_routes_by_client() {
    let mut engine = Engine::new();
    assert!(engine.get_accounts().is_empty());

    engine.process_transaction(deposit(1, 1, 1_000_000)).unwrap();
    engine.process_transaction(deposit(2, 2, 250_000)).unwrap();
    engine.process_transaction(deposit(1, 3, 500_000)).unwrap();

    let accounts = engine.get_accounts();
    assert_eq!(accounts.len(), 2);
    assert_eq!(accounts[&1].available(), Amount::from_units(1_500_000));
    assert_eq!(accounts[&2].available(), Amount::from_units(250_000));
}

#[test]
fn engine_rejection_still_creates_the_account() {
    let mut engine = Engine::new();

    let result = engine.process_transaction(Transaction::new(5, 1, TransactionType::Dispute));
    assert_eq!(result, Err(LedgerError::TransactionNotFound));

    let accounts = engine.get_accounts();
    assert_eq!(accounts.len(), 1);
    assert_eq!(accounts[&5].available(), Amount::from_units(0));
    assert!(!accounts[&5].locked());
}

#[test]
fn engine_dispute_routes_to_the_owning_account() {
    let mut engine = Engine::new();

    engine.process_transaction(deposit(1, 1, 1_000_000)).unwrap();
    engine.process_transaction(deposit(2, 2, 1_000_000)).unwrap();
    engine
        .process_transaction(Transaction::new(1, 1, TransactionType::Dispute))
        .unwrap();

    let accounts = engine.get_accounts();
    assert_eq!(accounts[&1].withheld(), Amount::from_units(1_000_000));
    assert_eq!(accounts[&2].withheld(), Amount::from_units(0));
}

#[test]
fn clients_sorted_lists_every_client_ascending() {
    let mut engine = Engine::new();
    engine.process_transaction(deposit(40, 1, 100)).unwrap();
    engine.process_transaction(deposit(2, 2, 100)).unwrap();
    engine.process_transaction(deposit(65535, 3, 100)).unwrap();
    engine.process_transaction(deposit(0, 4, 100)).unwrap();
    engine.process_transaction(deposit(2, 5, 100)).unwrap();

    assert_eq!(engine.clients_sorted(), vec![0, 2, 40, 65535]);
}

#[test]
fn runner_skips_malformed_and_rejected_records() {
    let engine_runner = FileRunner::new();
    let mut engine = Engine::new();
    let records = vec![
        record("deposit", 1, 1, Some(1_000_000)),
        record("Deposit", 1, 2, Some(999)),
        record("deposit", 1, 3, None),
        record("withdrawal", 1, 4, Some(2_000_000)),
        record("withdrawal", 1, 5, Some(400_000)),
        record("dispute", 1, 1, None),
        record("gibberish", 1, 6, Some(1)),
        record("resolve", 1, 1, None),
    ];

    engine_runner.run(&records, &mut engine);

    let accounts = engine.get_accounts();
    assert_eq!(accounts.len(), 1);
    assert_eq!(accounts[&1].available(), Amount::from_units(600_000));
    assert_eq!(accounts[&1].withheld(), Amount::from_units(0));
    assert_eq!(accounts[&1].total(), Amount::from_units(600_000));
}

#[test]
fn runner_keeps_input_order_within_a_client() {
    let engine_runner = FileRunner::new();
    let mut engine = Engine::new();
    let records = vec![
        record("withdrawal", 1, 1, Some(100)),
        record("deposit", 1, 2, Some(100)),
        record("withdrawal", 1, 3, Some(100)),
    ];

    engine_runner.run(&records, &mut engine);

    let accounts = engine.get_accounts();
    assert_eq!(accounts[&1].total(), Amount::from_units(0));
}
