use ledger::account::Account;
use ledger::amount::Amount;
use ledger::transaction::{Transaction, TransactionType};

/// Locks an account the only way the public API offers: a zero-amount
/// deposit is disputed and charged back, which sets the lock flag and leaves
/// every balance as it was.
fn lock(account: &mut Account, tx: u32) {
    let client = account.client();
    account
        .process_transaction(Transaction::new(
            client,
            tx,
            TransactionType::Deposit { amount: Amount::from_units(0) },
        ))
        .unwrap();
    account
        .process_transaction(Transaction::new(client, tx, TransactionType::Dispute))
        .unwrap();
    account
        .process_transaction(Transaction::new(client, tx, TransactionType::Chargeback))
        .unwrap();
    assert!(account.locked());
}

#[test]
fn deposit_locked_account_fails() {
    let mut account = Account::new(1);
    lock(&mut account, 9);
    let deposit_tx = Transaction::new(
        1,
        1,
        TransactionType::Deposit { amount: Amount::from_units(1_000_000) },
    );

    let result = account.process_transaction(deposit_tx);

    assert!(result.is_err());
    assert!(account.available() == Amount::zero());
}

#[test]
fn deposit_negative_amount_fails() {
    let mut account = Account::new(1);
    let deposit_tx = Transaction::new(
        1,
        1,
        TransactionType::Deposit { amount: Amount::from_units(-10) },
    );

    let result = account.process_transaction(deposit_tx);

    assert!(result.is_err());
    assert!(account.available() == Amount::from_units(0));
}

#[test]
fn deposit_increases_available_and_total() {
    let mut account = Account::new(1);
    let deposit_tx = Transaction::new(
        1,
        1,
        TransactionType::Deposit { amount: Amount::from_units(1_000_100) },
    );

    account.process_transaction(deposit_tx).unwrap();

    assert_eq!(account.available(), Amount::from_units(1_000_100));
    assert_eq!(account.total(), Amount::from_units(1_000_100));
}

#[test]
fn withdraw_locked_account_fails() {
    let mut account = Account::new(1);
    let deposit_tx = Transaction::new(
        1,
        1,
        TransactionType::Deposit { amount: Amount::from_units(1_000_000) },
    );
    account.process_transaction(deposit_tx).unwrap();
    lock(&mut account, 9);
    let withdraw_tx = Transaction::new(
        1,
        2,
        TransactionType::Withdrawal { amount: Amount::from_units(100_000) },
    );

    let result = account.process_transaction(withdraw_tx);

    assert!(result.is_err());
    assert!(account.available() == Amount::from_units(1_000_000));
}

#[test]
fn withdraw_negative_amount_fails() {
    let mut account = Account::new(1);
    let deposit_tx = Transaction::new(
        1,
        1,
        TransactionType::Deposit { amount: Amount::from_units(1_000_000) },
    );
    account.process_transaction(deposit_tx).unwrap();
    let withdraw_tx = Transaction::new(
        1,
        2,
        TransactionType::Withdrawal { amount: Amount::from_units(-10) },
    );

    let result = account.process_transaction(withdraw_tx);

    assert!(result.is_err());
    assert!(account.available() == Amount::from_units(1_000_000));
}

#[test]
fn withdraw_decreases_available_and_total() {
    let mut account = Account::new(1);
    let deposit_tx = Transaction::new(
        1,
        1,
        TransactionType::Deposit { amount: Amount::from_units(1_000_100) },
    );
    account.process_transaction(deposit_tx).unwrap();
    let withdraw_tx = Transaction::new(
        1,
        2,
        TransactionType::Withdrawal { amount: Amount::from_units(500_000) },
    );

    let result = account.process_transaction(withdraw_tx);

    assert_eq!(account.available(), Amount::from_units(500_100));
    assert_eq!(account.total(), Amount::from_units(500_100));
    assert!(result.is_ok());
}

#[test]
fn dispute_cannot_dispute_transaction_twice() {
    let mut account = Account::new(1);
    let deposit_tx = Transaction::new(
        1,
        1,
        TransactionType::Deposit { amount: Amount::from_units(1_000_000) },
    );

    account.process_transaction(deposit_tx).unwrap();
    let tx = Transaction::new(1, 1, TransactionType::Dispute);
    account.process_transaction(tx.clone()).unwrap();

    let result = account.process_transaction(tx);

    assert!(result.is_err());
}

#[test]
fn dispute_transaction_not_found_fails() {
    let mut account = Account::new(1);
    let tx = Transaction::new(1, 1, TransactionType::Dispute);

    let result = account.process_transaction(tx);

    assert!(result.is_err());
}

#[test]
fn dispute_can_decrease_balance_to_debt() {
    let mut account = Account::new(1);
    let deposit_tx = Transaction::new(
        1,
        1,
        TransactionType::Deposit { amount: Amount::from_units(1_000_000) },
    );

    account.process_transaction(deposit_tx).unwrap();

    let withdraw_tx = Transaction::new(
        1,
        2,
        TransactionType::Withdrawal { amount: Amount::from_units(1_000_000) },
    );
    account.process_transaction(withdraw_tx).unwrap();

    let tx = Transaction::new(1, 1, TransactionType::Dispute);

    let result = account.process_transaction(tx);

    assert!(result.is_ok());
    assert_eq!(account.available(), Amount::from_units(-1_000_000));
}

#[test]
fn dispute_only_deposit_transactions() {
    let mut account = Account::new(1);
    let deposit_tx = Transaction::new(
        1,
        1,
        TransactionType::Deposit { amount: Amount::from_units(1_000_000) },
    );
    account.process_transaction(deposit_tx).unwrap();

    let withdraw_tx = Transaction::new(
        1,
        2,
        TransactionType::Withdrawal { amount: Amount::from_units(500_000) },
    );
    account.process_transaction(withdraw_tx).unwrap();
    let tx = Transaction::new(1, 2, TransactionType::Dispute);

    let result = account.process_transaction(tx);

    assert!(result.is_err());
}

#[test]
fn dispute_lowers_available_and_increases_withheld() {
    let mut account = Account::new(1);
    let deposit_tx = Transaction::new(
        1,
        1,
        TransactionType::Deposit { amount: Amount::from_units(1_000_000) },
    );

    account.process_transaction(deposit_tx).unwrap();

    assert_eq!(account.available(), Amount::from_units(1_000_000));
    assert_eq!(account.withheld(), Amount::from_units(0));

    let tx = Transaction::new(1, 1, TransactionType::Dispute);

    account.process_transaction(tx).unwrap();

    assert_eq!(account.available(), Amount::from_units(0));
    assert_eq!(account.withheld(), Amount::from_units(1_000_000));
}

#[test]
fn resolve_transaction_not_disputed_fails() {
    let mut account = Account::new(1);
    let tx = Transaction::new(1, 1, TransactionType::Resolve);

    let result = account.process_transaction(tx);

    assert!(result.is_err());
}

#[test]
fn resolve_increases_available_and_decreases_withheld() {
    let mut account = Account::new(1);
    let deposit_tx = Transaction::new(
        1,
        1,
        TransactionType::Deposit { amount: Amount::from_units(1_000_000) },
    );
    account.process_transaction(deposit_tx).unwrap();

    let dispute_tx = Transaction::new(1, 1, TransactionType::Dispute);
    account.process_transaction(dispute_tx).unwrap();

    assert_eq!(account.available(), Amount::from_units(0));
    assert_eq!(account.withheld(), Amount::from_units(1_000_000));

    let resolve_tx = Transaction::new(1, 1, TransactionType::Resolve);
    account.process_transaction(resolve_tx).unwrap();

    assert_eq!(account.available(), Amount::from_units(1_000_000));
    assert_eq!(account.withheld(), Amount::from_units(0));
}

#[test]
fn chargeback_transaction_not_disputed_fails() {
    let mut account = Account::new(1);
    let tx = Transaction::new(1, 1, TransactionType::Chargeback);

    let result = account.process_transaction(tx);

    assert!(result.is_err());
}

#[test]
fn chargeback_decreases_total_and_withheld() {
    let mut account = Account::new(1);
    let deposit_tx = Transaction::new(
        1,
        1,
        TransactionType::Deposit { amount: Amount::from_units(1_000_000) },
    );
    account.process_transaction(deposit_tx).unwrap();

    let dispute_tx = Transaction::new(1, 1, TransactionType::Dispute);
    account.process_transaction(dispute_tx).unwrap();

    assert_eq!(account.total(), Amount::from_units(1_000_000));
    assert_eq!(account.withheld(), Amount::from_units(1_000_000));

    let chargeback_tx = Transaction::new(1, 1, TransactionType::Chargeback);
    account.process_transaction(chargeback_tx).unwrap();

    assert_eq!(account.total(), Amount::from_units(0));
    assert_eq!(account.withheld(), Amount::from_units(0));
}

#[test]
fn chargeback_locks_account() {
    let mut account = Account::new(1);
    let deposit_tx = Transaction::new(
        1,
        1,
        TransactionType::Deposit { amount: Amount::from_units(1_000_000) },
    );
    account.process_transaction(deposit_tx).unwrap();

    let dispute_tx = Transaction::new(1, 1, TransactionType::Dispute);
    account.process_transaction(dispute_tx).unwrap();

    assert!(!account.locked());

    let chargeback_tx = Transaction::new(1, 1, TransactionType::Chargeback);
    account.process_transaction(chargeback_tx).unwrap();

    assert!(account.locked());
}
