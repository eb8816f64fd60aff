use tx_engine::engine::TxEngine;
use tx_engine::errors::{ProcessingError, TransactionError};
use tx_engine::transaction_record::{TransactionRecord, TransactionRecordType};
use tx_engine::{Amount, ClientId, TransactionId};

fn deposit(
    engine: &mut TxEngine,
    client: ClientId,
    amount: Amount,
    tx: TransactionId,
) -> Result<(), ProcessingError> {
    engine.process_tx(TransactionRecord {
        tx_type: TransactionRecordType::Deposit { amount },
        client,
        tx,
    })
}

fn withdrawal(
    engine: &mut TxEngine,
    client: ClientId,
    amount: Amount,
    tx: TransactionId,
) -> Result<(), ProcessingError> {
    engine.process_tx(TransactionRecord {
        tx_type: TransactionRecordType::Withdrawal { amount },
        client,
        tx,
    })
}

fn dispute(
    engine: &mut TxEngine,
    client: ClientId,
    tx: TransactionId,
) -> Result<(), ProcessingError> {
    engine.process_tx(TransactionRecord { tx_type: TransactionRecordType::Dispute, client, tx })
}

fn resolve(
    engine: &mut TxEngine,
    client: ClientId,
    tx: TransactionId,
) -> Result<(), ProcessingError> {
    engine.process_tx(TransactionRecord { tx_type: TransactionRecordType::Resolve, client, tx })
}

fn chargeback(
    engine: &mut TxEngine,
    client: ClientId,
    tx: TransactionId,
) -> Result<(), ProcessingError> {
    engine.process_tx(TransactionRecord { tx_type: TransactionRecordType::Chargeback, client, tx })
}

#[test]
fn test_deposit() {
    let mut engine = TxEngine::default();

    deposit(&mut engine, 1, 1001111, 1).unwrap();

    let clients = engine.get_clients();
    let client = &clients[0];
    assert_eq!(client.available(), 1001111);
    assert_eq!(client.held(), 0);
    assert_eq!(client.total(), 1001111);
}

#[test]
fn test_withdrawal_more_than_available() {
    let mut engine = TxEngine::default();

    deposit(&mut engine, 1, 1000000, 1).unwrap();

    assert_eq!(
        withdrawal(&mut engine, 1, 2000000, 2).unwrap_err(),
        ProcessingError::InsufficientFunds
    );
}

#[test]
fn test_client_id_mismatch() {
    let mut engine = TxEngine::default();

    deposit(&mut engine, 1, 1000000, 1).unwrap();

    assert_eq!(
        dispute(&mut engine, 2, 1).unwrap_err(),
        ProcessingError::ClientIdNotMatched
    );
}

#[test]
fn test_disputes_transaction_not_found() {
    let mut engine = TxEngine::default();

    assert_eq!(
        dispute(&mut engine, 1, 1).unwrap_err(),
        ProcessingError::InvalidTransaction(TransactionError::ReferredTxNotFound)
    );
}

#[test]
fn test_disputes_transaction_already_disputed() {
    let mut engine = TxEngine::default();

    deposit(&mut engine, 1, 1000000, 1).unwrap();
    dispute(&mut engine, 1, 1).unwrap();

    assert_eq!(
        dispute(&mut engine, 1, 1).unwrap_err(),
        ProcessingError::InvalidTransaction(TransactionError::CannotBeDisputed)
    );
}

#[test]
fn test_resolve_disputed_transaction() {
    let mut engine = TxEngine::default();

    deposit(&mut engine, 1, 1000000, 1).unwrap();

    dispute(&mut engine, 1, 1).unwrap();
    resolve(&mut engine, 1, 1).unwrap();

    let clients = engine.get_clients();
    let client = &clients[0];
    assert_eq!(client.available(), 1000000);
    assert_eq!(client.held(), 0);
    assert_eq!(client.total(), 1000000);
}

#[test]
fn test_resolved_transaction_cannot_be_disputed_again() {
    let mut engine = TxEngine::default();
    deposit(&mut engine, 1, 1000000, 1).unwrap();
    dispute(&mut engine, 1, 1).unwrap();
    resolve(&mut engine, 1, 1).unwrap();

    assert_eq!(
        dispute(&mut engine, 1, 1).unwrap_err(),
        ProcessingError::InvalidTransaction(TransactionError::CannotBeDisputed)
    );
}

#[test]
fn test_chargeback_disputed_transaction() {
    let mut engine = TxEngine::default();

    deposit(&mut engine, 1, 1000000, 1).unwrap();
    dispute(&mut engine, 1, 1).unwrap();
    chargeback(&mut engine, 1, 1).unwrap();

    let clients = engine.get_clients();
    let client = &clients[0];
    assert_eq!(client.available(), 0);
    assert_eq!(client.held(), 0);
    assert_eq!(client.total(), 0);
    assert!(client.is_locked());
}

#[test]
fn test_withdrawal_after_chargeback() {
    let mut engine = TxEngine::default();

    deposit(&mut engine, 1, 2000000, 1).unwrap();
    dispute(&mut engine, 1, 1).unwrap();
    chargeback(&mut engine, 1, 1).unwrap();

    assert_eq!(
        withdrawal(&mut engine, 1, 1000000, 2).unwrap_err(),
        ProcessingError::ClientLocked
    );
}

#[test]
fn test_negative_balance_after_dispute() {
    let mut engine = TxEngine::default();

    deposit(&mut engine, 1, 1000000, 1).unwrap();
    withdrawal(&mut engine, 1, 500000, 2).unwrap();

    let clients = engine.get_clients();
    let client = &clients[0];
    assert_eq!(client.available(), 500000);
    assert_eq!(client.held(), 0);
    assert_eq!(client.total(), 500000);

    dispute(&mut engine, 1, 1).unwrap();
    let clients = engine.get_clients();
    let client = &clients[0];

    assert_eq!(client.available(), -500000);
    assert_eq!(client.held(), 1000000);
    assert_eq!(client.total(), 500000);

    chargeback(&mut engine, 1, 1).unwrap();

    let clients = engine.get_clients();
    let client = &clients[0];

    assert_eq!(client.available(), -500000);
    assert_eq!(client.held(), 0);
    assert_eq!(client.total(), -500000);
}

#[test]
fn test_resolve_without_dispute() {
    let mut engine = TxEngine::default();

    deposit(&mut engine, 1, 1000000, 1).unwrap();

    assert_eq!(
        resolve(&mut engine, 1, 1).unwrap_err(),
        ProcessingError::InvalidTransaction(TransactionError::NotUnderDispute)
    );
    assert_eq!(
        chargeback(&mut engine, 1, 1).unwrap_err(),
        ProcessingError::InvalidTransaction(TransactionError::NotUnderDispute)
    );
}

#[test]
fn test_failed_withdrawal_still_creates_account() {
    let mut engine = TxEngine::default();

    assert_eq!(
        withdrawal(&mut engine, 7, 10000, 1).unwrap_err(),
        ProcessingError::InsufficientFunds
    );

    let clients = engine.get_clients();
    assert_eq!(clients.len(), 1);
    assert_eq!(clients[0].id(), 7);
    assert_eq!(clients[0].available(), 0);
    assert_eq!(clients[0].held(), 0);
    assert_eq!(clients[0].total(), 0);
    assert!(!clients[0].is_locked());
}

#[test]
fn test_two_clients_listed() {
    let mut engine = TxEngine::default();

    deposit(&mut engine, 1, 15000, 1).unwrap();
    deposit(&mut engine, 2, 20000, 2).unwrap();

    let mut clients = engine.get_clients();
    clients.sort_by_key(|c| c.id());
    assert_eq!(clients.len(), 2);
    assert_eq!(clients[0].id(), 1);
    assert_eq!(clients[0].available(), 15000);
    assert_eq!(clients[1].id(), 2);
    assert_eq!(clients[1].available(), 20000);
}

#[test]
fn test_try_process_out_of_range() {
    let mut engine = TxEngine::default();

    assert_eq!(engine.try_process_tx(TransactionRecord {
        tx_type: TransactionRecordType::Deposit { amount: i64::MAX },
        client: 1,
        tx: 1,
    }), Some(Ok(())));

    assert_eq!(engine.try_process_tx(TransactionRecord {
        tx_type: TransactionRecordType::Deposit { amount: 1 },
        client: 1,
        tx: 2,
    }), None);

    let clients = engine.get_clients();
    assert_eq!(clients[0].available(), i64::MAX);
}

#[test]
fn test_empty_engine_lists_no_accounts() {
    let engine = TxEngine::default();
    assert!(engine.get_clients().is_empty());
}

#[test]
fn test_deposit_reusing_tx_id_overwrites_history() {
    let mut engine = TxEngine::default();

    deposit(&mut engine, 1, 1000000, 1).unwrap();
    dispute(&mut engine, 1, 1).unwrap();
    // A second deposit under the same transaction id overwrites the stored
    // entry, so the new amount is committed and can be disputed afresh.
    deposit(&mut engine, 1, 500000, 1).unwrap();
    dispute(&mut engine, 1, 1).unwrap();

    let clients = engine.get_clients();
    let client = &clients[0];
    assert_eq!(client.available(), 0);
    assert_eq!(client.held(), 1500000);
    assert_eq!(client.total(), 1500000);
}

#[test]
fn test_error_messages() {
    assert_eq!(ProcessingError::InsufficientFunds.message(), "Insufficient funds");
    assert_eq!(ProcessingError::ClientLocked.message(), "Client is locked");
    assert_eq!(ProcessingError::ClientIdNotMatched.message(), "Client ID does not match");
    assert_eq!(
        ProcessingError::InvalidTransaction(TransactionError::ReferredTxNotFound).message(),
        "Referred transaction not found"
    );
    assert_eq!(
        TransactionError::CannotBeDisputed.message(),
        "Referred transaction is already under dispute, resolved or charged back"
    );
    assert_eq!(
        TransactionError::NotUnderDispute.message(),
        "Referred transaction is not under dispute"
    );
}
