use sqlx_odbc::connection::{connect_result, ping_sql, CallLedger, CallOutcome, ConnectionState};
use sqlx_odbc::error::OdbcError;
use sqlx_odbc::options::OdbcConnectOptions;
use sqlx_odbc::transaction::{NativeOp, OdbcTransactionManager, TxRequest};

fn run(tx: &mut OdbcTransactionManager, req: TxRequest) -> Vec<NativeOp> {
    let ops = tx.plan(req);
    tx.complete(req, true);
    ops
}

#[test]
fn begin_commit_returns_to_idle() {
    let mut tx = OdbcTransactionManager::new();
    assert_eq!(run(&mut tx, TxRequest::Begin), vec![NativeOp::SetAutocommit(false)]);
    assert_eq!(tx.get_transaction_depth(), 1);
    assert!(!tx.autocommit());
    assert_eq!(run(&mut tx, TxRequest::Commit), vec![NativeOp::Commit, NativeOp::SetAutocommit(true)]);
    assert_eq!(tx.get_transaction_depth(), 0);
    assert!(tx.autocommit());
}

#[test]
fn nested_begin_commit_returns_to_idle_only_at_the_end() {
    let mut tx = OdbcTransactionManager::new();
    run(&mut tx, TxRequest::Begin);
    assert_eq!(run(&mut tx, TxRequest::Begin), vec![]);
    assert_eq!(tx.get_transaction_depth(), 2);
    assert_eq!(run(&mut tx, TxRequest::Commit), vec![NativeOp::Commit]);
    assert_eq!(tx.get_transaction_depth(), 1);
    assert!(!tx.autocommit());
    run(&mut tx, TxRequest::Commit);
    assert_eq!(tx.get_transaction_depth(), 0);
    assert!(tx.autocommit());
}

#[test]
fn rollback_and_idle_requests() {
    let mut tx = OdbcTransactionManager::new();
    assert_eq!(run(&mut tx, TxRequest::Commit), vec![]);
    assert_eq!(run(&mut tx, TxRequest::Rollback), vec![]);
    assert_eq!(tx.get_transaction_depth(), 0);
    run(&mut tx, TxRequest::Begin);
    tx.start_rollback();
    assert!(tx.needs_rollback());
    assert_eq!(tx.get_transaction_depth(), 1);
    assert_eq!(run(&mut tx, TxRequest::Rollback), vec![NativeOp::Rollback, NativeOp::SetAutocommit(true)]);
    assert!(!tx.needs_rollback());
    assert_eq!(tx.get_transaction_depth(), 0);
}

#[test]
fn failed_native_call_leaves_state() {
    let mut tx = OdbcTransactionManager::new();
    tx.complete(TxRequest::Begin, false);
    assert_eq!(tx.get_transaction_depth(), 0);
    assert!(tx.autocommit());
}

#[test]
fn connection_state_maps_outcomes() {
    let mut c = ConnectionState::new(OdbcConnectOptions::new("DSN=x"));
    assert!(c.ensure_usable().is_ok());
    assert_eq!(c.finish_execute(CallOutcome::Completed, Some(3)).unwrap().rows_affected(), 3);
    assert_eq!(c.finish_execute(CallOutcome::Completed, None).unwrap().rows_affected(), 0);
    match c.finish_execute(CallOutcome::Failed("[42000] bad".to_string()), Some(1)) {
        Err(OdbcError::Protocol(m)) => assert_eq!(m, "[42000] bad"),
        other => panic!("unexpected {:?}", other),
    }
    assert!(c.usable);
    let ops = c.plan_transaction(TxRequest::Begin);
    assert_eq!(ops, vec![NativeOp::SetAutocommit(false)]);
    assert!(c.finish_transaction(TxRequest::Begin, CallOutcome::Completed).is_ok());
    assert_eq!(c.transactions.get_transaction_depth(), 1);
    assert!(matches!(c.finish_call(CallOutcome::WorkerCrashed), Err(OdbcError::WorkerCrashed)));
    assert!(!c.usable);
    assert!(matches!(c.ensure_usable(), Err(OdbcError::WorkerCrashed)));
}

#[test]
fn connect_failures_are_configuration_errors() {
    assert!(connect_result(CallOutcome::Completed).is_ok());
    assert!(matches!(connect_result(CallOutcome::Failed("no".into())), Err(OdbcError::Configuration(m)) if m == "no"));
    assert_eq!(ping_sql(), "SELECT 1");
}

#[test]
fn ledger_counts_calls_and_refuses_overlap() {
    let mut l = CallLedger::new();
    for _ in 0..3 {
        assert!(l.begin_call().is_ok());
        assert!(l.is_in_flight());
        assert!(matches!(l.begin_call(), Err(OdbcError::Protocol(_))));
        l.end_call();
        assert!(!l.is_in_flight());
    }
    assert_eq!(l.calls(), 3);
    let mut full = CallLedger { started: u64::MAX, finished: u64::MAX };
    assert!(full.begin_call().is_err());
    assert_eq!(full.calls(), u64::MAX);
}
