use micro_chat_server::biz;
use micro_chat_server::db::{DbError, FaultPlan, LogEntry, MemDb};
use micro_chat_server::executor::Executor;
use micro_chat_server::pool::{BackendKind, Pool, PoolOptions};
use micro_chat_server::transaction::{AmbientContext, Tx, TxFactory as TxFactoryTrait};
use micro_chat_server::uow::{new_tx_provider, TxFactory, UowError, Workload, WorkloadOutcome};

fn small_pool(max: u32) -> Pool {
    let mut opts = PoolOptions::new();
    opts.max_connections = max;
    Pool::new(BackendKind::MySql, opts)
}

fn commit_count(log: &[LogEntry], c: u64) -> usize {
    log.iter().filter(|e| **e == LogEntry::Commit(c)).count()
}

fn rollback_count(log: &[LogEntry], c: u64) -> usize {
    log.iter().filter(|e| **e == LogEntry::Rollback(c)).count()
}

#[test]
fn success_commits_exactly_once() {
    let provider = new_tx_provider();
    let mut pool = small_pool(4);
    let mut db = MemDb::new(FaultPlan::none());
    let mut ctx = AmbientContext::new();
    let w = Workload { steps: vec![10, 11], outcome: WorkloadOutcome::Success(7) };
    let r = provider.exec(&mut pool, &mut db, &mut ctx, w);
    assert_eq!(r, Ok(7));
    assert_eq!(commit_count(&db.log, 0), 1);
    assert_eq!(rollback_count(&db.log, 0), 0);
    assert_eq!(
        db.log,
        vec![
            LogEntry::Begin(0),
            LogEntry::Exec(0, 10),
            LogEntry::Exec(0, 11),
            LogEntry::Commit(0)
        ]
    );
    assert_eq!(db.committed, vec![10, 11]);
}

#[test]
fn failure_rolls_back_exactly_once_and_keeps_original_error() {
    let provider = new_tx_provider();
    let mut pool = small_pool(4);
    let mut db = MemDb::new(FaultPlan::none());
    let mut ctx = AmbientContext::new();
    let w = Workload {
        steps: vec![10],
        outcome: WorkloadOutcome::Failure(biz::Error::UsernameDuplicate),
    };
    let r = provider.exec(&mut pool, &mut db, &mut ctx, w);
    assert_eq!(r, Err(UowError::Workload(biz::Error::UsernameDuplicate)));
    assert_eq!(commit_count(&db.log, 0), 0);
    assert_eq!(rollback_count(&db.log, 0), 1);
    assert!(db.committed.is_empty());
}

#[test]
fn handle_finalizes_only_once() {
    let fact = TxFactory::new();
    let mut pool = small_pool(4);
    let mut db = MemDb::new(FaultPlan::none());
    let mut h = fact.tx(&mut pool, &mut db).unwrap();
    assert_eq!(h.commit(&mut pool, &mut db), Ok(()));
    let log_after = db.log.clone();
    let checked_after = pool.checked_out.clone();
    assert_eq!(h.commit(&mut pool, &mut db), Err(DbError::HandleAlreadyFinalized));
    assert_eq!(h.rollback(&mut pool, &mut db), Err(DbError::HandleAlreadyFinalized));
    // no database side effect and no pool movement from the refused attempts
    assert_eq!(db.log, log_after);
    assert_eq!(pool.checked_out, checked_after);
}

#[test]
fn rollback_then_commit_is_refused() {
    let fact = TxFactory::new();
    let mut pool = small_pool(4);
    let mut db = MemDb::new(FaultPlan::none());
    let mut h = fact.tx(&mut pool, &mut db).unwrap();
    assert_eq!(h.rollback(&mut pool, &mut db), Ok(()));
    assert_eq!(h.commit(&mut pool, &mut db), Err(DbError::HandleAlreadyFinalized));
}

#[test]
fn workload_statements_share_one_connection() {
    let provider = new_tx_provider();
    let mut pool = small_pool(4);
    let mut db = MemDb::new(FaultPlan::none());
    let mut ctx = AmbientContext::new();
    let w = Workload { steps: vec![1, 2, 3, 4], outcome: WorkloadOutcome::Success(0) };
    provider.exec(&mut pool, &mut db, &mut ctx, w).unwrap();
    let conns: Vec<u64> = db
        .log
        .iter()
        .map(|e| match e {
            LogEntry::Begin(c)
            | LogEntry::Exec(c, _)
            | LogEntry::Query(c)
            | LogEntry::Commit(c)
            | LogEntry::Rollback(c) => *c,
        })
        .collect();
    assert!(conns.iter().all(|c| *c == conns[0]));
}

#[test]
fn concurrent_operations_never_share_a_connection() {
    let provider = new_tx_provider();
    let mut pool = small_pool(4);
    let mut db = MemDb::new(FaultPlan::none());
    let mut ctx1 = AmbientContext::new();
    let mut ctx2 = AmbientContext::new();
    let w1 = Workload { steps: vec![1], outcome: WorkloadOutcome::Success(0) };
    let w2 = Workload { steps: vec![2], outcome: WorkloadOutcome::Success(0) };
    provider.exec(&mut pool, &mut db, &mut ctx1, w1).unwrap();
    provider.exec(&mut pool, &mut db, &mut ctx2, w2).unwrap();
    // each operation got its own fresh connection
    assert!(db.log.contains(&LogEntry::Exec(0, 1)));
    assert!(db.log.contains(&LogEntry::Exec(1, 2)));
    assert_eq!(commit_count(&db.log, 0), 1);
    assert_eq!(commit_count(&db.log, 1), 1);
}

#[test]
fn interleaved_transactions_observe_only_their_own_binding() {
    let fact = TxFactory::new();
    let mut pool = small_pool(4);
    let mut db = MemDb::new(FaultPlan::none());
    let h1 = fact.tx(&mut pool, &mut db).unwrap();
    let h2 = fact.tx(&mut pool, &mut db).unwrap();
    let mut ctx1 = AmbientContext::new();
    let mut ctx2 = AmbientContext::new();
    ctx1.bind(h1);
    ctx2.bind(h2);
    assert_eq!(ctx1.current(), Some(0));
    assert_eq!(ctx2.current(), Some(1));
    // interleave statements of the two operations
    Executor::execute(&mut db, &mut pool, &ctx1, 100).unwrap();
    Executor::execute(&mut db, &mut pool, &ctx2, 200).unwrap();
    Executor::execute(&mut db, &mut pool, &ctx1, 101).unwrap();
    // each context still sees its own handle, and each transaction only
    // its own writes
    assert_eq!(ctx1.current(), Some(0));
    assert_eq!(ctx2.current(), Some(1));
    let seen1 = Executor::query(&mut db, &mut pool, &ctx1).unwrap();
    let seen2 = Executor::query(&mut db, &mut pool, &ctx2).unwrap();
    assert_eq!(seen1, vec![100, 101]);
    assert_eq!(seen2, vec![200]);
    let mut h1 = ctx1.take().unwrap();
    let mut h2 = ctx2.take().unwrap();
    h1.commit(&mut pool, &mut db).unwrap();
    h2.rollback(&mut pool, &mut db).unwrap();
    assert_eq!(db.committed, vec![100, 101]);
}

#[test]
fn nested_unit_of_work_fails_fast() {
    let provider = new_tx_provider();
    let fact = TxFactory::new();
    let mut pool = small_pool(4);
    let mut db = MemDb::new(FaultPlan::none());
    let mut ctx = AmbientContext::new();
    let h = fact.tx(&mut pool, &mut db).unwrap();
    ctx.bind(h);
    let w = Workload { steps: vec![1], outcome: WorkloadOutcome::Success(0) };
    let r = provider.exec(&mut pool, &mut db, &mut ctx, w);
    assert_eq!(r, Err(UowError::TransactionAlreadyActive));
    // the outer transaction is still bound and still open
    assert_eq!(ctx.current(), Some(0));
    let mut h = ctx.take().unwrap();
    h.rollback(&mut pool, &mut db).unwrap();
}

#[test]
fn inserted_row_visible_after_successful_run() {
    let provider = new_tx_provider();
    let mut pool = small_pool(4);
    let mut db = MemDb::new(FaultPlan::none());
    let mut ctx = AmbientContext::new();
    let w = Workload { steps: vec![42], outcome: WorkloadOutcome::Success(1) };
    provider.exec(&mut pool, &mut db, &mut ctx, w).unwrap();
    let visible = Executor::query(&mut db, &mut pool, &ctx).unwrap();
    assert_eq!(visible, vec![42]);
}

#[test]
fn inserted_row_invisible_after_failed_run() {
    let provider = new_tx_provider();
    let mut pool = small_pool(4);
    let mut db = MemDb::new(FaultPlan::none());
    let mut ctx = AmbientContext::new();
    let w = Workload {
        steps: vec![42],
        outcome: WorkloadOutcome::Failure(biz::Error::PhoneDuplicate),
    };
    let r = provider.exec(&mut pool, &mut db, &mut ctx, w);
    assert!(r.is_err());
    let visible = Executor::query(&mut db, &mut pool, &ctx).unwrap();
    assert!(visible.is_empty());
}

#[test]
fn cancelled_workload_rolls_back_and_frees_its_connection() {
    let provider = new_tx_provider();
    let mut pool = small_pool(4);
    let mut db = MemDb::new(FaultPlan::none());
    let mut ctx = AmbientContext::new();
    let w = Workload { steps: vec![1, 2, 3], outcome: WorkloadOutcome::Cancelled(1) };
    let r = provider.exec(&mut pool, &mut db, &mut ctx, w);
    assert_eq!(r, Err(UowError::Cancelled));
    // only the first statement ran, nothing is visible, the connection is
    // back and no transaction is left open
    assert_eq!(
        db.log,
        vec![LogEntry::Begin(0), LogEntry::Exec(0, 1), LogEntry::Rollback(0)]
    );
    assert!(db.committed.is_empty());
    assert!(pool.checked_out.is_empty());
    assert!(db.open.is_empty());
}

#[test]
fn commit_failure_discards_the_connection_and_fails_the_operation() {
    let provider = new_tx_provider();
    let mut pool = small_pool(4);
    let mut db = MemDb::new(FaultPlan { fail_begin: false, fail_commit: true, fail_rollback: false });
    let mut ctx = AmbientContext::new();
    let w = Workload { steps: vec![5], outcome: WorkloadOutcome::Success(9) };
    let r = provider.exec(&mut pool, &mut db, &mut ctx, w);
    assert_eq!(r, Err(UowError::Commit(DbError::CommitFailed)));
    assert!(db.committed.is_empty());
    assert!(pool.checked_out.is_empty());
    assert_eq!(pool.dead, vec![0]);
    assert_eq!(commit_count(&db.log, 0), 0);
}

#[test]
fn rollback_failure_after_workload_error_surfaces_both() {
    let provider = new_tx_provider();
    let mut pool = small_pool(4);
    let mut db = MemDb::new(FaultPlan { fail_begin: false, fail_commit: false, fail_rollback: true });
    let mut ctx = AmbientContext::new();
    let w = Workload {
        steps: vec![5],
        outcome: WorkloadOutcome::Failure(biz::Error::EmailDuplicate),
    };
    let r = provider.exec(&mut pool, &mut db, &mut ctx, w);
    assert_eq!(
        r,
        Err(UowError::RollbackAfterWorkloadError {
            workload: biz::Error::EmailDuplicate,
            rollback: DbError::RollbackFailed,
        })
    );
    assert!(db.committed.is_empty());
    assert_eq!(pool.dead, vec![0]);
}

#[test]
fn begin_failure_runs_no_workload() {
    let provider = new_tx_provider();
    let mut pool = small_pool(4);
    let mut db = MemDb::new(FaultPlan { fail_begin: true, fail_commit: false, fail_rollback: false });
    let mut ctx = AmbientContext::new();
    let w = Workload { steps: vec![5], outcome: WorkloadOutcome::Success(9) };
    let r = provider.exec(&mut pool, &mut db, &mut ctx, w);
    assert_eq!(r, Err(UowError::Begin(DbError::BeginFailed)));
    assert!(db.log.is_empty());
    assert!(pool.checked_out.is_empty());
}

#[test]
fn unit_of_work_at_pool_capacity_reports_exhaustion() {
    let provider = new_tx_provider();
    let mut pool = small_pool(1);
    let mut db = MemDb::new(FaultPlan::none());
    let fact = TxFactory::new();
    let _held = fact.tx(&mut pool, &mut db).unwrap();
    let mut ctx = AmbientContext::new();
    let w = Workload { steps: vec![5], outcome: WorkloadOutcome::Success(9) };
    let r = provider.exec(&mut pool, &mut db, &mut ctx, w);
    assert_eq!(r, Err(UowError::Begin(DbError::PoolExhausted)));
}

#[test]
fn executor_without_binding_writes_durably_per_call() {
    let mut pool = small_pool(2);
    let mut db = MemDb::new(FaultPlan::none());
    let ctx = AmbientContext::new();
    assert_eq!(Executor::execute(&mut db, &mut pool, &ctx, 77), Ok(1));
    assert_eq!(db.committed, vec![77]);
    // the per-call connection went straight back
    assert!(pool.checked_out.is_empty());
    let rows = Executor::query(&mut db, &mut pool, &ctx).unwrap();
    assert_eq!(rows, vec![77]);
}

#[test]
fn fetch_tx_reports_the_current_binding() {
    let provider = new_tx_provider();
    let fact = TxFactory::new();
    let mut pool = small_pool(2);
    let mut db = MemDb::new(FaultPlan::none());
    let mut ctx = AmbientContext::new();
    assert_eq!(provider.fetch_tx(&ctx), None);
    let h = fact.tx(&mut pool, &mut db).unwrap();
    ctx.bind(h);
    assert_eq!(provider.fetch_tx(&ctx), Some(0));
    let mut h = ctx.take().unwrap();
    assert_eq!(provider.fetch_tx(&ctx), None);
    h.rollback(&mut pool, &mut db).unwrap();
}

#[test]
fn rollback_failure_after_cancellation_is_surfaced() {
    let provider = new_tx_provider();
    let mut pool = small_pool(4);
    let mut db = MemDb::new(FaultPlan { fail_begin: false, fail_commit: false, fail_rollback: true });
    let mut ctx = AmbientContext::new();
    let w = Workload { steps: vec![3], outcome: WorkloadOutcome::Cancelled(0) };
    let r = provider.exec(&mut pool, &mut db, &mut ctx, w);
    assert_eq!(r, Err(UowError::RollbackFailedAfterCancel(DbError::RollbackFailed)));
    assert!(db.committed.is_empty());
    assert_eq!(pool.dead, vec![0]);
}

#[test]
fn executor_without_binding_needs_a_free_connection() {
    let mut pool = small_pool(1);
    let mut db = MemDb::new(FaultPlan::none());
    let _held = pool.try_acquire().unwrap();
    let ctx = AmbientContext::new();
    assert_eq!(Executor::execute(&mut db, &mut pool, &ctx, 5), Err(DbError::PoolExhausted));
    assert_eq!(Executor::query(&mut db, &mut pool, &ctx), Err(DbError::PoolExhausted));
    assert!(db.log.is_empty());
}

#[test]
fn db_errors_describe_themselves() {
    assert_eq!(DbError::PoolExhausted.message(), "no connection became free before the acquire deadline");
    assert_eq!(DbError::BeginFailed.message(), "the transaction could not be opened");
    assert_eq!(DbError::CommitFailed.message(), "the commit failed");
    assert_eq!(DbError::RollbackFailed.message(), "the rollback failed");
    assert_eq!(DbError::HandleAlreadyFinalized.message(), "the transaction was already finalized");
}
