//! The unit-of-work driver: run a workload inside exactly one transaction.
//!
//! [`TxProvider::exec`] begins a transaction, binds it into the logical
//! operation's ambient context, routes every statement of the workload
//! through the executor, unbinds on every exit path, and then finalizes
//! exactly once: commit on success, rollback on failure or cancellation.
//! The workload's own error is never masked — if the rollback after it
//! fails too, both errors are surfaced together.
//!
//! Nesting policy: starting a unit of work on a context that is already
//! bound fails fast with [`UowError::TransactionAlreadyActive`]; a second
//! transaction is never opened beneath an active one.

use vstd::prelude::*;

use crate::biz;
use crate::db::{DbError, LogEntry, MemDb};
use crate::executor::{lemma_push_remove_value, Executor};
use crate::pool::Pool;
use crate::transaction::{consistent, AmbientContext, Tx, TxFactory as TxFactoryTrait, TxHandle};

verus! {

/// How a workload ended: a success value, a business failure, or a
/// cancellation after the given number of its statements had run.
pub enum WorkloadOutcome {
    Success(u64),
    Failure(biz::Error),
    Cancelled(usize),
}

/// A scripted workload: the row keys it writes, in order, and how it ends.
/// A cancelled workload performs only a prefix of its statements.
pub struct Workload {
    pub steps: Vec<u64>,
    pub outcome: WorkloadOutcome,
}

impl Workload {
    /// The statements that actually run before finalization.
    pub open spec fn performed(&self) -> Seq<u64> {
        match self.outcome {
            WorkloadOutcome::Cancelled(k) => if k <= self.steps@.len() {
                self.steps@.take(k as int)
            } else {
                self.steps@
            },
            _ => self.steps@,
        }
    }
}

/// Everything a unit of work can fail with.
#[derive(Debug, PartialEq, Eq)]
pub enum UowError {
    /// A unit of work was started inside an already-bound scope.
    TransactionAlreadyActive,
    /// The transaction could not be opened; the workload never ran.
    Begin(DbError),
    /// The workload succeeded but the commit failed: the operation as a
    /// whole failed, since its effects were not durably applied.
    Commit(DbError),
    /// The workload failed; its own error, surfaced unchanged.
    Workload(biz::Error),
    /// The workload failed and the rollback after it failed too; both are
    /// retained, since the transaction's final state is unknown.
    RollbackAfterWorkloadError { workload: biz::Error, rollback: DbError },
    /// The workload was cancelled mid-flight and its transaction rolled
    /// back.
    Cancelled,
    /// The workload was cancelled and the rollback failed.
    RollbackFailedAfterCancel(DbError),
}

/// Fold a workload outcome and the matching finalization result into the
/// unit of work's answer, masking nothing.
pub fn settle(outcome: WorkloadOutcome, fin: Result<(), DbError>) -> (r: Result<u64, UowError>)
    ensures
        outcome is Success && fin is Ok ==> r == Ok::<u64, UowError>(outcome->Success_0),
        outcome is Success && fin is Err ==> r == Err::<u64, UowError>(
            UowError::Commit(fin->Err_0),
        ),
        outcome is Failure && fin is Ok ==> r == Err::<u64, UowError>(
            UowError::Workload(outcome->Failure_0),
        ),
        outcome is Failure && fin is Err ==> r == Err::<u64, UowError>(
            UowError::RollbackAfterWorkloadError {
                workload: outcome->Failure_0,
                rollback: fin->Err_0,
            },
        ),
        outcome is Cancelled && fin is Ok ==> r == Err::<u64, UowError>(UowError::Cancelled),
        outcome is Cancelled && fin is Err ==> r == Err::<u64, UowError>(
            UowError::RollbackFailedAfterCancel(fin->Err_0),
        ),
{
    match outcome {
        WorkloadOutcome::Success(v) => match fin {
            Ok(()) => Ok(v),
            Err(e) => Err(UowError::Commit(e)),
        },
        WorkloadOutcome::Failure(w) => match fin {
            Ok(()) => Err(UowError::Workload(w)),
            Err(e) => Err(UowError::RollbackAfterWorkloadError { workload: w, rollback: e }),
        },
        WorkloadOutcome::Cancelled(_) => match fin {
            Ok(()) => Err(UowError::Cancelled),
            Err(e) => Err(UowError::RollbackFailedAfterCancel(e)),
        },
    }
}

/// The statements of one workload as the endpoint logs them: every entry
/// on connection `c`.
pub open spec fn exec_entries(c: u64, keys: Seq<u64>) -> Seq<LogEntry> {
    keys.map(|i: int, k: u64| LogEntry::Exec(c, k))
}

/// What a unit of work that never finalized (a failed commit or rollback)
/// leaves in the log.
pub open spec fn begun_suffix(c: u64, keys: Seq<u64>) -> Seq<LogEntry> {
    seq![LogEntry::Begin(c)] + exec_entries(c, keys)
}

/// What a successfully committed unit of work leaves in the log.
pub open spec fn committed_suffix(c: u64, keys: Seq<u64>) -> Seq<LogEntry> {
    begun_suffix(c, keys).push(LogEntry::Commit(c))
}

/// What a rolled-back unit of work leaves in the log.
pub open spec fn rolled_back_suffix(c: u64, keys: Seq<u64>) -> Seq<LogEntry> {
    begun_suffix(c, keys).push(LogEntry::Rollback(c))
}

/// The transaction factory over the modelled endpoint.
pub struct TxFactory {}

impl TxFactory {
    pub fn new() -> (r: TxFactory) {
        TxFactory {  }
    }
}

impl TxFactoryTrait<TxHandle> for TxFactory {
    fn tx(&self, pool: &mut Pool, db: &mut MemDb) -> (r: Result<TxHandle, DbError>) {
        match pool.try_acquire() {
            None => {
                proof {
                    assert forall|e: u64| #[trigger] db.has_open(e) implies pool.is_checked_out(
                        e,
                    ) by {
                        assert(old(pool).checked_out@.contains(e));
                    }
                }
                Err(DbError::PoolExhausted)
            },
            Some(c) => {
                proof {
                    assert(pool.checked_out@[pool.checked_out@.len() - 1] == c);
                    assert(pool.is_checked_out(c));
                    assert(!old(db).has_open(c));
                }
                match db.begin(c) {
                    Ok(()) => {
                        proof {
                            assert forall|e: u64| #[trigger] db.has_open(e) implies pool
                                .is_checked_out(e) by {
                                let s = db.open_conns();
                                let k = choose|k: int| 0 <= k < s.len() && s[k] == e;
                                if k < s.len() - 1 {
                                    assert(old(db).open_conns()[k] == e);
                                    assert(old(db).has_open(e));
                                    assert(old(pool).checked_out@.contains(e));
                                    let j = choose|j: int|
                                        0 <= j < old(pool).checked_out@.len() && old(
                                            pool,
                                        ).checked_out@[j] == e;
                                    assert(pool.checked_out@[j] == e);
                                } else {
                                    assert(e == c);
                                }
                            }
                        }
                        Ok(TxHandle::make(c))
                    },
                    Err(e) => {
                        let _ = pool.release(c);
                        proof {
                            lemma_push_remove_value(old(pool).checked_out@, c);
                            assert forall|e2: u64| #[trigger] db.has_open(e2) implies pool
                                .is_checked_out(e2) by {
                                assert(old(db).has_open(e2));
                                assert(old(pool).checked_out@.contains(e2));
                            }
                        }
                        Err(e)
                    },
                }
            },
        }
    }
}

/// Build a provider over the modelled endpoint.
pub fn new_tx_provider() -> (r: TxProvider) {
    TxProvider::new(TxFactory::new())
}

/// The unit-of-work orchestrator: owns the factory and drives one logical
/// operation per call.
pub struct TxProvider {
    fact: TxFactory,
}

impl TxProvider {
    pub fn new(fact: TxFactory) -> (r: TxProvider) {
        TxProvider { fact }
    }

    /// The transaction the calling scope is bound to, if any.
    pub fn fetch_tx(&self, ctx: &AmbientContext) -> (r: Option<u64>)
        ensures
            ctx.is_bound() ==> r == Some(ctx.bound_conn()),
            !ctx.is_bound() ==> r is None,
    {
        ctx.current()
    }

    /// Run one workload as a unit of work.
    ///
    /// Begin a transaction (propagating a begin failure without running
    /// the workload), bind it into `ctx` for the workload's whole
    /// execution, run the workload's statements through the executor,
    /// unbind on every exit path, then finalize exactly once: commit on
    /// success, rollback on failure or cancellation.  The contract pins
    /// the endpoint log, the durable rows, and the pool state for every
    /// combination of workload outcome and endpoint fault.
    pub fn exec(&self, pool: &mut Pool, db: &mut MemDb, ctx: &mut AmbientContext, w: Workload) -> (r:
        Result<u64, UowError>)
        requires
            old(pool).wf(),
            old(pool).can_allocate(),
            old(db).wf(),
            consistent(old(pool), old(db)),
        ensures
            final(pool).wf(),
            final(db).wf(),
            consistent(final(pool), final(db)),
            final(pool).backend == old(pool).backend,
            final(pool).opts == old(pool).opts,
            final(db).faults == old(db).faults,
            old(ctx).is_bound() ==> {
                &&& r == Err::<u64, UowError>(UowError::TransactionAlreadyActive)
                &&& *final(ctx) == *old(ctx)
                &&& *final(pool) == *old(pool)
                &&& *final(db) == *old(db)
            },
            !old(ctx).is_bound() ==> !final(ctx).is_bound(),
            !old(ctx).is_bound() && old(pool).at_capacity() ==> {
                &&& r == Err::<u64, UowError>(UowError::Begin(DbError::PoolExhausted))
                &&& final(pool).checked_out@ == old(pool).checked_out@
                &&& final(pool).next_conn == old(pool).next_conn
                &&& final(pool).dead@ == old(pool).dead@
                &&& final(db).committed@ == old(db).committed@
                &&& final(db).log@ == old(db).log@
                &&& final(db).open@ == old(db).open@
            },
            !old(ctx).is_bound() && !old(pool).at_capacity() && old(db).faults.fail_begin ==> {
                &&& r == Err::<u64, UowError>(UowError::Begin(DbError::BeginFailed))
                &&& final(pool).checked_out@ == old(pool).checked_out@
                &&& final(pool).dead@ == old(pool).dead@
                &&& final(db).committed@ == old(db).committed@
                &&& final(db).log@ == old(db).log@
                &&& final(db).open@ == old(db).open@
            },
            !old(ctx).is_bound() && !old(pool).at_capacity() && !old(db).faults.fail_begin ==> {
                let c = old(pool).next_conn;
                let keys = w.performed();
                {
                    &&& final(db).open@ == old(db).open@
                    &&& final(pool).checked_out@ == old(pool).checked_out@
                    &&& final(pool).next_conn == old(pool).next_conn + 1
                    &&& (w.outcome is Success ==> {
                        &&& (!old(db).faults.fail_commit ==> {
                            &&& r == Ok::<u64, UowError>(w.outcome->Success_0)
                            &&& final(db).committed@ == old(db).committed@ + keys
                            &&& final(db).log@ == old(db).log@ + committed_suffix(c, keys)
                            &&& final(pool).dead@ == old(pool).dead@
                        })
                        &&& (old(db).faults.fail_commit ==> {
                            &&& r == Err::<u64, UowError>(
                                UowError::Commit(DbError::CommitFailed),
                            )
                            &&& final(db).committed@ == old(db).committed@
                            &&& final(db).log@ == old(db).log@ + begun_suffix(c, keys)
                            &&& final(pool).dead@ == old(pool).dead@.push(c)
                        })
                    })
                    &&& (w.outcome is Failure ==> {
                        &&& final(db).committed@ == old(db).committed@
                        &&& (!old(db).faults.fail_rollback ==> {
                            &&& r == Err::<u64, UowError>(
                                UowError::Workload(w.outcome->Failure_0),
                            )
                            &&& final(db).log@ == old(db).log@ + rolled_back_suffix(c, keys)
                            &&& final(pool).dead@ == old(pool).dead@
                        })
                        &&& (old(db).faults.fail_rollback ==> {
                            &&& r == Err::<u64, UowError>(
                                UowError::RollbackAfterWorkloadError {
                                    workload: w.outcome->Failure_0,
                                    rollback: DbError::RollbackFailed,
                                },
                            )
                            &&& final(db).log@ == old(db).log@ + begun_suffix(c, keys)
                            &&& final(pool).dead@ == old(pool).dead@.push(c)
                        })
                    })
                    &&& (w.outcome is Cancelled ==> {
                        &&& final(db).committed@ == old(db).committed@
                        &&& (!old(db).faults.fail_rollback ==> {
                            &&& r == Err::<u64, UowError>(UowError::Cancelled)
                            &&& final(db).log@ == old(db).log@ + rolled_back_suffix(c, keys)
                            &&& final(pool).dead@ == old(pool).dead@
                        })
                        &&& (old(db).faults.fail_rollback ==> {
                            &&& r == Err::<u64, UowError>(
                                UowError::RollbackFailedAfterCancel(DbError::RollbackFailed),
                            )
                            &&& final(db).log@ == old(db).log@ + begun_suffix(c, keys)
                            &&& final(pool).dead@ == old(pool).dead@.push(c)
                        })
                    })
                }
            },
    {
        if ctx.current().is_some() {
            return Err(UowError::TransactionAlreadyActive);
        }
        let handle = match self.fact.tx(pool, db) {
            Err(e) => {
                return Err(UowError::Begin(e));
            },
            Ok(h) => h,
        };
        let ghost c = handle.conn();
        let ghost pool_snap = *pool;
        let ghost db_snap = *db;
        let ghost open_len = old(db).open@.len();
        ctx.bind(handle);
        let ghost ctx_snap = *ctx;
        proof {
            db_snap.lemma_txn_index(c);
            assert(db_snap.open_conns()[open_len as int] == c);
            assert(db_snap.txn_index(c) == open_len);
        }
        let kcount: usize = match &w.outcome {
            WorkloadOutcome::Cancelled(k) => {
                if *k <= w.steps.len() {
                    *k
                } else {
                    w.steps.len()
                }
            },
            _ => w.steps.len(),
        };
        let ghost keys = w.performed();
        let mut i: usize = 0;
        while i < kcount
            invariant
                kcount <= w.steps@.len(),
                0 <= i <= kcount,
                *pool == pool_snap,
                pool.wf(),
                *ctx == ctx_snap,
                ctx.is_bound(),
                ctx.bound_conn() == c,
                db.wf(),
                db.faults == db_snap.faults,
                db.open_conns() == db_snap.open_conns(),
                db.has_open(c),
                db.txn_index(c) == open_len,
                db.committed@ == db_snap.committed@,
                db.pending_of(c) == w.steps@.take(i as int),
                db.log@ == db_snap.log@ + exec_entries(c, w.steps@.take(i as int)),
                db.open@.len() == db_snap.open@.len(),
                forall|j: int|
                    0 <= j < open_len ==> #[trigger] db.open@[j] == db_snap.open@[j],
                consistent(pool, db),
            decreases kcount - i,
        {
            let key = w.steps[i];
            let res = Executor::execute(db, pool, ctx, key);
            proof {
                assert(res is Ok);
                assert(db.pending_of(c) =~= w.steps@.take(i as int + 1));
                assert(exec_entries(c, w.steps@.take(i as int + 1)) =~= exec_entries(
                    c,
                    w.steps@.take(i as int),
                ).push(LogEntry::Exec(c, key)));
                assert(db.log@ =~= db_snap.log@ + exec_entries(
                    c,
                    w.steps@.take(i as int + 1),
                ));
            }
            i += 1;
        }
        proof {
            assert(w.steps@.take(kcount as int) =~= keys);
        }
        let mut h: TxHandle = match ctx.take() {
            Some(h) => h,
            None => unreached(),
        };
        proof {
            assert(h.conn() == c);
            assert(!h.is_finalized());
            assert(pool.is_checked_out(c)) by {
                assert(pool.checked_out@[pool.checked_out@.len() - 1] == c);
            }
        }
        let fin = match &w.outcome {
            WorkloadOutcome::Success(_) => h.commit(pool, db),
            _ => h.rollback(pool, db),
        };
        proof {
            assert(db.open@ =~= old(db).open@);
            lemma_push_remove_value(old(pool).checked_out@, c);
            if !db.faults.fail_commit && w.outcome is Success {
                assert(db.log@ =~= old(db).log@ + committed_suffix(c, keys));
            }
            if w.outcome is Success && db.faults.fail_commit {
                assert(db.log@ =~= old(db).log@ + begun_suffix(c, keys));
            }
            if !(w.outcome is Success) && !db.faults.fail_rollback {
                assert(db.log@ =~= old(db).log@ + rolled_back_suffix(c, keys));
            }
            if !(w.outcome is Success) && db.faults.fail_rollback {
                assert(db.log@ =~= old(db).log@ + begun_suffix(c, keys));
            }
        }
        settle(w.outcome, fin)
    }
}


/// How many successful commits connection `d` has in this log piece.
pub open spec fn commit_count(log: Seq<LogEntry>, d: u64) -> int
    decreases log.len(),
{
    if log.len() == 0 {
        0
    } else {
        commit_count(log.drop_last(), d) + if log.last() == LogEntry::Commit(d) {
            1int
        } else {
            0int
        }
    }
}

/// How many successful rollbacks connection `d` has in this log piece.
pub open spec fn rollback_count(log: Seq<LogEntry>, d: u64) -> int
    decreases log.len(),
{
    if log.len() == 0 {
        0
    } else {
        rollback_count(log.drop_last(), d) + if log.last() == LogEntry::Rollback(d) {
            1int
        } else {
            0int
        }
    }
}

/// The connection an entry was carried on.
pub open spec fn entry_conn(e: LogEntry) -> u64 {
    match e {
        LogEntry::Begin(c) => c,
        LogEntry::Exec(c, _) => c,
        LogEntry::Query(c) => c,
        LogEntry::Commit(c) => c,
        LogEntry::Rollback(c) => c,
    }
}

/// Finalization counts distribute over log concatenation: what a unit of
/// work appends can be counted on its own suffix.
pub proof fn lemma_count_concat(a: Seq<LogEntry>, b: Seq<LogEntry>, d: u64)
    ensures
        commit_count(a + b, d) == commit_count(a, d) + commit_count(b, d),
        rollback_count(a + b, d) == rollback_count(a, d) + rollback_count(b, d),
    decreases b.len(),
{
    if b.len() == 0 {
        assert(a + b =~= a);
    } else {
        lemma_count_concat(a, b.drop_last(), d);
        assert((a + b).drop_last() =~= a + b.drop_last());
        assert((a + b).last() == b.last());
    }
}

/// A workload's statements alone finalize nothing.
proof fn lemma_exec_entries_counts(c: u64, keys: Seq<u64>, d: u64)
    ensures
        commit_count(exec_entries(c, keys), d) == 0,
        rollback_count(exec_entries(c, keys), d) == 0,
    decreases keys.len(),
{
    if keys.len() == 0 {
        assert(exec_entries(c, keys) =~= Seq::<LogEntry>::empty());
    } else {
        lemma_exec_entries_counts(c, keys.drop_last(), d);
        assert(exec_entries(c, keys).drop_last() =~= exec_entries(c, keys.drop_last()));
        assert(exec_entries(c, keys).last() == LogEntry::Exec(c, keys.last()));
    }
}

/// What a unit of work leaves before finalizing holds no commit and no
/// rollback, for any connection.
pub proof fn lemma_begun_no_finalize(c: u64, keys: Seq<u64>, d: u64)
    ensures
        commit_count(begun_suffix(c, keys), d) == 0,
        rollback_count(begun_suffix(c, keys), d) == 0,
{
    lemma_exec_entries_counts(c, keys, d);
    lemma_count_concat(seq![LogEntry::Begin(c)], exec_entries(c, keys), d);
    let s1 = seq![LogEntry::Begin(c)];
    assert(s1.drop_last() =~= Seq::<LogEntry>::empty());
    assert(commit_count(Seq::<LogEntry>::empty(), d) == 0);
    assert(rollback_count(Seq::<LogEntry>::empty(), d) == 0);
    assert(s1.last() == LogEntry::Begin(c));
    assert(commit_count(s1, d) == 0);
    assert(rollback_count(s1, d) == 0);
}

/// For all workloads that return success: the unit of work's log suffix
/// holds exactly one successful commit and no rollback on the workload's
/// connection, and no finalization at all on any other connection.
pub proof fn lemma_success_finalizes_once(c: u64, keys: Seq<u64>, d: u64)
    ensures
        commit_count(committed_suffix(c, keys), c) == 1,
        rollback_count(committed_suffix(c, keys), c) == 0,
        d != c ==> commit_count(committed_suffix(c, keys), d) == 0,
        rollback_count(committed_suffix(c, keys), d) == 0,
{
    lemma_begun_no_finalize(c, keys, c);
    lemma_begun_no_finalize(c, keys, d);
    assert(committed_suffix(c, keys).drop_last() =~= begun_suffix(c, keys));
    assert(committed_suffix(c, keys).last() == LogEntry::Commit(c));
}

/// For all workloads that fail (or are cancelled): the unit of work's log
/// suffix holds exactly one successful rollback and no commit on the
/// workload's connection, and no finalization at all on any other
/// connection.
pub proof fn lemma_failure_rolls_back_once(c: u64, keys: Seq<u64>, d: u64)
    ensures
        rollback_count(rolled_back_suffix(c, keys), c) == 1,
        commit_count(rolled_back_suffix(c, keys), c) == 0,
        d != c ==> rollback_count(rolled_back_suffix(c, keys), d) == 0,
        commit_count(rolled_back_suffix(c, keys), d) == 0,
{
    lemma_begun_no_finalize(c, keys, c);
    lemma_begun_no_finalize(c, keys, d);
    assert(rolled_back_suffix(c, keys).drop_last() =~= begun_suffix(c, keys));
    assert(rolled_back_suffix(c, keys).last() == LogEntry::Rollback(c));
}

/// Every entry a unit of work appends — begin, statements, finalize —
/// lands on the one connection its transaction holds: nested executor
/// calls inside one workload all observe the same bound transaction.
pub proof fn lemma_workload_on_one_connection(c: u64, keys: Seq<u64>)
    ensures
        forall|i: int|
            0 <= i < committed_suffix(c, keys).len() ==> entry_conn(
                #[trigger] committed_suffix(c, keys)[i],
            ) == c,
        forall|i: int|
            0 <= i < rolled_back_suffix(c, keys).len() ==> entry_conn(
                #[trigger] rolled_back_suffix(c, keys)[i],
            ) == c,
        forall|i: int|
            0 <= i < begun_suffix(c, keys).len() ==> entry_conn(
                #[trigger] begun_suffix(c, keys)[i],
            ) == c,
{
    assert forall|i: int| 0 <= i < begun_suffix(c, keys).len() implies entry_conn(
        #[trigger] begun_suffix(c, keys)[i],
    ) == c by {
        if i > 0 {
            assert(begun_suffix(c, keys)[i] == exec_entries(c, keys)[i - 1]);
            assert(exec_entries(c, keys)[i - 1] == LogEntry::Exec(c, keys[i - 1]));
        }
    }
    assert forall|i: int| 0 <= i < committed_suffix(c, keys).len() implies entry_conn(
        #[trigger] committed_suffix(c, keys)[i],
    ) == c by {
        if i < begun_suffix(c, keys).len() {
            assert(committed_suffix(c, keys)[i] == begun_suffix(c, keys)[i]);
        }
    }
    assert forall|i: int| 0 <= i < rolled_back_suffix(c, keys).len() implies entry_conn(
        #[trigger] rolled_back_suffix(c, keys)[i],
    ) == c by {
        if i < begun_suffix(c, keys).len() {
            assert(rolled_back_suffix(c, keys)[i] == begun_suffix(c, keys)[i]);
        }
    }
}

/// Two units of work on distinct connections never touch each other's
/// connection: concurrent logical operations, each with its own ambient
/// context and its own fresh connection, are fully isolated in the log.
pub proof fn lemma_ambient_isolation(c1: u64, keys1: Seq<u64>, c2: u64, keys2: Seq<u64>)
    requires
        c1 != c2,
    ensures
        forall|i: int, j: int|
            0 <= i < committed_suffix(c1, keys1).len() && 0 <= j < committed_suffix(
                c2,
                keys2,
            ).len() ==> entry_conn(#[trigger] committed_suffix(c1, keys1)[i]) != entry_conn(
                #[trigger] committed_suffix(c2, keys2)[j],
            ),
{
    lemma_workload_on_one_connection(c1, keys1);
    lemma_workload_on_one_connection(c2, keys2);
}

} // verus!

