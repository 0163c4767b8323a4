//! The executor façade: one entry point for repository code, whether or
//! not a transaction is active.
//!
//! Each call inspects the ambient context.  If a transaction is bound, the
//! statement runs on that transaction's connection (so every statement of
//! one workload lands on one connection, in order).  Otherwise a pooled
//! connection is acquired for the single call and released immediately
//! after it.

use vstd::prelude::*;

use crate::db::{DbError, LogEntry, MemDb};
use crate::pool::{BackendKind, Pool};
use crate::transaction::{consistent, ctx_ok, AmbientContext};

verus! {

/// Where a statement will run: on the shared pool or on the transaction
/// bound to the current logical operation.
#[derive(Clone, Copy, Debug, PartialEq, Eq, Structural)]
pub enum EitherDb {
    /// No transaction is active: acquire-and-release per call.
    Pool,
    /// The active transaction on this connection.
    Tx(u64),
}

impl EitherDb {
    /// The dispatch decision for the given ambient context.
    pub fn of_context(ctx: &AmbientContext) -> (r: EitherDb)
        ensures
            ctx.is_bound() ==> r == EitherDb::Tx(ctx.bound_conn()),
            !ctx.is_bound() ==> r == EitherDb::Pool,
    {
        match ctx.current() {
            Some(c) => EitherDb::Tx(c),
            None => EitherDb::Pool,
        }
    }

    /// Both routes reach the same logical endpoint, so the backend kind is
    /// the pool's whichever way the statement is routed.
    pub fn get_database_backend(&self, pool: &Pool) -> (r: BackendKind)
        ensures
            r == pool.backend,
    {
        pool.backend
    }
}

/// The stateless query-execution façade.
pub struct Executor;

impl Executor {
    /// Write row `key`, routed by the ambient context.
    ///
    /// Inside a bound scope this always succeeds and buffers the write in
    /// the bound transaction; outside one it needs a free pooled
    /// connection and writes durably at once.
    pub fn execute(db: &mut MemDb, pool: &mut Pool, ctx: &AmbientContext, key: u64) -> (r: Result<
        u64,
        DbError,
    >)
        requires
            old(db).wf(),
            old(pool).wf(),
            !ctx.is_bound() ==> old(pool).can_allocate(),
            ctx_ok(ctx, old(db)),
        ensures
            final(db).wf(),
            final(pool).wf(),
            final(pool).backend == old(pool).backend,
            final(pool).opts == old(pool).opts,
            final(pool).dead@ == old(pool).dead@,
            final(pool).checked_out@ == old(pool).checked_out@,
            final(db).faults == old(db).faults,
            consistent(old(pool), old(db)) ==> consistent(final(pool), final(db)),
            ctx.is_bound() ==> {
                let c = ctx.bound_conn();
                {
                    &&& r == Ok::<u64, DbError>(1u64)
                    &&& *final(pool) == *old(pool)
                    &&& final(db).committed@ == old(db).committed@
                    &&& final(db).open_conns() == old(db).open_conns()
                    &&& final(db).txn_index(c) == old(db).txn_index(c)
                    &&& final(db).pending_of(c) == old(db).pending_of(c).push(key)
                    &&& forall|d: u64|
                        old(db).has_open(d) && d != c ==> #[trigger] final(db).pending_of(d)
                            == old(db).pending_of(d)
                    &&& final(db).open@.len() == old(db).open@.len()
                    &&& forall|j: int|
                        0 <= j < old(db).open@.len() && j != old(db).txn_index(c)
                            ==> #[trigger] final(db).open@[j] == old(db).open@[j]
                    &&& final(db).log@ == old(db).log@.push(LogEntry::Exec(c, key))
                }
            },
            !ctx.is_bound() ==> {
                &&& final(db).open@ == old(db).open@
                &&& (old(pool).at_capacity() ==> {
                    &&& r == Err::<u64, DbError>(DbError::PoolExhausted)
                    &&& final(pool).next_conn == old(pool).next_conn
                    &&& final(db).committed@ == old(db).committed@
                    &&& final(db).log@ == old(db).log@
                })
                &&& (!old(pool).at_capacity() ==> {
                    &&& r == Ok::<u64, DbError>(1u64)
                    &&& final(db).committed@ == old(db).committed@.push(key)
                    &&& final(db).log@ == old(db).log@.push(
                        LogEntry::Exec(old(pool).next_conn, key),
                    )
                    &&& final(pool).next_conn == old(pool).next_conn + 1
                })
            },
    {
        match ctx.current() {
            Some(c) => {
                let n = db.exec_on_txn(c, key);
                proof {
                    assert(consistent(old(pool), old(db)) ==> consistent(pool, db)) by {
                        if consistent(old(pool), old(db)) {
                            assert forall|e: u64| #[trigger] db.has_open(e) implies pool
                                .is_checked_out(e) by {
                                assert(old(db).has_open(e));
                            }
                        }
                    }
                }
                Ok(n)
            },
            None => {
                match pool.try_acquire() {
                    None => {
                        proof {
                            assert(consistent(old(pool), old(db)) ==> consistent(pool, db)) by {
                                if consistent(old(pool), old(db)) {
                                    assert forall|e: u64| #[trigger] db.has_open(e) implies pool
                                        .is_checked_out(e) by {
                                        assert(old(pool).checked_out@.contains(e));
                                    }
                                }
                            }
                        }
                        Err(DbError::PoolExhausted)
                    },
                    Some(c) => {
                        let n = db.exec_autocommit(c, key);
                        proof {
                            assert(pool.checked_out@[pool.checked_out@.len() - 1] == c);
                            assert(pool.is_checked_out(c));
                        }
                        let _ = pool.release(c);
                        proof {
                            lemma_push_remove_value(old(pool).checked_out@, c);
                            assert(consistent(old(pool), old(db)) ==> consistent(pool, db)) by {
                                if consistent(old(pool), old(db)) {
                                    assert forall|e: u64| #[trigger] db.has_open(e) implies pool
                                        .is_checked_out(e) by {
                                        assert(old(db).has_open(e));
                                        assert(old(pool).checked_out@.contains(e));
                                        assert(pool.checked_out@ == old(pool).checked_out@);
                                    }
                                }
                            }
                        }
                        Ok(n)
                    },
                }
            },
        }
    }

    /// Read the visible rows, routed by the ambient context.
    ///
    /// Inside a bound scope the transaction sees the durable rows plus its
    /// own buffered writes; outside one only the durable rows.
    pub fn query(db: &mut MemDb, pool: &mut Pool, ctx: &AmbientContext) -> (r: Result<
        Vec<u64>,
        DbError,
    >)
        requires
            old(db).wf(),
            old(pool).wf(),
            !ctx.is_bound() ==> old(pool).can_allocate(),
            ctx_ok(ctx, old(db)),
        ensures
            final(db).wf(),
            final(pool).wf(),
            final(pool).backend == old(pool).backend,
            final(pool).opts == old(pool).opts,
            final(pool).dead@ == old(pool).dead@,
            final(pool).checked_out@ == old(pool).checked_out@,
            final(db).faults == old(db).faults,
            final(db).committed@ == old(db).committed@,
            final(db).open@ == old(db).open@,
            consistent(old(pool), old(db)) ==> consistent(final(pool), final(db)),
            ctx.is_bound() ==> {
                let c = ctx.bound_conn();
                {
                    &&& r is Ok
                    &&& r->Ok_0@ == old(db).committed@ + old(db).pending_of(c)
                    &&& *final(pool) == *old(pool)
                    &&& final(db).log@ == old(db).log@.push(LogEntry::Query(c))
                }
            },
            !ctx.is_bound() ==> {
                &&& (old(pool).at_capacity() ==> {
                    &&& r == Err::<Vec<u64>, DbError>(DbError::PoolExhausted)
                    &&& final(pool).next_conn == old(pool).next_conn
                    &&& final(db).log@ == old(db).log@
                })
                &&& (!old(pool).at_capacity() ==> {
                    &&& r is Ok
                    &&& r->Ok_0@ == old(db).committed@
                    &&& final(db).log@ == old(db).log@.push(
                        LogEntry::Query(old(pool).next_conn),
                    )
                    &&& final(pool).next_conn == old(pool).next_conn + 1
                })
            },
    {
        match ctx.current() {
            Some(c) => {
                let rows = db.query_on_txn(c);
                proof {
                    assert(consistent(old(pool), old(db)) ==> consistent(pool, db)) by {
                        if consistent(old(pool), old(db)) {
                            assert forall|e: u64| #[trigger] db.has_open(e) implies pool
                                .is_checked_out(e) by {
                                assert(old(db).has_open(e));
                            }
                        }
                    }
                }
                Ok(rows)
            },
            None => {
                match pool.try_acquire() {
                    None => {
                        proof {
                            assert(consistent(old(pool), old(db)) ==> consistent(pool, db)) by {
                                if consistent(old(pool), old(db)) {
                                    assert forall|e: u64| #[trigger] db.has_open(e) implies pool
                                        .is_checked_out(e) by {
                                        assert(old(pool).checked_out@.contains(e));
                                    }
                                }
                            }
                        }
                        Err(DbError::PoolExhausted)
                    },
                    Some(c) => {
                        let rows = db.query_autocommit(c);
                        proof {
                            assert(pool.checked_out@[pool.checked_out@.len() - 1] == c);
                            assert(pool.is_checked_out(c));
                        }
                        let _ = pool.release(c);
                        proof {
                            lemma_push_remove_value(old(pool).checked_out@, c);
                            assert(consistent(old(pool), old(db)) ==> consistent(pool, db)) by {
                                if consistent(old(pool), old(db)) {
                                    assert forall|e: u64| #[trigger] db.has_open(e) implies pool
                                        .is_checked_out(e) by {
                                        assert(old(db).has_open(e));
                                        assert(old(pool).checked_out@.contains(e));
                                        assert(pool.checked_out@ == old(pool).checked_out@);
                                    }
                                }
                            }
                        }
                        Ok(rows)
                    },
                }
            },
        }
    }
}

/// Pushing a fresh value and then removing it restores the sequence.
pub proof fn lemma_push_remove_value(s: Seq<u64>, c: u64)
    requires
        !s.contains(c),
    ensures
        s.push(c).remove_value(c) == s,
{
    let s2 = s.push(c);
    s2.index_of_first_ensures(c);
    assert(s2[s.len() as int] == c);
    assert(s2.contains(c));
    match s2.index_of_first(c) {
        Option::None => {},
        Option::Some(i) => {
            if i < s.len() {
                assert(s2[i] == s[i]);
                assert(s.contains(c));
            }
            assert(i == s.len());
            assert(s2.remove(i) =~= s);
        },
    }
}

} // verus!
