//! Transaction handles, the finalize-once discipline, and the ambient
//! (scope-bound) transaction slot.
//!
//! A [`TxHandle`] wraps one checked-out connection that has begun a
//! transaction.  At most one of commit and rollback can ever succeed on a
//! handle; any further attempt fails with
//! [`DbError::HandleAlreadyFinalized`] and performs no endpoint action.
//! A successful finalization returns the connection to the pool; a failed
//! one discards it as poisoned so it is never recirculated.
//!
//! An [`AmbientContext`] is the per-logical-operation slot that carries the
//! active handle through a call chain without explicit parameter threading.
//! Each logical operation owns its own context value, so two concurrently
//! running operations can never observe each other's binding; nested
//! attempts to start a unit of work on an already-bound context fail fast
//! (see the unit-of-work driver).

use vstd::prelude::*;

use crate::db::{DbError, LogEntry, MemDb};
use crate::pool::Pool;

verus! {

/// Every connection with an open transaction at the endpoint is one the
/// pool has checked out: the coupling invariant between the two.
pub open spec fn consistent(pool: &Pool, db: &MemDb) -> bool {
    forall|c: u64| #[trigger] db.has_open(c) ==> pool.is_checked_out(c)
}

/// A transaction in flight: single-use commit/rollback.
pub trait Tx: Sized {
    /// The connection this transaction runs on.
    spec fn conn(&self) -> u64;

    /// Whether a commit or rollback has already been attempted.
    spec fn is_finalized(&self) -> bool;

    /// Issue "commit".  Consumes the handle's single use: afterwards the
    /// handle is finalized whatever happened.  On success the buffered
    /// writes become durable and the connection returns to the pool; on an
    /// endpoint failure nothing becomes durable and the connection is
    /// discarded as poisoned.  A second attempt fails with
    /// `HandleAlreadyFinalized` and touches neither pool nor endpoint.
    fn commit(&mut self, pool: &mut Pool, db: &mut MemDb) -> (r: Result<(), DbError>)
        requires
            old(pool).wf(),
            old(db).wf(),
            !old(self).is_finalized() ==> old(db).has_open(old(self).conn())
                && old(pool).is_checked_out(old(self).conn()),
        ensures
            final(self).conn() == old(self).conn(),
            final(self).is_finalized(),
            final(pool).wf(),
            final(db).wf(),
            final(pool).backend == old(pool).backend,
            final(pool).opts == old(pool).opts,
            final(pool).next_conn == old(pool).next_conn,
            final(db).faults == old(db).faults,
            old(self).is_finalized() ==> {
                &&& r == Err::<(), DbError>(DbError::HandleAlreadyFinalized)
                &&& *final(db) == *old(db)
                &&& *final(pool) == *old(pool)
            },
            !old(self).is_finalized() ==> {
                let c = old(self).conn();
                {
                    &&& final(db).open@ == old(db).open@.remove(old(db).txn_index(c))
                    &&& final(db).open_conns() == old(db).open_conns().remove(
                        old(db).txn_index(c),
                    )
                    &&& !final(db).has_open(c)
                    &&& forall|d: u64| #[trigger]
                        old(db).has_open(d) && d != c ==> final(db).has_open(d)
                            && final(db).pending_of(d) == old(db).pending_of(d)
                    &&& final(pool).checked_out@ == old(pool).checked_out@.remove_value(c)
                    &&& !final(pool).is_checked_out(c)
                    &&& (!old(db).faults.fail_commit ==> {
                        &&& r == Ok::<(), DbError>(())
                        &&& final(db).committed@ == old(db).committed@ + old(db).pending_of(c)
                        &&& final(db).log@ == old(db).log@.push(LogEntry::Commit(c))
                        &&& final(pool).dead@ == old(pool).dead@
                    })
                    &&& (old(db).faults.fail_commit ==> {
                        &&& r == Err::<(), DbError>(DbError::CommitFailed)
                        &&& final(db).committed@ == old(db).committed@
                        &&& final(db).log@ == old(db).log@
                        &&& final(pool).dead@ == old(pool).dead@.push(c)
                    })
                }
            },
            consistent(old(pool), old(db)) ==> consistent(final(pool), final(db)),
    ;

    /// Issue "rollback".  Symmetric to [`Tx::commit`]: single-use, returns
    /// the connection on success, discards it on an endpoint failure, and
    /// never makes any buffered write durable.
    fn rollback(&mut self, pool: &mut Pool, db: &mut MemDb) -> (r: Result<(), DbError>)
        requires
            old(pool).wf(),
            old(db).wf(),
            !old(self).is_finalized() ==> old(db).has_open(old(self).conn())
                && old(pool).is_checked_out(old(self).conn()),
        ensures
            final(self).conn() == old(self).conn(),
            final(self).is_finalized(),
            final(pool).wf(),
            final(db).wf(),
            final(pool).backend == old(pool).backend,
            final(pool).opts == old(pool).opts,
            final(pool).next_conn == old(pool).next_conn,
            final(db).faults == old(db).faults,
            final(db).committed@ == old(db).committed@,
            old(self).is_finalized() ==> {
                &&& r == Err::<(), DbError>(DbError::HandleAlreadyFinalized)
                &&& *final(db) == *old(db)
                &&& *final(pool) == *old(pool)
            },
            !old(self).is_finalized() ==> {
                let c = old(self).conn();
                {
                    &&& final(db).open@ == old(db).open@.remove(old(db).txn_index(c))
                    &&& final(db).open_conns() == old(db).open_conns().remove(
                        old(db).txn_index(c),
                    )
                    &&& !final(db).has_open(c)
                    &&& forall|d: u64| #[trigger]
                        old(db).has_open(d) && d != c ==> final(db).has_open(d)
                            && final(db).pending_of(d) == old(db).pending_of(d)
                    &&& final(pool).checked_out@ == old(pool).checked_out@.remove_value(c)
                    &&& !final(pool).is_checked_out(c)
                    &&& (!old(db).faults.fail_rollback ==> {
                        &&& r == Ok::<(), DbError>(())
                        &&& final(db).log@ == old(db).log@.push(LogEntry::Rollback(c))
                        &&& final(pool).dead@ == old(pool).dead@
                    })
                    &&& (old(db).faults.fail_rollback ==> {
                        &&& r == Err::<(), DbError>(DbError::RollbackFailed)
                        &&& final(db).log@ == old(db).log@
                        &&& final(pool).dead@ == old(pool).dead@.push(c)
                    })
                }
            },
            consistent(old(pool), old(db)) ==> consistent(final(pool), final(db)),
    ;
}

/// A factory that opens a transaction against the pool.
pub trait TxFactory<T: Tx> {
    /// Acquire a connection and begin a transaction on it.  Fails with
    /// `PoolExhausted` when the pool is at capacity and with `BeginFailed`
    /// when the endpoint refuses the begin (the connection then goes
    /// straight back to the pool).
    fn tx(&self, pool: &mut Pool, db: &mut MemDb) -> (r: Result<T, DbError>)
        requires
            old(pool).wf(),
            old(pool).can_allocate(),
            old(db).wf(),
            consistent(old(pool), old(db)),
        ensures
            final(pool).wf(),
            final(db).wf(),
            consistent(final(pool), final(db)),
            final(pool).backend == old(pool).backend,
            final(pool).opts == old(pool).opts,
            final(pool).dead@ == old(pool).dead@,
            final(db).faults == old(db).faults,
            final(db).committed@ == old(db).committed@,
            old(pool).at_capacity() ==> {
                &&& r == Err::<T, DbError>(DbError::PoolExhausted)
                &&& final(pool).checked_out@ == old(pool).checked_out@
                &&& final(pool).next_conn == old(pool).next_conn
                &&& *final(db) == *old(db)
            },
            !old(pool).at_capacity() && old(db).faults.fail_begin ==> {
                &&& r == Err::<T, DbError>(DbError::BeginFailed)
                &&& final(pool).checked_out@ == old(pool).checked_out@
                &&& final(pool).next_conn == old(pool).next_conn + 1
                &&& final(db).open@ == old(db).open@
                &&& final(db).log@ == old(db).log@
            },
            !old(pool).at_capacity() && !old(db).faults.fail_begin ==> {
                let c = old(pool).next_conn;
                {
                    &&& r is Ok
                    &&& r->Ok_0.conn() == c
                    &&& !r->Ok_0.is_finalized()
                    &&& !old(pool).is_checked_out(c)
                    &&& !old(db).has_open(c)
                    &&& final(pool).checked_out@ == old(pool).checked_out@.push(c)
                    &&& final(pool).next_conn == old(pool).next_conn + 1
                    &&& final(db).open_conns() == old(db).open_conns().push(c)
                    &&& final(db).open@.len() == old(db).open@.len() + 1
                    &&& final(db).open@.take(old(db).open@.len() as int) == old(db).open@
                    &&& final(db).has_open(c)
                    &&& final(db).pending_of(c) == Seq::<u64>::empty()
                    &&& final(db).log@ == old(db).log@.push(LogEntry::Begin(c))
                }
            },
    ;
}

/// The handle to one in-flight transaction on the modelled endpoint.
pub struct TxHandle {
    conn_id: u64,
    done: bool,
}

impl TxHandle {
    /// A fresh, unfinalized handle on connection `c`.
    pub(crate) fn make(c: u64) -> (r: TxHandle)
        ensures
            r.conn() == c,
            !r.is_finalized(),
    {
        TxHandle { conn_id: c, done: false }
    }
}

impl Tx for TxHandle {
    closed spec fn conn(&self) -> u64 {
        self.conn_id
    }

    closed spec fn is_finalized(&self) -> bool {
        self.done
    }

    fn commit(&mut self, pool: &mut Pool, db: &mut MemDb) -> (r: Result<(), DbError>) {
        if self.done {
            return Err(DbError::HandleAlreadyFinalized);
        }
        self.done = true;
        let c = self.conn_id;
        let res = db.commit_txn(c);
        match res {
            Ok(()) => {
                let _ = pool.release(c);
                proof {
                    lemma_finalize_consistent(old(pool), old(db), pool, db, c);
                }
                Ok(())
            },
            Err(e) => {
                let _ = pool.discard(c);
                proof {
                    lemma_finalize_consistent(old(pool), old(db), pool, db, c);
                }
                Err(e)
            },
        }
    }

    fn rollback(&mut self, pool: &mut Pool, db: &mut MemDb) -> (r: Result<(), DbError>) {
        if self.done {
            return Err(DbError::HandleAlreadyFinalized);
        }
        self.done = true;
        let c = self.conn_id;
        let res = db.rollback_txn(c);
        match res {
            Ok(()) => {
                let _ = pool.release(c);
                proof {
                    lemma_finalize_consistent(old(pool), old(db), pool, db, c);
                }
                Ok(())
            },
            Err(e) => {
                let _ = pool.discard(c);
                proof {
                    lemma_finalize_consistent(old(pool), old(db), pool, db, c);
                }
                Err(e)
            },
        }
    }
}

/// Removing first occurrence of one value keeps every other value present.
pub proof fn lemma_remove_value_keeps_others(s: Seq<u64>, c: u64, d: u64)
    requires
        d != c,
        s.contains(d),
    ensures
        s.remove_value(c).contains(d),
{
    s.index_of_first_ensures(c);
    match s.index_of_first(c) {
        Option::None => {},
        Option::Some(i) => {
            let j = choose|j: int| 0 <= j < s.len() && s[j] == d;
            if j < i {
                assert(s.remove(i)[j] == d);
            } else {
                assert(s.remove(i)[j - 1] == d);
            }
        },
    }
}

/// After a finalization removed connection `c` from both the endpoint's
/// open set and the pool's checked-out set, the coupling invariant holds
/// again.
proof fn lemma_finalize_consistent(p0: &Pool, d0: &MemDb, p1: &Pool, d1: &MemDb, c: u64)
    requires
        d0.wf(),
        d0.has_open(c),
        d1.open_conns() == d0.open_conns().remove(d0.txn_index(c)),
        forall|d: u64| #[trigger]
            d0.has_open(d) && d != c ==> d1.has_open(d) && d1.pending_of(d) == d0.pending_of(d),
        !d1.has_open(c),
        p1.checked_out@ == p0.checked_out@.remove_value(c),
    ensures
        consistent(p0, d0) ==> consistent(p1, d1),
{
    if consistent(p0, d0) {
        assert forall|e: u64| #[trigger] d1.has_open(e) implies p1.is_checked_out(e) by {
            d0.lemma_txn_index(c);
            let s = d1.open_conns();
            let k = choose|k: int| 0 <= k < s.len() && s[k] == e;
            let ok = if k < d0.txn_index(c) {
                k
            } else {
                k + 1
            };
            assert(d0.open_conns()[ok] == e);
            assert(d0.has_open(e));
            assert(e != c);
            lemma_remove_value_keeps_others(p0.checked_out@, c, e);
        }
    }
}

/// The per-logical-operation slot that makes the active transaction
/// ambient: bound when a unit of work starts its workload, unbound when
/// the workload finishes, on every path.
pub struct AmbientContext {
    bound: Option<TxHandle>,
}

/// A bound context always points at a transaction that is really open at
/// the endpoint.
pub open spec fn ctx_ok(ctx: &AmbientContext, db: &MemDb) -> bool {
    ctx.is_bound() ==> db.has_open(ctx.bound_conn())
}

impl AmbientContext {
    pub closed spec fn spec_bound(&self) -> Option<TxHandle> {
        self.bound
    }

    pub open spec fn is_bound(&self) -> bool {
        self.spec_bound() is Some
    }

    /// The connection of the bound handle (meaningful only when bound).
    pub open spec fn bound_conn(&self) -> u64 {
        self.spec_bound()->Some_0.conn()
    }

    /// A context for a new logical operation: nothing bound.
    pub fn new() -> (r: AmbientContext)
        ensures
            !r.is_bound(),
    {
        AmbientContext { bound: None }
    }

    /// Bind the active transaction for the scope that is starting.  The
    /// caller decides the nesting policy before calling; binding over an
    /// existing binding is a caller error, so it is excluded here.
    pub fn bind(&mut self, t: TxHandle)
        requires
            !old(self).is_bound(),
        ensures
            final(self).spec_bound() == Some(t),
            final(self).is_bound(),
            final(self).bound_conn() == t.conn(),
    {
        self.bound = Some(t);
    }

    /// Unbind and hand back whatever was bound; the context is free
    /// afterwards.  Called on every exit path of a scope.
    pub fn take(&mut self) -> (r: Option<TxHandle>)
        ensures
            !final(self).is_bound(),
            r == old(self).spec_bound(),
    {
        self.bound.take()
    }

    /// What the calling code is executing under: the bound transaction's
    /// connection, if any.
    pub fn current(&self) -> (r: Option<u64>)
        ensures
            self.is_bound() ==> r == Some(self.bound_conn()),
            !self.is_bound() ==> r is None,
    {
        match &self.bound {
            Some(t) => Some(t.conn_ref()),
            None => None,
        }
    }
}

impl TxHandle {
    /// The connection this handle runs on.
    pub fn conn_ref(&self) -> (r: u64)
        ensures
            r == self.conn(),
    {
        self.conn_id
    }
}

} // verus!
