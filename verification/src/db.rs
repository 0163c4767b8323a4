//! A model of the single logical database endpoint that the pool reaches.
//!
//! The endpoint keeps the set of durably committed rows, one pending write
//! buffer per open transaction, and a log of every operation it performed
//! together with the connection that carried it.  The log is what the
//! transaction-propagation properties are stated over: a successful unit of
//! work appends exactly one `Commit` entry and no `Rollback` entry, a failed
//! one appends exactly one `Rollback` entry and no `Commit` entry, and every
//! statement of one workload lands on one connection.
//!
//! Fault injection (`FaultPlan`) stands in for the endpoint refusing a
//! begin, commit or rollback, so that every error path of the unit of work
//! is reachable and therefore specified.

use vstd::prelude::*;

verus! {

/// The runtime error taxonomy of the data-access core.
#[derive(Clone, Copy, Debug, PartialEq, Eq, Structural)]
pub enum DbError {
    /// No connection became free before the acquire deadline.
    PoolExhausted,
    /// The endpoint refused to open a transaction.
    BeginFailed,
    /// The endpoint refused to commit; the transaction is gone.
    CommitFailed,
    /// The endpoint refused to roll back; the transaction state is unknown.
    RollbackFailed,
    /// A second commit or rollback was attempted on one handle.
    HandleAlreadyFinalized,
}

impl DbError {
    /// A short description of the error.
    pub fn message(&self) -> (r: String)
        ensures
            r@ == (match self {
                DbError::PoolExhausted => "no connection became free before the acquire deadline"@,
                DbError::BeginFailed => "the transaction could not be opened"@,
                DbError::CommitFailed => "the commit failed"@,
                DbError::RollbackFailed => "the rollback failed"@,
                DbError::HandleAlreadyFinalized => "the transaction was already finalized"@,
            }),
    {
        match self {
            DbError::PoolExhausted => String::from_str(
                "no connection became free before the acquire deadline",
            ),
            DbError::BeginFailed => String::from_str("the transaction could not be opened"),
            DbError::CommitFailed => String::from_str("the commit failed"),
            DbError::RollbackFailed => String::from_str("the rollback failed"),
            DbError::HandleAlreadyFinalized => String::from_str(
                "the transaction was already finalized",
            ),
        }
    }
}

/// One entry of the endpoint's operation log: which connection carried
/// which operation.
#[derive(Clone, Copy, Debug, PartialEq, Eq, Structural)]
pub enum LogEntry {
    /// A transaction was opened on this connection.
    Begin(u64),
    /// A row with this key was written over this connection.
    Exec(u64, u64),
    /// A read was served over this connection.
    Query(u64),
    /// The transaction on this connection committed.
    Commit(u64),
    /// The transaction on this connection rolled back.
    Rollback(u64),
}

/// An open transaction: its connection and the writes it has buffered but
/// not yet made durable.
pub struct OpenTxn {
    pub conn: u64,
    pub pending: Vec<u64>,
}

/// Which endpoint operations fail.  All false means a healthy endpoint.
#[derive(Clone, Copy, Debug, PartialEq, Eq, Structural)]
pub struct FaultPlan {
    pub fail_begin: bool,
    pub fail_commit: bool,
    pub fail_rollback: bool,
}

impl FaultPlan {
    /// A healthy endpoint: nothing fails.
    pub fn none() -> (r: FaultPlan)
        ensures
            !r.fail_begin,
            !r.fail_commit,
            !r.fail_rollback,
    {
        FaultPlan { fail_begin: false, fail_commit: false, fail_rollback: false }
    }
}

/// The database endpoint model.
pub struct MemDb {
    /// Durable rows, in commit order: only these are visible outside an
    /// open transaction.
    pub committed: Vec<u64>,
    /// The transactions currently open, at most one per connection.
    pub open: Vec<OpenTxn>,
    /// Everything the endpoint performed, oldest first.
    pub log: Vec<LogEntry>,
    /// Which operations the endpoint currently refuses.
    pub faults: FaultPlan,
}

impl MemDb {
    /// The connections that currently carry an open transaction.
    pub open spec fn open_conns(&self) -> Seq<u64> {
        self.open@.map(|i: int, t: OpenTxn| t.conn)
    }

    pub open spec fn has_open(&self, c: u64) -> bool {
        self.open_conns().contains(c)
    }

    /// At most one open transaction per connection.
    pub open spec fn wf(&self) -> bool {
        forall|i: int, j: int|
            0 <= i < j < self.open@.len() ==> self.open@[i].conn != self.open@[j].conn
    }

    /// The position of connection `c`'s open transaction; meaningful only
    /// under `wf` and `has_open`.
    pub open spec fn txn_index(&self, c: u64) -> int {
        self.open_conns().index_of(c)
    }

    /// The writes buffered by the open transaction on connection `c`.
    pub open spec fn pending_of(&self, c: u64) -> Seq<u64> {
        self.open@[self.txn_index(c)].pending@
    }

    /// Under `wf`, `txn_index` is the one position holding connection `c`.
    pub proof fn lemma_txn_index(&self, c: u64)
        requires
            self.wf(),
            self.has_open(c),
        ensures
            0 <= self.txn_index(c) < self.open@.len(),
            self.open@[self.txn_index(c)].conn == c,
            forall|i: int|
                0 <= i < self.open@.len() && self.open@[i].conn == c ==> i == self.txn_index(c),
    {
        let s = self.open_conns();
        assert(exists|i: int| 0 <= i < s.len() && s[i] == c);
        let k = self.txn_index(c);
        assert(0 <= k < s.len() && s[k] == c);
        assert(self.open@[k].conn == c);
    }

    /// A fresh endpoint with the given fault plan: no rows, no open
    /// transactions, an empty log.
    pub fn new(faults: FaultPlan) -> (r: MemDb)
        ensures
            r.committed@ == Seq::<u64>::empty(),
            r.open@ == Seq::<OpenTxn>::empty(),
            r.log@ == Seq::<LogEntry>::empty(),
            r.faults == faults,
            r.wf(),
    {
        MemDb { committed: Vec::new(), open: Vec::new(), log: Vec::new(), faults }
    }

    /// Open a transaction on connection `c`.
    ///
    /// A healthy endpoint opens it and logs `Begin(c)`; a faulted one
    /// refuses and is left exactly as it was.
    pub fn begin(&mut self, c: u64) -> (r: Result<(), DbError>)
        requires
            old(self).wf(),
            !old(self).has_open(c),
        ensures
            final(self).wf(),
            final(self).faults == old(self).faults,
            final(self).committed@ == old(self).committed@,
            old(self).faults.fail_begin ==> {
                &&& r == Err::<(), DbError>(DbError::BeginFailed)
                &&& final(self).open@ == old(self).open@
                &&& final(self).log@ == old(self).log@
            },
            !old(self).faults.fail_begin ==> {
                &&& r == Ok::<(), DbError>(())
                &&& final(self).open@.len() == old(self).open@.len() + 1
                &&& final(self).open@.last().conn == c
                &&& final(self).open@.last().pending@ == Seq::<u64>::empty()
                &&& final(self).open@.take(old(self).open@.len() as int) == old(self).open@
                &&& final(self).open_conns() == old(self).open_conns().push(c)
                &&& final(self).log@ == old(self).log@.push(LogEntry::Begin(c))
                &&& final(self).has_open(c)
                &&& final(self).pending_of(c) == Seq::<u64>::empty()
            },
    {
        if self.faults.fail_begin {
            Err(DbError::BeginFailed)
        } else {
            self.open.push(OpenTxn { conn: c, pending: Vec::new() });
            self.log.push(LogEntry::Begin(c));
            proof {
                let pre = old(self).open@;
                assert(self.open@.take(pre.len() as int) =~= pre);
                assert(self.open_conns() =~= old(self).open_conns().push(c));
                let s = self.open_conns();
                assert(s[s.len() - 1] == c);
                assert(self.has_open(c));
                assert forall|i: int, j: int|
                    0 <= i < j < self.open@.len() implies self.open@[i].conn != self.open@[
                    j].conn by {
                    if j == self.open@.len() - 1 {
                        assert(old(self).open_conns()[i] == old(self).open@[i].conn);
                    }
                }
                self.lemma_txn_index(c);
                assert(self.open@[self.txn_index(c)].conn == c);
            }
            Ok(())
        }
    }

    /// Find the position of connection `c`'s open transaction.
    fn find_txn(&self, c: u64) -> (r: usize)
        requires
            self.wf(),
            self.has_open(c),
        ensures
            r == self.txn_index(c),
    {
        proof {
            self.lemma_txn_index(c);
        }
        let n = self.open.len();
        let mut i: usize = 0;
        while i < n
            invariant
                n == self.open@.len(),
                0 <= i <= n,
                forall|k: int| 0 <= k < i ==> self.open@[k].conn != c,
                self.wf(),
                self.has_open(c),
            decreases n - i,
        {
            if self.open[i].conn == c {
                proof {
                    self.lemma_txn_index(c);
                }
                return i;
            }
            i += 1;
        }
        proof {
            self.lemma_txn_index(c);
            assert(false);
        }
        0
    }

    /// Buffer the write of row `key` in the transaction open on `c` and
    /// log it against that connection.
    pub fn exec_on_txn(&mut self, c: u64, key: u64) -> (r: u64)
        requires
            old(self).wf(),
            old(self).has_open(c),
        ensures
            final(self).wf(),
            final(self).faults == old(self).faults,
            final(self).committed@ == old(self).committed@,
            final(self).open_conns() == old(self).open_conns(),
            final(self).has_open(c),
            final(self).txn_index(c) == old(self).txn_index(c),
            final(self).pending_of(c) == old(self).pending_of(c).push(key),
            forall|d: u64|
                old(self).has_open(d) && d != c ==> #[trigger] final(self).pending_of(d) == old(
                    self,
                ).pending_of(d),
            final(self).open@.len() == old(self).open@.len(),
            forall|j: int|
                0 <= j < old(self).open@.len() && j != old(self).txn_index(c)
                    ==> #[trigger] final(self).open@[j] == old(self).open@[j],
            final(self).log@ == old(self).log@.push(LogEntry::Exec(c, key)),
            r == 1u64,
    {
        proof {
            old(self).lemma_txn_index(c);
        }
        let i = self.find_txn(c);
        let t = &mut self.open[i];
        t.pending.push(key);
        self.log.push(LogEntry::Exec(c, key));
        proof {
            assert(self.open_conns() =~= old(self).open_conns());
            self.lemma_txn_index(c);
            assert(self.txn_index(c) == old(self).txn_index(c));
            assert forall|d: u64| old(self).has_open(d) && d != c implies #[trigger] self
                .pending_of(d) == old(self).pending_of(d) by {
                old(self).lemma_txn_index(d);
                self.lemma_txn_index(d);
            }
        }
        1
    }

    /// Write row `key` directly to durable storage over connection `c`
    /// (auto-commit mode, used when no transaction is bound).
    pub fn exec_autocommit(&mut self, c: u64, key: u64) -> (r: u64)
        requires
            old(self).wf(),
        ensures
            final(self).wf(),
            final(self).faults == old(self).faults,
            final(self).open@ == old(self).open@,
            final(self).committed@ == old(self).committed@.push(key),
            final(self).log@ == old(self).log@.push(LogEntry::Exec(c, key)),
            r == 1u64,
    {
        self.committed.push(key);
        self.log.push(LogEntry::Exec(c, key));
        1
    }

    /// The rows visible to the transaction open on `c`: everything durable
    /// plus its own buffered writes.  Logs a read on `c`.
    pub fn query_on_txn(&mut self, c: u64) -> (r: Vec<u64>)
        requires
            old(self).wf(),
            old(self).has_open(c),
        ensures
            final(self).wf(),
            final(self).faults == old(self).faults,
            final(self).committed@ == old(self).committed@,
            final(self).open@ == old(self).open@,
            final(self).log@ == old(self).log@.push(LogEntry::Query(c)),
            r@ == old(self).committed@ + old(self).pending_of(c),
    {
        proof {
            self.lemma_txn_index(c);
        }
        let i = self.find_txn(c);
        let mut r: Vec<u64> = Vec::new();
        let ghost target = self.committed@ + self.pending_of(c);
        let n = self.committed.len();
        let mut k: usize = 0;
        while k < n
            invariant
                n == self.committed@.len(),
                0 <= k <= n,
                r@ == self.committed@.take(k as int),
            decreases n - k,
        {
            r.push(self.committed[k]);
            k += 1;
        }
        proof {
            assert(r@ =~= self.committed@);
        }
        let m = self.open[i].pending.len();
        let mut k2: usize = 0;
        while k2 < m
            invariant
                i == self.txn_index(self.open@[i as int].conn),
                0 <= i < self.open@.len(),
                m == self.open@[i as int].pending@.len(),
                0 <= k2 <= m,
                r@ == self.committed@ + self.open@[i as int].pending@.take(k2 as int),
            decreases m - k2,
        {
            let v = self.open[i].pending[k2];
            r.push(v);
            proof {
                assert(r@ =~= self.committed@ + self.open@[i as int].pending@.take(
                    k2 as int + 1,
                ));
            }
            k2 += 1;
        }
        self.log.push(LogEntry::Query(c));
        proof {
            assert(self.open@[i as int].pending@.take(m as int) =~= self.open@[
                i as int].pending@);
        }
        r
    }

    /// The rows visible outside any transaction: the durable ones.  Logs a
    /// read on `c`.
    pub fn query_autocommit(&mut self, c: u64) -> (r: Vec<u64>)
        requires
            old(self).wf(),
        ensures
            final(self).wf(),
            final(self).faults == old(self).faults,
            final(self).committed@ == old(self).committed@,
            final(self).open@ == old(self).open@,
            final(self).log@ == old(self).log@.push(LogEntry::Query(c)),
            r@ == old(self).committed@,
    {
        let mut r: Vec<u64> = Vec::new();
        let n = self.committed.len();
        let mut k: usize = 0;
        while k < n
            invariant
                n == self.committed@.len(),
                0 <= k <= n,
                r@ == self.committed@.take(k as int),
            decreases n - k,
        {
            r.push(self.committed[k]);
            k += 1;
        }
        self.log.push(LogEntry::Query(c));
        proof {
            assert(r@ =~= self.committed@);
        }
        r
    }

    /// Close the transaction on `c` and make its writes durable.
    ///
    /// A healthy endpoint appends the buffered writes to the durable rows
    /// and logs `Commit(c)`; a faulted one drops the transaction without
    /// applying anything and reports `CommitFailed`.  Either way the
    /// transaction is gone afterwards.
    pub fn commit_txn(&mut self, c: u64) -> (r: Result<(), DbError>)
        requires
            old(self).wf(),
            old(self).has_open(c),
        ensures
            final(self).wf(),
            final(self).faults == old(self).faults,
            final(self).open@ == old(self).open@.remove(old(self).txn_index(c)),
            final(self).open_conns() == old(self).open_conns().remove(old(self).txn_index(c)),
            !final(self).has_open(c),
            forall|d: u64| #[trigger]
                old(self).has_open(d) && d != c ==> final(self).has_open(d) && final(self).pending_of(d)
                    == old(self).pending_of(d),
            !old(self).faults.fail_commit ==> {
                &&& r == Ok::<(), DbError>(())
                &&& final(self).committed@ == old(self).committed@ + old(self).pending_of(c)
                &&& final(self).log@ == old(self).log@.push(LogEntry::Commit(c))
            },
            old(self).faults.fail_commit ==> {
                &&& r == Err::<(), DbError>(DbError::CommitFailed)
                &&& final(self).committed@ == old(self).committed@
                &&& final(self).log@ == old(self).log@
            },
    {
        proof {
            old(self).lemma_txn_index(c);
        }
        let i = self.find_txn(c);
        let mut t = self.open.remove(i);
        proof {
            lemma_map_remove_commutes(old(self).open@, i as int);
            assert(self.open_conns() =~= old(self).open_conns().remove(
                old(self).txn_index(c),
            ));
            assert forall|k: int, l: int|
                0 <= k < l < self.open@.len() implies self.open@[k].conn != self.open@[l].conn by {
            }
            assert(!self.has_open(c)) by {
                if self.has_open(c) {
                    let j = choose|j: int|
                        0 <= j < self.open_conns().len() && self.open_conns()[j] == c;
                    let oj = if j < i as int {
                        j
                    } else {
                        j + 1
                    };
                    assert(old(self).open@[oj].conn == c);
                    old(self).lemma_txn_index(c);
                }
            }
            assert forall|d: u64| #[trigger]
                old(self).has_open(d) && d != c implies self.has_open(d) && self.pending_of(d)
                == old(self).pending_of(d) by {
                old(self).lemma_txn_index(d);
                let od = old(self).txn_index(d);
                let nd = if od < i as int {
                    od
                } else {
                    od - 1
                };
                assert(self.open@[nd].conn == d);
                assert(self.open_conns()[nd] == d);
                assert(self.has_open(d));
                self.lemma_txn_index(d);
                assert(self.txn_index(d) == nd);
                assert(self.open@[nd].pending@ == old(self).open@[od].pending@);
            }
        }
        if self.faults.fail_commit {
            Err(DbError::CommitFailed)
        } else {
            self.committed.append(&mut t.pending);
            self.log.push(LogEntry::Commit(c));
            Ok(())
        }
    }

    /// Close the transaction on `c` and discard its writes.
    ///
    /// A healthy endpoint logs `Rollback(c)`; a faulted one reports
    /// `RollbackFailed`.  Either way nothing becomes durable and the
    /// transaction is gone afterwards.
    pub fn rollback_txn(&mut self, c: u64) -> (r: Result<(), DbError>)
        requires
            old(self).wf(),
            old(self).has_open(c),
        ensures
            final(self).wf(),
            final(self).faults == old(self).faults,
            final(self).committed@ == old(self).committed@,
            final(self).open@ == old(self).open@.remove(old(self).txn_index(c)),
            final(self).open_conns() == old(self).open_conns().remove(old(self).txn_index(c)),
            !final(self).has_open(c),
            forall|d: u64| #[trigger]
                old(self).has_open(d) && d != c ==> final(self).has_open(d) && final(self).pending_of(d)
                    == old(self).pending_of(d),
            !old(self).faults.fail_rollback ==> {
                &&& r == Ok::<(), DbError>(())
                &&& final(self).log@ == old(self).log@.push(LogEntry::Rollback(c))
            },
            old(self).faults.fail_rollback ==> {
                &&& r == Err::<(), DbError>(DbError::RollbackFailed)
                &&& final(self).log@ == old(self).log@
            },
    {
        proof {
            old(self).lemma_txn_index(c);
        }
        let i = self.find_txn(c);
        let _discarded = self.open.remove(i);
        proof {
            lemma_map_remove_commutes(old(self).open@, i as int);
            assert(self.open_conns() =~= old(self).open_conns().remove(
                old(self).txn_index(c),
            ));
            assert(!self.has_open(c)) by {
                if self.has_open(c) {
                    let j = choose|j: int|
                        0 <= j < self.open_conns().len() && self.open_conns()[j] == c;
                    let oj = if j < i as int {
                        j
                    } else {
                        j + 1
                    };
                    assert(old(self).open@[oj].conn == c);
                    old(self).lemma_txn_index(c);
                }
            }
            assert forall|d: u64| #[trigger]
                old(self).has_open(d) && d != c implies self.has_open(d) && self.pending_of(d)
                == old(self).pending_of(d) by {
                old(self).lemma_txn_index(d);
                let od = old(self).txn_index(d);
                let nd = if od < i as int {
                    od
                } else {
                    od - 1
                };
                assert(self.open@[nd].conn == d);
                assert(self.open_conns()[nd] == d);
                assert(self.has_open(d));
                self.lemma_txn_index(d);
                assert(self.txn_index(d) == nd);
                assert(self.open@[nd].pending@ == old(self).open@[od].pending@);
            }
        }
        if self.faults.fail_rollback {
            Err(DbError::RollbackFailed)
        } else {
            self.log.push(LogEntry::Rollback(c));
            Ok(())
        }
    }
}

/// Removing an element commutes with projecting each open transaction to
/// its connection.
pub proof fn lemma_map_remove_commutes(s: Seq<OpenTxn>, i: int)
    requires
        0 <= i < s.len(),
    ensures
        s.remove(i).map(|k: int, t: OpenTxn| t.conn) == s.map(
            |k: int, t: OpenTxn| t.conn,
        ).remove(i),
{
    assert(s.remove(i).map(|k: int, t: OpenTxn| t.conn) =~= s.map(
        |k: int, t: OpenTxn| t.conn,
    ).remove(i));
}

} // verus!
