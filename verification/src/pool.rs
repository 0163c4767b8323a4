//! The bounded connection pool.
//!
//! The pool hands out connection identifiers, never more than
//! `max_connections` at a time, and each identifier it hands out is fresh:
//! no two logical operations ever share a connection.  A connection comes
//! back either through [`Pool::release`] (healthy, may be handed out again
//! as capacity) or through [`Pool::discard`] (poisoned by a failed
//! finalization, never recirculated).
//!
//! Acquisition beyond capacity is a waiting game decided by
//! [`Pool::poll_acquire`]: the caller polls with its clock, and the pool
//! answers `Ready`, `Wait`, or — once the acquire deadline has passed —
//! `Exhausted`.

use vstd::prelude::*;

verus! {

/// Which engine the single logical endpoint speaks.
#[derive(Clone, Copy, Debug, PartialEq, Eq, Structural)]
pub enum BackendKind {
    MySql,
    Postgres,
    Sqlite,
}

/// Pool construction options; every field can be overridden independently.
#[derive(Clone, Copy, Debug, PartialEq, Eq, Structural)]
pub struct PoolOptions {
    pub max_connections: u32,
    pub min_connections: u32,
    pub connect_timeout_ms: u64,
    pub idle_timeout_ms: u64,
    pub max_lifetime_ms: u64,
    pub acquire_timeout_ms: u64,
}

pub const DEFAULT_MAX_CONNECTIONS: u32 = 100;

pub const DEFAULT_MIN_CONNECTIONS: u32 = 10;

pub const DEFAULT_CONNECT_TIMEOUT_MS: u64 = 10_000;

pub const DEFAULT_IDLE_TIMEOUT_MS: u64 = 8_000;

impl PoolOptions {
    /// The defaults the pool is built with when nothing is overridden:
    /// the idle timeout also bounds a connection's lifetime and the wait
    /// for a free connection.
    pub fn new() -> (r: PoolOptions)
        ensures
            r.max_connections == DEFAULT_MAX_CONNECTIONS,
            r.min_connections == DEFAULT_MIN_CONNECTIONS,
            r.connect_timeout_ms == DEFAULT_CONNECT_TIMEOUT_MS,
            r.idle_timeout_ms == DEFAULT_IDLE_TIMEOUT_MS,
            r.max_lifetime_ms == DEFAULT_IDLE_TIMEOUT_MS,
            r.acquire_timeout_ms == DEFAULT_IDLE_TIMEOUT_MS,
    {
        PoolOptions {
            max_connections: DEFAULT_MAX_CONNECTIONS,
            min_connections: DEFAULT_MIN_CONNECTIONS,
            connect_timeout_ms: DEFAULT_CONNECT_TIMEOUT_MS,
            idle_timeout_ms: DEFAULT_IDLE_TIMEOUT_MS,
            max_lifetime_ms: DEFAULT_IDLE_TIMEOUT_MS,
            acquire_timeout_ms: DEFAULT_IDLE_TIMEOUT_MS,
        }
    }
}

/// The answer to one acquisition poll.
#[derive(Clone, Copy, Debug, PartialEq, Eq, Structural)]
pub enum Acquired {
    /// A connection was granted.
    Ready(u64),
    /// The pool is at capacity and the deadline has not passed: poll again
    /// after a connection may have been released.
    Wait,
    /// The pool stayed at capacity past the acquire deadline.
    Exhausted,
}

/// The bounded pool of live connections to one database endpoint.
pub struct Pool {
    pub backend: BackendKind,
    pub opts: PoolOptions,
    /// The next fresh connection identifier.
    pub next_conn: u64,
    /// The connections currently checked out, in hand-out order.
    pub checked_out: Vec<u64>,
    /// Connections discarded after a failed finalization; never handed out
    /// again.
    pub dead: Vec<u64>,
}

impl Pool {
    /// Checked-out connections are distinct, never exceed the bound, and
    /// every identifier ever handed out is below `next_conn`.
    pub open spec fn wf(&self) -> bool {
        &&& forall|i: int, j: int|
            0 <= i < j < self.checked_out@.len() ==> self.checked_out@[i] != self.checked_out@[j]
        &&& forall|i: int| 0 <= i < self.checked_out@.len() ==> self.checked_out@[i] < self.next_conn
        &&& forall|i: int| 0 <= i < self.dead@.len() ==> self.dead@[i] < self.next_conn
        &&& self.checked_out@.len() <= self.opts.max_connections
    }

    /// Identifiers have not run out.  `next_conn` only ever grows, so this
    /// is a machine limit, not a policy.
    pub open spec fn can_allocate(&self) -> bool {
        self.next_conn < u64::MAX
    }

    /// Every connection the bound allows is checked out.
    pub open spec fn at_capacity(&self) -> bool {
        self.checked_out@.len() >= self.opts.max_connections
    }

    pub open spec fn is_checked_out(&self, c: u64) -> bool {
        self.checked_out@.contains(c)
    }

    /// An empty pool for the given endpoint kind and options.
    pub fn new(backend: BackendKind, opts: PoolOptions) -> (r: Pool)
        ensures
            r.backend == backend,
            r.opts == opts,
            r.next_conn == 0u64,
            r.checked_out@ == Seq::<u64>::empty(),
            r.dead@ == Seq::<u64>::empty(),
            r.wf(),
    {
        Pool { backend, opts, next_conn: 0, checked_out: Vec::new(), dead: Vec::new() }
    }

    /// Hand out a fresh connection, or report that the pool is at
    /// capacity.
    pub fn try_acquire(&mut self) -> (r: Option<u64>)
        requires
            old(self).wf(),
            old(self).can_allocate(),
        ensures
            final(self).wf(),
            final(self).backend == old(self).backend,
            final(self).opts == old(self).opts,
            final(self).dead@ == old(self).dead@,
            old(self).at_capacity() ==> {
                &&& r is None
                &&& final(self).checked_out@ == old(self).checked_out@
                &&& final(self).next_conn == old(self).next_conn
            },
            !old(self).at_capacity() ==> {
                &&& r == Some(old(self).next_conn)
                &&& !old(self).is_checked_out(old(self).next_conn)
                &&& !old(self).dead@.contains(old(self).next_conn)
                &&& final(self).checked_out@ == old(self).checked_out@.push(old(self).next_conn)
                &&& final(self).next_conn == old(self).next_conn + 1
            },
    {
        if self.checked_out.len() >= self.opts.max_connections as usize {
            None
        } else {
            let c = self.next_conn;
            proof {
                if old(self).is_checked_out(c) {
                    let i = choose|i: int|
                        0 <= i < old(self).checked_out@.len() && old(self).checked_out@[i] == c;
                    assert(old(self).checked_out@[i] < c);
                }
                if old(self).dead@.contains(c) {
                    let i = choose|i: int|
                        0 <= i < old(self).dead@.len() && old(self).dead@[i] == c;
                    assert(old(self).dead@[i] < c);
                }
            }
            self.checked_out.push(c);
            self.next_conn = self.next_conn + 1;
            proof {
                assert forall|i: int, j: int|
                    0 <= i < j < self.checked_out@.len() implies self.checked_out@[i]
                    != self.checked_out@[j] by {
                    if j == self.checked_out@.len() - 1 {
                        assert(old(self).checked_out@[i] < c);
                    }
                }
            }
            Some(c)
        }
    }

    /// One acquisition poll against the caller's clock: grant a connection
    /// if the pool has room, otherwise wait until the acquire deadline
    /// (measured from `start_ms`) has passed, then report exhaustion.
    pub fn poll_acquire(&mut self, start_ms: u64, now_ms: u64) -> (r: Acquired)
        requires
            old(self).wf(),
            old(self).can_allocate(),
            start_ms <= now_ms,
        ensures
            final(self).wf(),
            final(self).backend == old(self).backend,
            final(self).opts == old(self).opts,
            final(self).dead@ == old(self).dead@,
            !old(self).at_capacity() ==> {
                &&& r == Acquired::Ready(old(self).next_conn)
                &&& final(self).checked_out@ == old(self).checked_out@.push(old(self).next_conn)
                &&& final(self).next_conn == old(self).next_conn + 1
            },
            old(self).at_capacity() ==> {
                &&& final(self).checked_out@ == old(self).checked_out@
                &&& final(self).next_conn == old(self).next_conn
                &&& (now_ms - start_ms < old(self).opts.acquire_timeout_ms ==> r
                    == Acquired::Wait)
                &&& (now_ms - start_ms >= old(self).opts.acquire_timeout_ms ==> r
                    == Acquired::Exhausted)
            },
    {
        match self.try_acquire() {
            Some(c) => Acquired::Ready(c),
            None => {
                if now_ms - start_ms >= self.opts.acquire_timeout_ms {
                    Acquired::Exhausted
                } else {
                    Acquired::Wait
                }
            },
        }
    }

    /// Find the position of checked-out connection `c`.
    fn find_conn(&self, c: u64) -> (r: usize)
        requires
            self.is_checked_out(c),
        ensures
            r < self.checked_out@.len(),
            self.checked_out@[r as int] == c,
            forall|k: int| 0 <= k < r ==> self.checked_out@[k] != c,
    {
        let n = self.checked_out.len();
        let mut i: usize = 0;
        while i < n
            invariant
                n == self.checked_out@.len(),
                0 <= i <= n,
                forall|k: int| 0 <= k < i ==> self.checked_out@[k] != c,
                self.is_checked_out(c),
            decreases n - i,
        {
            if self.checked_out[i] == c {
                return i;
            }
            i += 1;
        }
        proof {
            let j = choose|j: int|
                0 <= j < self.checked_out@.len() && self.checked_out@[j] == c;
            assert(false);
        }
        0
    }

    /// Return connection `c` to the pool, freeing one unit of capacity.
    pub fn release(&mut self, c: u64) -> (r: bool)
        requires
            old(self).wf(),
            old(self).is_checked_out(c),
        ensures
            final(self).wf(),
            final(self).backend == old(self).backend,
            final(self).opts == old(self).opts,
            final(self).dead@ == old(self).dead@,
            final(self).next_conn == old(self).next_conn,
            final(self).checked_out@ == old(self).checked_out@.remove_value(c),
            final(self).checked_out@.len() == old(self).checked_out@.len() - 1,
            !final(self).is_checked_out(c),
            r == true,
    {
        let i = self.find_conn(c);
        proof {
            old(self).checked_out@.index_of_first_ensures(c);
            assert(old(self).checked_out@.index_of_first(c) == Some(i as int));
        }
        self.checked_out.remove(i);
        proof {
            assert(!self.is_checked_out(c)) by {
                if self.is_checked_out(c) {
                    let j = choose|j: int|
                        0 <= j < self.checked_out@.len() && self.checked_out@[j] == c;
                    let oj = if j < i as int {
                        j
                    } else {
                        j + 1
                    };
                    assert(old(self).checked_out@[oj] == c);
                }
            }
        }
        true
    }

    /// Drop connection `c` as poisoned: it leaves the checked-out set but
    /// is recorded dead and never handed out again.
    pub fn discard(&mut self, c: u64) -> (r: bool)
        requires
            old(self).wf(),
            old(self).is_checked_out(c),
        ensures
            final(self).wf(),
            final(self).backend == old(self).backend,
            final(self).opts == old(self).opts,
            final(self).next_conn == old(self).next_conn,
            final(self).checked_out@ == old(self).checked_out@.remove_value(c),
            final(self).checked_out@.len() == old(self).checked_out@.len() - 1,
            !final(self).is_checked_out(c),
            final(self).dead@ == old(self).dead@.push(c),
            r == true,
    {
        let i = self.find_conn(c);
        proof {
            old(self).checked_out@.index_of_first_ensures(c);
            assert(old(self).checked_out@.index_of_first(c) == Some(i as int));
            assert(old(self).checked_out@[i as int] < old(self).next_conn);
        }
        self.checked_out.remove(i);
        self.dead.push(c);
        proof {
            assert(!self.is_checked_out(c)) by {
                if self.is_checked_out(c) {
                    let j = choose|j: int|
                        0 <= j < self.checked_out@.len() && self.checked_out@[j] == c;
                    let oj = if j < i as int {
                        j
                    } else {
                        j + 1
                    };
                    assert(old(self).checked_out@[oj] == c);
                }
            }
        }
        true
    }
}

/// Once a pool at capacity releases any connection, it is below capacity
/// again: a blocked acquisition is unblocked by the next release.
pub proof fn lemma_release_unblocks(p: &Pool, c: u64)
    requires
        p.wf(),
        p.at_capacity(),
        p.is_checked_out(c),
    ensures
        p.checked_out@.remove_value(c).len() < p.opts.max_connections,
{
    p.checked_out@.index_of_first_ensures(c);
}

} // verus!
