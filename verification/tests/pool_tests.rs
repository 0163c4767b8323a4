use micro_chat_server::db::{FaultPlan, MemDb};
use micro_chat_server::executor::EitherDb;
use micro_chat_server::pool::{Acquired, BackendKind, Pool, PoolOptions};
use micro_chat_server::transaction::{AmbientContext, Tx, TxFactory as TxFactoryTrait};
use micro_chat_server::uow::TxFactory;

fn pool_with(max: u32, acquire_timeout_ms: u64) -> Pool {
    let mut opts = PoolOptions::new();
    opts.max_connections = max;
    opts.acquire_timeout_ms = acquire_timeout_ms;
    Pool::new(BackendKind::MySql, opts)
}

#[test]
fn default_options() {
    let opts = PoolOptions::new();
    assert_eq!(opts.max_connections, 100);
    assert_eq!(opts.min_connections, 10);
    assert_eq!(opts.connect_timeout_ms, 10_000);
    assert_eq!(opts.idle_timeout_ms, 8_000);
    assert_eq!(opts.max_lifetime_ms, 8_000);
    assert_eq!(opts.acquire_timeout_ms, 8_000);
}

#[test]
fn acquire_hands_out_distinct_fresh_connections() {
    let mut pool = pool_with(3, 1000);
    let a = pool.try_acquire().unwrap();
    let b = pool.try_acquire().unwrap();
    let c = pool.try_acquire().unwrap();
    assert_ne!(a, b);
    assert_ne!(b, c);
    assert_ne!(a, c);
    assert_eq!(pool.checked_out, vec![a, b, c]);
}

#[test]
fn acquire_beyond_capacity_is_refused_until_a_release() {
    let mut pool = pool_with(2, 1000);
    let a = pool.try_acquire().unwrap();
    let _b = pool.try_acquire().unwrap();
    assert_eq!(pool.try_acquire(), None);
    pool.release(a);
    assert!(pool.try_acquire().is_some());
}

#[test]
fn poll_acquire_waits_then_times_out() {
    let mut pool = pool_with(1, 500);
    let _a = pool.try_acquire().unwrap();
    // before the deadline the caller is told to wait
    assert_eq!(pool.poll_acquire(1000, 1200), Acquired::Wait);
    // past the deadline the pool reports exhaustion
    assert_eq!(pool.poll_acquire(1000, 1500), Acquired::Exhausted);
    assert_eq!(pool.poll_acquire(1000, 9999), Acquired::Exhausted);
}

#[test]
fn poll_acquire_grants_when_capacity_is_free() {
    let mut pool = pool_with(1, 500);
    match pool.poll_acquire(0, 0) {
        Acquired::Ready(c) => assert_eq!(c, 0),
        other => panic!("expected a grant, got {:?}", other),
    }
}

#[test]
fn released_connection_frees_capacity_for_a_waiter() {
    let mut pool = pool_with(1, 500);
    let a = pool.try_acquire().unwrap();
    assert_eq!(pool.poll_acquire(0, 100), Acquired::Wait);
    pool.release(a);
    match pool.poll_acquire(0, 400) {
        Acquired::Ready(c) => assert_ne!(c, a),
        other => panic!("expected a grant, got {:?}", other),
    }
}

#[test]
fn discarded_connections_are_recorded_and_never_reused() {
    let mut pool = pool_with(2, 500);
    let a = pool.try_acquire().unwrap();
    pool.discard(a);
    assert_eq!(pool.dead, vec![a]);
    let b = pool.try_acquire().unwrap();
    let c = pool.try_acquire().unwrap();
    assert_ne!(b, a);
    assert_ne!(c, a);
}

#[test]
fn backend_kind_is_the_pools_whichever_route_is_taken() {
    let mut pool = pool_with(2, 500);
    let mut db = MemDb::new(FaultPlan::none());
    let ctx = AmbientContext::new();
    let route = EitherDb::of_context(&ctx);
    assert_eq!(route, EitherDb::Pool);
    assert_eq!(route.get_database_backend(&pool), BackendKind::MySql);
    let fact = TxFactory::new();
    let h = fact.tx(&mut pool, &mut db).unwrap();
    let mut ctx = AmbientContext::new();
    ctx.bind(h);
    let route = EitherDb::of_context(&ctx);
    assert_eq!(route, EitherDb::Tx(0));
    assert_eq!(route.get_database_backend(&pool), BackendKind::MySql);
    let mut h = ctx.take().unwrap();
    h.rollback(&mut pool, &mut db).unwrap();
}
