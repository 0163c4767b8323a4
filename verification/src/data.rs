//! The data layer bundle: the pool, the unit-of-work provider, and the
//! user repository's decision rules.
//!
//! The repository's queries themselves run outside the verified core;
//! what is verified here is everything around them: how a lookup key is
//! normalized, and how a missing row turns into a business error.

use std::sync::Arc;

use vstd::prelude::*;

use crate::biz;
use crate::config::{spec_pool_options, Config};
use crate::executor::EitherDb;
use crate::pool::{BackendKind, Pool};
use crate::transaction::AmbientContext;
use crate::uow::{new_tx_provider, TxProvider};

verus! {

/// The data layer of one process: the configuration it was built from,
/// the bounded pool, and the unit-of-work provider.
pub struct Data {
    pub cfg: Arc<Config>,
    pub pool: Pool,
    pub tx: TxProvider,
}

impl Data {
    /// Build the data layer: a fresh pool with the configured options and
    /// a provider over it.  Connecting happens outside the core, which
    /// only decides the options and the bound.
    pub fn new(cfg: Arc<Config>) -> (r: Data)
        ensures
            r.cfg == cfg,
            r.pool.backend == BackendKind::MySql,
            r.pool.opts == spec_pool_options(cfg.database),
            r.pool.next_conn == 0u64,
            r.pool.checked_out@ == Seq::<u64>::empty(),
            r.pool.wf(),
    {
        let opts = cfg.database.pool_options();
        let pool = Pool::new(BackendKind::MySql, opts);
        Data { cfg, pool, tx: new_tx_provider() }
    }

    /// Where a statement issued now would run: on the ambient transaction
    /// if one is bound, else on the pool.
    pub fn db(&self, ctx: &AmbientContext) -> (r: EitherDb)
        ensures
            ctx.is_bound() ==> r == EitherDb::Tx(ctx.bound_conn()),
            !ctx.is_bound() ==> r == EitherDb::Pool,
    {
        EitherDb::of_context(ctx)
    }
}

/// What one request handler sees: the configuration and the data layer.
pub struct AppState {
    pub config: Arc<Config>,
    pub data: Arc<Data>,
}

impl AppState {
    pub fn new(config: Arc<Config>, data: Arc<Data>) -> (r: AppState)
        ensures
            r.config == config,
            r.data == data,
    {
        AppState { config, data }
    }
}

/// The case-folded form of a string, as the standard library computes it.
pub uninterp spec fn lower_of(s: Seq<char>) -> Seq<char>;

/// A string with its surrounding whitespace removed, as the standard
/// library computes it.
pub uninterp spec fn trimmed_of(s: Seq<char>) -> Seq<char>;

/// Relies on str::to_lowercase: the result depends on the characters
/// alone, and an empty string stays empty.
#[verifier::external_body]
fn lowercase(s: &str) -> (r: String)
    ensures
        r@ == lower_of(s@),
        s@.len() == 0 ==> r@.len() == 0,
{
    s.to_lowercase()
}

/// Relies on str::trim: the result depends on the characters alone, and
/// an empty string stays empty.
#[verifier::external_body]
fn trim_str(s: &str) -> (r: &str)
    ensures
        r@ == trimmed_of(s@),
        s@.len() == 0 ==> r@.len() == 0,
{
    s.trim()
}

/// The user repository: lookups by id, user id, name, phone and email.
pub struct UserRepo {
    pub data: Arc<Data>,
}

impl UserRepo {
    pub fn repo(data: Arc<Data>) -> (r: Arc<UserRepo>)
        ensures
            r.data == data,
    {
        Arc::new(UserRepo { data })
    }

    /// The key a name lookup searches under: trimmed, then case-folded,
    /// so that a name matches regardless of case and padding.
    pub fn name_key(name: &str) -> (r: String)
        ensures
            r@ == lower_of(trimmed_of(name@)),
            name@.len() == 0 ==> r@.len() == 0,
    {
        lowercase(trim_str(name))
    }

    /// The miss rule every lookup shares: a found row is returned as is,
    /// a missing one is `UserNotExist` carrying the searched key.
    pub fn require_found(found: Option<biz::User>, key: String) -> (r: Result<biz::User, biz::Error>)
        ensures
            found matches Some(u) ==> r == Ok::<biz::User, biz::Error>(u),
            found is None ==> r == Err::<biz::User, biz::Error>(biz::Error::UserNotExist(key)),
    {
        match found {
            Some(u) => Ok(u),
            None => Err(biz::Error::UserNotExist(key)),
        }
    }
}

} // verus!
