//! A verified data-access core for a small chat server.
//!
//! The heart of the crate is transparent transaction propagation: a bounded
//! connection pool, a transaction handle with single-use commit/rollback
//! semantics, an ambient (scope-bound) slot that carries the active
//! transaction through a call chain, and a unit-of-work driver that
//! guarantees exactly one finalization per logical operation.  The database
//! endpoint itself is modelled in [`db`] so that every routing and
//! finalization decision is proved; a real driver is attached outside the
//! verified core by performing the actions these types decide on.

pub mod biz;
pub mod components;
pub mod config;
pub mod data;
pub mod db;
pub mod error;
pub mod executor;
pub mod pool;
pub mod response;
pub mod service;
pub mod time;
pub mod transaction;
pub mod uow;
pub mod user;
pub mod validate;
