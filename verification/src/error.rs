//! Process-level errors: configuration, server startup, and reaching the
//! database endpoint at pool construction (fatal at startup, reportable at
//! runtime).

use vstd::prelude::*;

verus! {

#[derive(Debug, PartialEq, Eq)]
pub enum Error {
    /// The configuration could not be read or was incomplete.
    ConfigError(String),
    /// The server failed to start.
    ServerError(String),
    /// A path handed to the process is invalid.
    PathInvalid,
    /// The database endpoint could not be reached.
    DatabaseError(String),
}

} // verus!
