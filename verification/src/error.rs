use vstd::prelude::*;

verus! {

/// Every way a request can fail, from startup configuration to reply
/// delivery. Per-request failures are local to that request: they reach
/// only the caller that issued the query and never halt the worker.
#[derive(Clone, Debug, PartialEq, Eq)]
pub enum DbError {
    /// The connection string is missing or malformed; fatal at startup.
    Configuration,
    /// Acquiring a connection from the pool failed; the payload carries the
    /// driver's description.
    Connection(String),
    /// The driver reported a failure executing the statement.
    Query(String),
    /// A required column (the identifier) was missing or null in a result
    /// row.
    RowMapping,
    /// The worker dropped the reply slot without fulfilling it, or the
    /// worker itself went away before answering.
    ReplyCancelled,
}

} // verus!
