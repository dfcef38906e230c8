//! An actor-style database access facade.
//!
//! Many callers hand query requests to a single worker that exclusively owns
//! the connection pool. Requests travel through a bounded FIFO channel; each
//! request carries its own single-use reply slot, so every caller awaits
//! exactly one reply and no result is ever delivered to the wrong caller.
//!
//! The modules here hold the verified logic of that design: row mapping,
//! the bounded request queue, the worker's per-request dispatch, and the
//! client-side request construction and reply interpretation. The
//! surrounding process (the SQL driver, the executor, the wire protocol)
//! hands these functions plain values and takes plain values back.

pub mod channel;
pub mod client;
pub mod error;
pub mod executor;
pub mod worker;
