//! Settlement core of a rollup-style bridge: a bounded deposit queue, a
//! ledger of committed batches, and the commit/finalize protocol that
//! consumes queued deposits exactly once, in order, and only after a
//! proof of the batch has been accepted.

pub mod batch;
pub mod deposit;
pub mod errors;
pub mod settlement;
