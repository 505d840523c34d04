use vstd::prelude::*;

verus! {

/// Every way a settlement operation can be refused. A refused operation
/// leaves all state unchanged; the caller must resubmit with corrected
/// arguments.
#[derive(Clone, Copy, Debug, PartialEq, Eq)]
pub enum ErrorCode {
    /// The deposit queue is full.
    CapacityExceeded,
    /// A commit carried a batch number not greater than the committed
    /// watermark.
    NonMonotonicBatchNumber,
    /// A finalize referenced a batch number that was never committed.
    BatchNotCommitted,
    /// A finalize referenced a batch number not greater than the
    /// finalized watermark (already finalized, or out of order).
    NonMonotonicFinalization,
    /// The proof verifier rejected the submitted proof.
    InvalidProof,
    /// A finalize claimed to drain more deposits than are queued.
    InsufficientDeposits,
}

} // verus!
