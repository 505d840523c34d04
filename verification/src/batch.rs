use vstd::prelude::*;

use crate::errors::ErrorCode;

verus! {

/// A batch producer's claim, as submitted at commit time: batch number,
/// batch hash, and the state roots before and after the transition.
#[derive(Clone, Copy, Debug, PartialEq, Eq)]
pub struct CommitBatchInfo {
    pub batch_number: u64,
    pub batch_hash: [u8; 32],
    pub previous_state_root: [u8; 32],
    pub state_root: [u8; 32],
}

/// A committed, not yet verified batch as the ledger stores it. The
/// `public_input` is fixed at commit time and is exactly what a later
/// proof is checked against; it is never recomputed in between.
#[derive(Clone, Debug)]
pub struct StoredBatchInfo {
    pub batch_number: u64,
    pub batch_hash: [u8; 32],
    pub previous_state_root: [u8; 32],
    pub state_root: [u8; 32],
    pub public_input: Vec<u8>,
}

/// The batch ledger: an ordered mapping from batch number to the stored
/// batch, with the two lifecycle watermarks. Entries stay after
/// finalization; only the deposit queue is pruned.
pub struct CommitmentData {
    pub mapping: Vec<(u64, StoredBatchInfo)>,
    pub last_committed_batch_number: u64,
    pub last_finalized_batch_number: u64,
}

impl CommitmentData {
    /// Validity of the ledger: every entry's key equals its stored
    /// batch number, keys are strictly increasing (so each key occurs
    /// once), the committed watermark is the last key (0 when empty),
    /// and the finalized watermark trails the committed one and names
    /// a committed batch when nonzero.
    pub open spec fn well_formed(self) -> bool {
        &&& forall|i: int|
            0 <= i < self.mapping@.len() ==> (#[trigger] self.mapping@[i]).1.batch_number
                == self.mapping@[i].0
        &&& forall|i: int, j: int|
            0 <= i < j < self.mapping@.len() ==> (#[trigger] self.mapping@[i]).0 < (
            #[trigger] self.mapping@[j]).0
        &&& forall|i: int|
            0 <= i < self.mapping@.len() ==> (#[trigger] self.mapping@[i]).0
                <= self.last_committed_batch_number
        &&& self.mapping@.len() == 0 ==> self.last_committed_batch_number == 0
        &&& self.mapping@.len() > 0 ==> self.mapping@[self.mapping@.len() - 1].0
            == self.last_committed_batch_number
        &&& self.last_finalized_batch_number <= self.last_committed_batch_number
        &&& self.last_finalized_batch_number != 0 ==> self.contains_batch(
            self.last_finalized_batch_number,
        )
    }

    /// Whether a batch with this number has been committed.
    pub open spec fn contains_batch(self, batch_number: u64) -> bool {
        exists|i: int|
            0 <= i < self.mapping@.len() && (#[trigger] self.mapping@[i]).0 == batch_number
    }

    /// The position of the entry for this batch number.
    pub open spec fn index_of(self, batch_number: u64) -> int {
        choose|i: int|
            0 <= i < self.mapping@.len() && (#[trigger] self.mapping@[i]).0 == batch_number
    }

    /// The stored batch under this number.
    pub open spec fn stored_batch(self, batch_number: u64) -> StoredBatchInfo {
        self.mapping@[self.index_of(batch_number)].1
    }

    /// In a well-formed ledger a batch number names at most one entry.
    proof fn lemma_index_unique(self, i: int, j: int)
        requires
            self.well_formed(),
            0 <= i < self.mapping@.len(),
            0 <= j < self.mapping@.len(),
            self.mapping@[i].0 == self.mapping@[j].0,
        ensures
            i == j,
    {
        if i < j {
            assert(self.mapping@[i].0 < self.mapping@[j].0);
        }
        if j < i {
            assert(self.mapping@[j].0 < self.mapping@[i].0);
        }
    }

    /// Read-only lookup of a committed batch.
    pub fn lookup(&self, batch_number: u64) -> (r: Option<&StoredBatchInfo>)
        requires
            self.well_formed(),
        ensures
            r is Some <==> self.contains_batch(batch_number),
            r is Some ==> *r->Some_0 == self.stored_batch(batch_number)
                && r->Some_0.batch_number == batch_number,
    {
        let n = self.mapping.len();
        let mut i: usize = 0;
        while i < n
            invariant
                i <= n,
                n == self.mapping@.len(),
                self.well_formed(),
                forall|j: int| 0 <= j < i ==> (#[trigger] self.mapping@[j]).0 != batch_number,
            decreases n - i,
        {
            let entry = &self.mapping[i];
            if entry.0 == batch_number {
                proof {
                    self.lemma_index_unique(i as int, self.index_of(batch_number));
                }
                return Some(&entry.1);
            }
            i = i + 1;
        }
        None
    }

    /// Records a committed batch, refusing any batch number that does
    /// not strictly exceed the committed watermark. On success the
    /// entry is appended, the committed watermark advances to it, and
    /// exactly one batch number — the new one — becomes committed.
    pub fn commit(&mut self, info: StoredBatchInfo) -> (r: Result<(), ErrorCode>)
        requires
            old(self).well_formed(),
        ensures
            final(self).well_formed(),
            info.batch_number <= old(self).last_committed_batch_number ==> {
                &&& r == Err::<(), ErrorCode>(ErrorCode::NonMonotonicBatchNumber)
                &&& *final(self) == *old(self)
            },
            info.batch_number > old(self).last_committed_batch_number ==> {
                &&& r == Ok::<(), ErrorCode>(())
                &&& final(self).mapping@ == old(self).mapping@.push((info.batch_number, info))
                &&& final(self).last_committed_batch_number == info.batch_number
                &&& final(self).last_finalized_batch_number == old(
                    self,
                ).last_finalized_batch_number
                &&& forall|b: u64|
                    #[trigger] final(self).contains_batch(b) <==> (old(self).contains_batch(b)
                        || b == info.batch_number)
            },
    {
        if info.batch_number <= self.last_committed_batch_number {
            return Err(ErrorCode::NonMonotonicBatchNumber);
        }
        let batch_number = info.batch_number;
        self.mapping.push((batch_number, info));
        self.last_committed_batch_number = batch_number;
        proof {
            let pre = *old(self);
            let n = pre.mapping@.len() as int;
            assert forall|b: u64| #[trigger]
                self.contains_batch(b) <==> (pre.contains_batch(b) || b == batch_number) by {
                if self.contains_batch(b) {
                    let i = choose|i: int|
                        0 <= i < self.mapping@.len() && (#[trigger] self.mapping@[i]).0 == b;
                    if i < n {
                        assert(pre.mapping@[i].0 == b);
                    }
                }
                if pre.contains_batch(b) {
                    let i = choose|i: int|
                        0 <= i < pre.mapping@.len() && (#[trigger] pre.mapping@[i]).0 == b;
                    assert(self.mapping@[i].0 == b);
                }
                if b == batch_number {
                    assert(self.mapping@[n].0 == b);
                }
            }
        }
        Ok(())
    }

    /// Advances the finalized watermark to this batch, refusing an
    /// uncommitted batch number and any number that does not strictly
    /// exceed the current finalized watermark. Entries and the
    /// committed watermark are untouched.
    pub fn mark_finalized(&mut self, batch_number: u64) -> (r: Result<(), ErrorCode>)
        requires
            old(self).well_formed(),
        ensures
            final(self).well_formed(),
            !old(self).contains_batch(batch_number) ==> {
                &&& r == Err::<(), ErrorCode>(ErrorCode::BatchNotCommitted)
                &&& *final(self) == *old(self)
            },
            old(self).contains_batch(batch_number) && batch_number <= old(
                self,
            ).last_finalized_batch_number ==> {
                &&& r == Err::<(), ErrorCode>(ErrorCode::NonMonotonicFinalization)
                &&& *final(self) == *old(self)
            },
            old(self).contains_batch(batch_number) && batch_number > old(
                self,
            ).last_finalized_batch_number ==> {
                &&& r == Ok::<(), ErrorCode>(())
                &&& final(self).mapping@ == old(self).mapping@
                &&& final(self).last_committed_batch_number == old(
                    self,
                ).last_committed_batch_number
                &&& final(self).last_finalized_batch_number == batch_number
            },
    {
        if self.lookup(batch_number).is_none() {
            return Err(ErrorCode::BatchNotCommitted);
        }
        if batch_number <= self.last_finalized_batch_number {
            return Err(ErrorCode::NonMonotonicFinalization);
        }
        self.last_finalized_batch_number = batch_number;
        proof {
            let i = self.index_of(batch_number);
            assert(self.mapping@[i].0 <= self.last_committed_batch_number);
        }
        Ok(())
    }
}

/// Creates the batch ledger, empty, with both watermarks at 0.
pub fn initialize_commitment_data_pda() -> (r: CommitmentData)
    ensures
        r.well_formed(),
        r.mapping@ == Seq::<(u64, StoredBatchInfo)>::empty(),
        r.last_committed_batch_number == 0,
        r.last_finalized_batch_number == 0,
{
    CommitmentData { mapping: Vec::new(), last_committed_batch_number: 0, last_finalized_batch_number: 0 }
}

} // verus!
