use vstd::prelude::*;

use crate::batch::CommitBatchInfo;
use crate::batch::CommitmentData;
use crate::batch::StoredBatchInfo;
use crate::deposit::DepositMessagePDA;
use crate::errors::ErrorCode;

verus! {

/// Stand-in for the external succinct-proof verifier, an outside
/// collaborator whose internals are out of scope here. It carries the
/// verification key the deployment was configured with and a
/// configurable verdict, so the settlement protocol around it can be
/// exercised with proofs that are accepted or rejected at will.
pub struct ProofVerifier {
    pub verification_key: Vec<u8>,
    pub verdict: bool,
}

impl ProofVerifier {
    /// Checks a proof against a public input under the verification
    /// key; this stand-in returns its configured verdict.
    #[allow(unused_variables)]
    pub fn verify(&self, proof_bytes: &Vec<u8>, public_input: &Vec<u8>) -> (ok: bool)
        ensures
            ok == self.verdict,
    {
        self.verdict
    }
}

/// Derives the public input a batch's proof will later be checked
/// against. It is fixed at commit time and never recomputed; the
/// minimal derivation here is empty, pending a richer encoding.
#[allow(unused_variables)]
pub fn derive_public_input(commit_info: &CommitBatchInfo) -> (r: Vec<u8>)
    ensures
        r@ == Seq::<u8>::empty(),
{
    Vec::new()
}

/// The result a commit must come to, given the ledger it runs against:
/// accepted exactly when the batch number strictly exceeds the
/// committed watermark.
pub open spec fn commit_outcome(store: CommitmentData, batch_number: u64) -> Result<
    (),
    ErrorCode,
> {
    if batch_number <= store.last_committed_batch_number {
        Err(ErrorCode::NonMonotonicBatchNumber)
    } else {
        Ok(())
    }
}

/// The result a finalize must come to, given the ledger, the queue
/// length, and the verifier's verdict. The checks run in protocol
/// order: the batch must be committed, the proof accepted, the
/// finalized watermark strictly advanced, and the claimed deposit
/// count covered by the queue.
pub open spec fn finalize_outcome(
    store: CommitmentData,
    queue_len: nat,
    batch_number: u64,
    verdict: bool,
    number_of_deposits: u64,
) -> Result<(), ErrorCode> {
    if !store.contains_batch(batch_number) {
        Err(ErrorCode::BatchNotCommitted)
    } else if !verdict {
        Err(ErrorCode::InvalidProof)
    } else if batch_number <= store.last_finalized_batch_number {
        Err(ErrorCode::NonMonotonicFinalization)
    } else if number_of_deposits > queue_len {
        Err(ErrorCode::InsufficientDeposits)
    } else {
        Ok(())
    }
}

/// Entry point for committing a batch: records the producer's claim,
/// with a freshly derived public input, under its batch number. The
/// commit is accepted exactly when its batch number strictly exceeds
/// the committed watermark; a refused commit changes nothing. No
/// deposits are touched either way.
pub fn commit_batch(
    commitment_data_pda: &mut CommitmentData,
    commit_info: CommitBatchInfo,
) -> (r: Result<(), ErrorCode>)
    requires
        old(commitment_data_pda).well_formed(),
    ensures
        final(commitment_data_pda).well_formed(),
        r == commit_outcome(*old(commitment_data_pda), commit_info.batch_number),
        r is Err ==> *final(commitment_data_pda) == *old(commitment_data_pda),
        r is Ok ==> {
            &&& final(commitment_data_pda).mapping@.len() == old(
                commitment_data_pda,
            ).mapping@.len() + 1
            &&& final(commitment_data_pda).mapping@.subrange(
                0,
                old(commitment_data_pda).mapping@.len() as int,
            ) == old(commitment_data_pda).mapping@
            &&& final(commitment_data_pda).mapping@.last().0 == commit_info.batch_number
            &&& final(commitment_data_pda).mapping@.last().1.batch_number
                == commit_info.batch_number
            &&& final(commitment_data_pda).mapping@.last().1.batch_hash == commit_info.batch_hash
            &&& final(commitment_data_pda).mapping@.last().1.previous_state_root
                == commit_info.previous_state_root
            &&& final(commitment_data_pda).mapping@.last().1.state_root == commit_info.state_root
            &&& final(commitment_data_pda).mapping@.last().1.public_input@
                == Seq::<u8>::empty()
            &&& final(commitment_data_pda).last_committed_batch_number
                == commit_info.batch_number
            &&& final(commitment_data_pda).last_finalized_batch_number == old(
                commitment_data_pda,
            ).last_finalized_batch_number
            &&& forall|b: u64|
                #[trigger] final(commitment_data_pda).contains_batch(b) <==> (old(
                    commitment_data_pda,
                ).contains_batch(b) || b == commit_info.batch_number)
        },
{
    let public_input = derive_public_input(&commit_info);
    let info = StoredBatchInfo {
        batch_number: commit_info.batch_number,
        batch_hash: commit_info.batch_hash,
        previous_state_root: commit_info.previous_state_root,
        state_root: commit_info.state_root,
        public_input,
    };
    let r = commitment_data_pda.commit(info);
    proof {
        if r is Ok {
            assert(commitment_data_pda.mapping@.subrange(
                0,
                old(commitment_data_pda).mapping@.len() as int,
            ) =~= old(commitment_data_pda).mapping@);
        }
    }
    r
}

/// Entry point for finalizing a committed batch: looks the batch up,
/// checks the submitted proof against the public input fixed at commit
/// time, and on acceptance advances the finalized watermark and drains
/// the covered prefix of the deposit queue — both together or not at
/// all. A refused finalize, for whichever reason, changes nothing.
pub fn finalize_batch(
    commitment_data_pda: &mut CommitmentData,
    deposit_message_pda: &mut DepositMessagePDA,
    batch_number: u64,
    proof_bytes: Vec<u8>,
    number_of_deposits: u64,
    verifier: &ProofVerifier,
) -> (r: Result<(), ErrorCode>)
    requires
        old(commitment_data_pda).well_formed(),
        old(deposit_message_pda).well_formed(),
    ensures
        final(commitment_data_pda).well_formed(),
        final(deposit_message_pda).well_formed(),
        r == finalize_outcome(
            *old(commitment_data_pda),
            old(deposit_message_pda).deposits@.len(),
            batch_number,
            verifier.verdict,
            number_of_deposits,
        ),
        r is Err ==> {
            &&& *final(commitment_data_pda) == *old(commitment_data_pda)
            &&& *final(deposit_message_pda) == *old(deposit_message_pda)
        },
        r is Ok ==> {
            &&& final(commitment_data_pda).mapping@ == old(commitment_data_pda).mapping@
            &&& final(commitment_data_pda).last_committed_batch_number == old(
                commitment_data_pda,
            ).last_committed_batch_number
            &&& final(commitment_data_pda).last_finalized_batch_number == batch_number
            &&& final(deposit_message_pda).deposits@ == old(
                deposit_message_pda,
            ).deposits@.subrange(
                number_of_deposits as int,
                old(deposit_message_pda).deposits@.len() as int,
            )
            &&& final(deposit_message_pda).appended@ == old(deposit_message_pda).appended@
            &&& final(deposit_message_pda).drained@ == old(deposit_message_pda).drained@ + old(
                deposit_message_pda,
            ).deposits@.subrange(0, number_of_deposits as int)
        },
{
    let ok = match commitment_data_pda.lookup(batch_number) {
        None => {
            return Err(ErrorCode::BatchNotCommitted);
        },
        Some(info) => verifier.verify(&proof_bytes, &info.public_input),
    };
    if !ok {
        return Err(ErrorCode::InvalidProof);
    }
    if batch_number <= commitment_data_pda.last_finalized_batch_number {
        return Err(ErrorCode::NonMonotonicFinalization);
    }
    if number_of_deposits > deposit_message_pda.deposits.len() as u64 {
        return Err(ErrorCode::InsufficientDeposits);
    }
    // The checks above guarantee both steps below succeed, so the two
    // mutations happen together or not at all; the error arms are dead.
    match commitment_data_pda.mark_finalized(batch_number) {
        Ok(()) => {},
        Err(e) => {
            proof {
                assert(false);
            }
            return Err(e);
        },
    }
    match deposit_message_pda.drain_prefix(number_of_deposits) {
        Ok(_) => {},
        Err(e) => {
            proof {
                assert(false);
            }
            return Err(e);
        },
    }
    Ok(())
}

/// Monotonic commit: an accepted commit's batch number strictly
/// exceeds every batch number already in the ledger, so the recorded
/// batch numbers only ever grow. (That a refused commit leaves the
/// ledger unchanged is part of `commit_batch`'s contract.)
pub proof fn lemma_commit_monotonic(store: CommitmentData, batch_number: u64)
    requires
        store.well_formed(),
        commit_outcome(store, batch_number) is Ok,
    ensures
        forall|i: int|
            0 <= i < store.mapping@.len() ==> (#[trigger] store.mapping@[i]).0 < batch_number,
{
}

/// Finalize requires commit: finalizing a batch number the ledger has
/// never seen is refused as `BatchNotCommitted`, whatever the proof,
/// the claimed deposit count, or the queue's state.
pub proof fn lemma_finalize_requires_commit(
    store: CommitmentData,
    queue_len: nat,
    batch_number: u64,
    verdict: bool,
    number_of_deposits: u64,
)
    requires
        !store.contains_batch(batch_number),
    ensures
        finalize_outcome(store, queue_len, batch_number, verdict, number_of_deposits)
            == Err::<(), ErrorCode>(ErrorCode::BatchNotCommitted),
{
}

/// Finalize is terminal: once a finalize of batch `batch_number` has
/// been accepted — leaving the ledger's entries as they were and its
/// finalized watermark at `batch_number` — no later finalize of the
/// same batch can be accepted; with an accepted proof it is refused as
/// `NonMonotonicFinalization`.
pub proof fn lemma_finalize_is_terminal(
    pre: CommitmentData,
    post: CommitmentData,
    queue_len_then: nat,
    queue_len_now: nat,
    batch_number: u64,
    deposits_then: u64,
    deposits_now: u64,
    verdict_then: bool,
    verdict_now: bool,
)
    requires
        finalize_outcome(pre, queue_len_then, batch_number, verdict_then, deposits_then)
            == Ok::<(), ErrorCode>(()),
        post.mapping@ == pre.mapping@,
        post.last_finalized_batch_number == batch_number,
    ensures
        finalize_outcome(post, queue_len_now, batch_number, verdict_now, deposits_now)
            != Ok::<(), ErrorCode>(()),
        verdict_now ==> finalize_outcome(
            post,
            queue_len_now,
            batch_number,
            verdict_now,
            deposits_now,
        ) == Err::<(), ErrorCode>(ErrorCode::NonMonotonicFinalization),
{
    let i = choose|i: int|
        0 <= i < pre.mapping@.len() && (#[trigger] pre.mapping@[i]).0 == batch_number;
    assert(post.mapping@[i].0 == batch_number);
}

} // verus!
