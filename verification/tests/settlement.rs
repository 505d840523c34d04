use twine_chain::batch::initialize_commitment_data_pda;
use twine_chain::batch::CommitBatchInfo;
use twine_chain::batch::CommitmentData;
use twine_chain::deposit::append_deposit_message;
use twine_chain::deposit::initialize_deposit_message_pda;
use twine_chain::deposit::DepositMessageInfo;
use twine_chain::deposit::DepositMessagePDA;
use twine_chain::deposit::MAX_QUEUE_SIZE;
use twine_chain::errors::ErrorCode;
use twine_chain::settlement::commit_batch;
use twine_chain::settlement::finalize_batch;
use twine_chain::settlement::ProofVerifier;

fn addr(tag: u8) -> [u8; 32] {
    [tag; 32]
}

fn deposit(from: u8, to: u8, amount: u64) -> DepositMessageInfo {
    DepositMessageInfo { from: addr(from), to: addr(to), amount }
}

fn commit_info(batch_number: u64, hash: u8, prev: u8, next: u8) -> CommitBatchInfo {
    CommitBatchInfo {
        batch_number,
        batch_hash: addr(hash),
        previous_state_root: addr(prev),
        state_root: addr(next),
    }
}

fn accepting_verifier() -> ProofVerifier {
    ProofVerifier { verification_key: vec![0xAA, 0xBB], verdict: true }
}

fn rejecting_verifier() -> ProofVerifier {
    ProofVerifier { verification_key: vec![0xAA, 0xBB], verdict: false }
}

/// Batch 1 committed and two deposits queued: the setup several
/// finalization tests start from.
fn committed_with_two_deposits() -> (CommitmentData, DepositMessagePDA) {
    let mut store = initialize_commitment_data_pda();
    let mut ledger = initialize_deposit_message_pda();
    assert!(commit_batch(&mut store, commit_info(1, 7, 0, 9)).is_ok());
    assert!(append_deposit_message(&mut ledger, deposit(1, 2, 100)).is_ok());
    assert!(append_deposit_message(&mut ledger, deposit(3, 4, 50)).is_ok());
    (store, ledger)
}

#[test]
fn append_keeps_order_and_length() {
    // Scenario: deposits from two parties land in the queue in call order.
    let mut ledger = initialize_deposit_message_pda();
    let alice_to_bob = deposit(1, 2, 100);
    let carol_to_dave = deposit(3, 4, 50);
    let r1 = append_deposit_message(&mut ledger, alice_to_bob);
    let r2 = append_deposit_message(&mut ledger, carol_to_dave);
    assert!(r1.is_ok());
    assert!(r2.is_ok());
    assert_eq!(ledger.deposits.len(), 2);
    assert_eq!(ledger.deposits[0], alice_to_bob);
    assert_eq!(ledger.deposits[1], carol_to_dave);
}

#[test]
fn append_returns_the_event_for_the_sink() {
    let mut ledger = initialize_deposit_message_pda();
    let event = append_deposit_message(&mut ledger, deposit(5, 6, 77)).unwrap();
    assert_eq!(event.from, addr(5));
    assert_eq!(event.to, addr(6));
    assert_eq!(event.amount, 77);
}

#[test]
fn append_rejects_when_full() {
    let mut ledger = initialize_deposit_message_pda();
    for i in 0..MAX_QUEUE_SIZE {
        assert!(append_deposit_message(&mut ledger, deposit(1, 2, i as u64)).is_ok());
    }
    let r = append_deposit_message(&mut ledger, deposit(1, 2, 999));
    assert_eq!(r.unwrap_err(), ErrorCode::CapacityExceeded);
    assert_eq!(ledger.deposits.len(), MAX_QUEUE_SIZE);
    assert_eq!(ledger.deposits[0].amount, 0);
    assert_eq!(ledger.deposits[MAX_QUEUE_SIZE - 1].amount, (MAX_QUEUE_SIZE - 1) as u64);
}

#[test]
fn commit_rejects_duplicate_batch_number() {
    // Scenario: a replayed batch number is refused and the first claim stays.
    let mut store = initialize_commitment_data_pda();
    let first = commit_info(1, 7, 0, 9);
    assert!(commit_batch(&mut store, first).is_ok());
    let second = commit_info(1, 8, 9, 10);
    let r = commit_batch(&mut store, second);
    assert_eq!(r.unwrap_err(), ErrorCode::NonMonotonicBatchNumber);
    assert_eq!(store.last_committed_batch_number, 1);
    let stored = store.lookup(1).unwrap();
    assert_eq!(stored.batch_number, 1);
    assert_eq!(stored.batch_hash, first.batch_hash);
    assert_eq!(stored.previous_state_root, first.previous_state_root);
    assert_eq!(stored.state_root, first.state_root);
}

#[test]
fn commit_rejects_lower_batch_number() {
    let mut store = initialize_commitment_data_pda();
    assert!(commit_batch(&mut store, commit_info(5, 1, 0, 2)).is_ok());
    let r = commit_batch(&mut store, commit_info(3, 2, 2, 3));
    assert_eq!(r.unwrap_err(), ErrorCode::NonMonotonicBatchNumber);
    assert_eq!(store.last_committed_batch_number, 5);
    assert!(store.lookup(3).is_none());
}

#[test]
fn commit_accepts_increasing_batch_numbers_with_gaps() {
    let mut store = initialize_commitment_data_pda();
    assert!(commit_batch(&mut store, commit_info(1, 1, 0, 2)).is_ok());
    assert!(commit_batch(&mut store, commit_info(2, 2, 2, 3)).is_ok());
    assert!(commit_batch(&mut store, commit_info(10, 3, 3, 4)).is_ok());
    assert_eq!(store.last_committed_batch_number, 10);
    assert!(store.lookup(1).is_some());
    assert!(store.lookup(2).is_some());
    assert!(store.lookup(10).is_some());
    assert!(store.lookup(4).is_none());
}

#[test]
fn commit_fixes_an_empty_public_input() {
    let mut store = initialize_commitment_data_pda();
    assert!(commit_batch(&mut store, commit_info(1, 7, 0, 9)).is_ok());
    assert_eq!(store.lookup(1).unwrap().public_input.len(), 0);
}

#[test]
fn finalize_accepts_proof_and_drains_queue() {
    // Scenario: a valid proof finalizes batch 1 and empties the queue.
    let (mut store, mut ledger) = committed_with_two_deposits();
    let verifier = accepting_verifier();
    let r = finalize_batch(&mut store, &mut ledger, 1, vec![1, 2, 3], 2, &verifier);
    assert!(r.is_ok());
    assert_eq!(store.last_finalized_batch_number, 1);
    assert_eq!(ledger.deposits.len(), 0);
}

#[test]
fn finalize_rejects_garbage_proof_and_changes_nothing() {
    // Scenario: a rejected proof leaves watermark and queue untouched.
    let (mut store, mut ledger) = committed_with_two_deposits();
    let verifier = rejecting_verifier();
    let r = finalize_batch(&mut store, &mut ledger, 1, vec![9, 9, 9], 2, &verifier);
    assert_eq!(r.unwrap_err(), ErrorCode::InvalidProof);
    assert_eq!(store.last_finalized_batch_number, 0);
    assert_eq!(ledger.deposits.len(), 2);
    assert_eq!(ledger.deposits[0].amount, 100);
    assert_eq!(ledger.deposits[1].amount, 50);
}

#[test]
fn finalize_rejects_overdrawn_deposit_count() {
    // Scenario: claiming two deposits against a queue of one is refused.
    let mut store = initialize_commitment_data_pda();
    let mut ledger = initialize_deposit_message_pda();
    assert!(commit_batch(&mut store, commit_info(1, 7, 0, 9)).is_ok());
    assert!(append_deposit_message(&mut ledger, deposit(1, 2, 100)).is_ok());
    let verifier = accepting_verifier();
    let r = finalize_batch(&mut store, &mut ledger, 1, vec![1], 2, &verifier);
    assert_eq!(r.unwrap_err(), ErrorCode::InsufficientDeposits);
    assert_eq!(store.last_finalized_batch_number, 0);
    assert_eq!(ledger.deposits.len(), 1);
}

#[test]
fn finalize_rejects_uncommitted_batch() {
    let mut store = initialize_commitment_data_pda();
    let mut ledger = initialize_deposit_message_pda();
    let verifier = accepting_verifier();
    let r = finalize_batch(&mut store, &mut ledger, 1, vec![1], 0, &verifier);
    assert_eq!(r.unwrap_err(), ErrorCode::BatchNotCommitted);
    assert_eq!(store.last_finalized_batch_number, 0);
}

#[test]
fn finalize_succeeds_at_most_once_per_batch() {
    let (mut store, mut ledger) = committed_with_two_deposits();
    let verifier = accepting_verifier();
    assert!(finalize_batch(&mut store, &mut ledger, 1, vec![1], 1, &verifier).is_ok());
    let r = finalize_batch(&mut store, &mut ledger, 1, vec![1], 1, &verifier);
    assert_eq!(r.unwrap_err(), ErrorCode::NonMonotonicFinalization);
    assert_eq!(store.last_finalized_batch_number, 1);
    assert_eq!(ledger.deposits.len(), 1);
}

#[test]
fn finalize_rejects_already_finalized_predecessor() {
    let mut store = initialize_commitment_data_pda();
    let mut ledger = initialize_deposit_message_pda();
    assert!(commit_batch(&mut store, commit_info(1, 1, 0, 2)).is_ok());
    assert!(commit_batch(&mut store, commit_info(2, 2, 2, 3)).is_ok());
    let verifier = accepting_verifier();
    assert!(finalize_batch(&mut store, &mut ledger, 2, vec![1], 0, &verifier).is_ok());
    let r = finalize_batch(&mut store, &mut ledger, 1, vec![1], 0, &verifier);
    assert_eq!(r.unwrap_err(), ErrorCode::NonMonotonicFinalization);
    assert_eq!(store.last_finalized_batch_number, 2);
}

#[test]
fn finalize_drains_exactly_the_oldest_prefix() {
    let (mut store, mut ledger) = committed_with_two_deposits();
    let verifier = accepting_verifier();
    assert!(finalize_batch(&mut store, &mut ledger, 1, vec![1], 1, &verifier).is_ok());
    assert_eq!(ledger.deposits.len(), 1);
    assert_eq!(ledger.deposits[0], deposit(3, 4, 50));
}

#[test]
fn drain_prefix_returns_records_in_original_order() {
    let mut ledger = initialize_deposit_message_pda();
    assert!(append_deposit_message(&mut ledger, deposit(1, 2, 10)).is_ok());
    assert!(append_deposit_message(&mut ledger, deposit(3, 4, 20)).is_ok());
    assert!(append_deposit_message(&mut ledger, deposit(5, 6, 30)).is_ok());
    let taken = ledger.drain_prefix(2).unwrap();
    assert_eq!(taken.len(), 2);
    assert_eq!(taken[0], deposit(1, 2, 10));
    assert_eq!(taken[1], deposit(3, 4, 20));
    assert_eq!(ledger.deposits.len(), 1);
    assert_eq!(ledger.deposits[0], deposit(5, 6, 30));
}

#[test]
fn drain_prefix_rejects_count_beyond_length() {
    let mut ledger = initialize_deposit_message_pda();
    assert!(append_deposit_message(&mut ledger, deposit(1, 2, 10)).is_ok());
    let r = ledger.drain_prefix(2);
    assert_eq!(r.unwrap_err(), ErrorCode::InsufficientDeposits);
    assert_eq!(ledger.deposits.len(), 1);
}

#[test]
fn drain_prefix_of_zero_is_a_no_op() {
    let mut ledger = initialize_deposit_message_pda();
    assert!(append_deposit_message(&mut ledger, deposit(1, 2, 10)).is_ok());
    let taken = ledger.drain_prefix(0).unwrap();
    assert_eq!(taken.len(), 0);
    assert_eq!(ledger.deposits.len(), 1);
}

#[test]
fn drained_records_across_finalizations_are_the_appended_prefix() {
    // Deposit conservation, observed per drain: every record handed out
    // is an appended one, each exactly once, in append order.
    let mut store = initialize_commitment_data_pda();
    let mut ledger = initialize_deposit_message_pda();
    let all = [deposit(1, 2, 10), deposit(3, 4, 20), deposit(5, 6, 30), deposit(7, 8, 40)];
    for d in all {
        assert!(append_deposit_message(&mut ledger, d).is_ok());
    }
    assert!(commit_batch(&mut store, commit_info(1, 1, 0, 2)).is_ok());
    assert!(commit_batch(&mut store, commit_info(2, 2, 2, 3)).is_ok());
    let mut handed_out = ledger.drain_prefix(3).unwrap();
    let mut second_drain = ledger.drain_prefix(1).unwrap();
    handed_out.append(&mut second_drain);
    assert_eq!(handed_out.as_slice(), all.as_slice());
    assert_eq!(ledger.deposits.len(), 0);
}

#[test]
fn mark_finalized_requires_a_committed_batch() {
    let mut store = initialize_commitment_data_pda();
    let r = store.mark_finalized(1);
    assert_eq!(r.unwrap_err(), ErrorCode::BatchNotCommitted);
    assert!(commit_batch(&mut store, commit_info(1, 1, 0, 2)).is_ok());
    assert!(store.mark_finalized(1).is_ok());
    assert_eq!(store.mark_finalized(1).unwrap_err(), ErrorCode::NonMonotonicFinalization);
}

#[test]
fn lookup_is_read_only_and_exact() {
    let mut store = initialize_commitment_data_pda();
    let info = commit_info(4, 11, 12, 13);
    assert!(commit_batch(&mut store, info).is_ok());
    assert!(store.lookup(3).is_none());
    let stored = store.lookup(4).unwrap();
    assert_eq!(stored.batch_number, 4);
    assert_eq!(stored.batch_hash, info.batch_hash);
    assert_eq!(stored.previous_state_root, info.previous_state_root);
    assert_eq!(stored.state_root, info.state_root);
    assert!(stored.public_input.is_empty());
    assert_eq!(store.last_finalized_batch_number, 0);
    assert_eq!(store.last_committed_batch_number, 4);
}
