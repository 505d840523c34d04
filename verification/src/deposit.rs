use vstd::prelude::*;

use crate::errors::ErrorCode;

verus! {

/// A source- or destination-chain account identifier: 32 raw bytes.
pub type Address = [u8; 32];

/// Fixed capacity of the deposit queue, chosen at deployment time. An
/// append that would push the queue past this bound is refused.
pub const MAX_QUEUE_SIZE: usize = 100;

/// One deposit event awaiting inclusion in a finalized batch. Immutable
/// once appended; its identity is its position in the queue.
#[derive(Clone, Copy, Debug, PartialEq, Eq)]
pub struct DepositMessageInfo {
    pub from: Address,
    pub to: Address,
    pub amount: u64,
}

/// The notification handed to the external event sink after a deposit
/// is accepted.
#[derive(Clone, Copy, Debug, PartialEq, Eq)]
pub struct DepositSuccessful {
    pub from: Address,
    pub to: Address,
    pub amount: u64,
}

/// The deposit queue: an append-only, bounded sequence of deposit
/// records, drained only in contiguous prefixes starting at index 0.
///
/// The two ghost fields record the queue's whole history — everything
/// ever appended and everything ever drained, each in order — so that
/// conservation of deposits can be stated and proved.
pub struct DepositMessagePDA {
    pub deposits: Vec<DepositMessageInfo>,
    pub appended: Ghost<Seq<DepositMessageInfo>>,
    pub drained: Ghost<Seq<DepositMessageInfo>>,
}

impl DepositMessagePDA {
    /// Validity of the queue: it never exceeds its capacity, and its
    /// history balances — what was appended is exactly what was
    /// drained followed by what is still queued.
    pub open spec fn well_formed(self) -> bool {
        &&& self.deposits@.len() <= MAX_QUEUE_SIZE
        &&& self.appended@ == self.drained@ + self.deposits@
    }

    /// Appends one record at the tail, refusing it if the queue is at
    /// capacity.
    pub fn append(&mut self, record: DepositMessageInfo) -> (r: Result<(), ErrorCode>)
        requires
            old(self).well_formed(),
        ensures
            final(self).well_formed(),
            old(self).deposits@.len() < MAX_QUEUE_SIZE ==> {
                &&& r == Ok::<(), ErrorCode>(())
                &&& final(self).deposits@ == old(self).deposits@.push(record)
                &&& final(self).appended@ == old(self).appended@.push(record)
                &&& final(self).drained@ == old(self).drained@
            },
            old(self).deposits@.len() >= MAX_QUEUE_SIZE ==> {
                &&& r == Err::<(), ErrorCode>(ErrorCode::CapacityExceeded)
                &&& *final(self) == *old(self)
            },
    {
        if self.deposits.len() >= MAX_QUEUE_SIZE {
            return Err(ErrorCode::CapacityExceeded);
        }
        self.deposits.push(record);
        proof {
            self.appended@ = self.appended@.push(record);
            assert(self.appended@ =~= self.drained@ + self.deposits@);
        }
        Ok(())
    }

    /// Removes and returns the first `count` records, refusing the call
    /// if fewer than `count` are queued. This is the sole removal path.
    pub fn drain_prefix(&mut self, count: u64) -> (r: Result<Vec<DepositMessageInfo>, ErrorCode>)
        requires
            old(self).well_formed(),
        ensures
            final(self).well_formed(),
            count > old(self).deposits@.len() ==> {
                &&& r == Err::<Vec<DepositMessageInfo>, ErrorCode>(ErrorCode::InsufficientDeposits)
                &&& *final(self) == *old(self)
            },
            count <= old(self).deposits@.len() ==> {
                &&& r is Ok
                &&& r->Ok_0@ == old(self).deposits@.subrange(0, count as int)
                &&& final(self).deposits@ == old(self).deposits@.subrange(
                    count as int,
                    old(self).deposits@.len() as int,
                )
                &&& final(self).appended@ == old(self).appended@
                &&& final(self).drained@ == old(self).drained@ + old(self).deposits@.subrange(
                    0,
                    count as int,
                )
            },
    {
        if count > self.deposits.len() as u64 {
            return Err(ErrorCode::InsufficientDeposits);
        }
        let at: usize = count as usize;
        let mut taken = self.deposits.split_off(at);
        core::mem::swap(&mut self.deposits, &mut taken);
        proof {
            self.drained@ = self.drained@ + taken@;
            assert(old(self).deposits@ =~= taken@ + self.deposits@);
            assert(self.appended@ =~= self.drained@ + self.deposits@);
        }
        Ok(taken)
    }
}

/// Creates the deposit queue, empty, with an empty history.
pub fn initialize_deposit_message_pda() -> (r: DepositMessagePDA)
    ensures
        r.well_formed(),
        r.deposits@ == Seq::<DepositMessageInfo>::empty(),
        r.appended@ == Seq::<DepositMessageInfo>::empty(),
        r.drained@ == Seq::<DepositMessageInfo>::empty(),
{
    let r = DepositMessagePDA {
        deposits: Vec::new(),
        appended: Ghost(Seq::empty()),
        drained: Ghost(Seq::empty()),
    };
    proof {
        assert(r.appended@ =~= r.drained@ + r.deposits@);
    }
    r
}

/// Entry point for a new deposit: appends it to the queue and, when
/// accepted, returns the notification for the external event sink.
/// Refused with `CapacityExceeded` exactly when the queue is full, in
/// which case nothing changes.
pub fn append_deposit_message(
    deposit_message_pda: &mut DepositMessagePDA,
    deposit_info: DepositMessageInfo,
) -> (r: Result<DepositSuccessful, ErrorCode>)
    requires
        old(deposit_message_pda).well_formed(),
    ensures
        final(deposit_message_pda).well_formed(),
        old(deposit_message_pda).deposits@.len() < MAX_QUEUE_SIZE ==> {
            &&& r == Ok::<DepositSuccessful, ErrorCode>(
                (DepositSuccessful {
                    from: deposit_info.from,
                    to: deposit_info.to,
                    amount: deposit_info.amount,
                }),
            )
            &&& final(deposit_message_pda).deposits@ == old(
                deposit_message_pda,
            ).deposits@.push(deposit_info)
            &&& final(deposit_message_pda).appended@ == old(
                deposit_message_pda,
            ).appended@.push(deposit_info)
            &&& final(deposit_message_pda).drained@ == old(deposit_message_pda).drained@
        },
        old(deposit_message_pda).deposits@.len() >= MAX_QUEUE_SIZE ==> {
            &&& r == Err::<DepositSuccessful, ErrorCode>(ErrorCode::CapacityExceeded)
            &&& *final(deposit_message_pda) == *old(deposit_message_pda)
        },
{
    match deposit_message_pda.append(deposit_info) {
        Ok(()) => Ok(
            DepositSuccessful {
                from: deposit_info.from,
                to: deposit_info.to,
                amount: deposit_info.amount,
            },
        ),
        Err(e) => Err(e),
    }
}

/// Conservation of deposits: in every well-formed queue the records
/// ever drained are exactly the oldest prefix of the records ever
/// appended, in their original order, so the number drained never
/// exceeds the number appended.
pub proof fn lemma_deposit_conservation(ledger: DepositMessagePDA)
    requires
        ledger.well_formed(),
    ensures
        ledger.drained@ + ledger.deposits@ == ledger.appended@,
        ledger.drained@.len() + ledger.deposits@.len() == ledger.appended@.len(),
        ledger.drained@.len() <= ledger.appended@.len(),
        ledger.drained@ == ledger.appended@.subrange(0, ledger.drained@.len() as int),
{
    assert(ledger.drained@ =~= ledger.appended@.subrange(0, ledger.drained@.len() as int));
}

} // verus!
