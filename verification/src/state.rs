//! Escrow Record: the persistent state describing one escrow's owner, plan,
//! balance commitment, and lifecycle status.

use vstd::prelude::*;

use crate::addr::Address;

verus! {

/// Lifecycle status of an escrow record.  `Created` is the only initial
/// state; `Released` and `Refunded` are terminal.
#[derive(Clone, Copy, Debug, PartialEq, Eq, Structural)]
pub enum EscrowStatus {
    Created,
    Funded,
    Released,
    Refunded,
}

/// Mathematical model of one escrow record, used by every contract.
pub struct RecordModel {
    pub owner: Seq<u8>,
    pub seed: u64,
    pub plan_id: u64,
    pub authority_bump: u8,
    pub status: EscrowStatus,
    pub committed_balance: u64,
}

/// One escrow record, stored at its derived address.
#[derive(Debug)]
pub struct EscrowRecord {
    /// Identity of the payer who created the escrow; immutable after creation.
    pub owner: Address,
    /// Caller-supplied value used in address derivation; immutable.
    pub seed: u64,
    /// Identifier of the externally defined payment plan; immutable.
    pub plan_id: u64,
    /// The derivation bump that lets the engine sign for the escrow address;
    /// immutable, re-derived and checked on every operation.
    pub authority_bump: u8,
    /// Mutated only by the lifecycle operations.
    pub status: EscrowStatus,
    /// The amount of value the record asserts is held at the custody address.
    pub committed_balance: u64,
}

impl View for EscrowRecord {
    type V = RecordModel;

    open spec fn view(&self) -> RecordModel {
        RecordModel {
            owner: self.owner@,
            seed: self.seed,
            plan_id: self.plan_id,
            authority_bump: self.authority_bump,
            status: self.status,
            committed_balance: self.committed_balance,
        }
    }
}

/// Well-formedness of a record: the owner identity is a 32-byte address, and
/// the committed balance agrees with the lifecycle status (zero outside
/// `Funded`, positive in `Funded`).
pub open spec fn record_wf(m: RecordModel) -> bool {
    &&& m.owner.len() == 32
    &&& (match m.status {
        EscrowStatus::Created => m.committed_balance == 0,
        EscrowStatus::Funded => m.committed_balance > 0,
        EscrowStatus::Released => m.committed_balance == 0,
        EscrowStatus::Refunded => m.committed_balance == 0,
    })
}

impl EscrowRecord {
    pub open spec fn wf(&self) -> bool {
        record_wf(self@)
    }
}

} // verus!
