//! Lifecycle Controller: validates the preconditions of each transition and
//! mutates the escrow record atomically with the custody ledger action.
//!
//! `Created -> Funded -> {Released | Refunded}`.  `Created` is entered only
//! through `make_escrow`; `Released` and `Refunded` are terminal.  Each
//! operation's outcome is stated by a step function over `OpState`, so that
//! the laws relating several operations can be proved from the same
//! definitions the contracts use.

use vstd::prelude::*;

use crate::addr::{address_eq, derive_escrow_address, escrow_seeds, pda_of, program_id, Address};
use crate::error::EscrowError;
use crate::ledger::transfer;
use crate::state::{record_wf, EscrowRecord, EscrowStatus, RecordModel};

verus! {

/// The state one operation may touch: the escrow record, the balance held at
/// the escrow's custody address, and the balance of the one counterparty of
/// the operation (the funding caller, the payee, or the refunded owner).
pub struct OpState {
    pub record: RecordModel,
    pub escrow_balance: u64,
    pub other_balance: u64,
}

/// Custody invariant and record well-formedness together: the record is
/// well-formed and its committed balance equals the balance actually held at
/// the custody address.
pub open spec fn state_wf(s: OpState) -> bool {
    &&& record_wf(s.record)
    &&& s.escrow_balance == s.record.committed_balance
}

/// A stored record is valid at a storage address when re-deriving from the
/// record's own fields yields exactly that address and the stored bump.
pub open spec fn spec_validate(m: RecordModel, storage: Seq<u8>) -> bool {
    pda_of(escrow_seeds(m.owner, m.seed, m.plan_id), program_id()) == Some(
        (storage, m.authority_bump),
    )
}

/// Outcome of creation: the fresh record, its derived address and bump.
pub open spec fn create_step(owner: Seq<u8>, seed: u64, plan_id: u64, address_in_use: bool)
    -> Result<(RecordModel, Seq<u8>, u8), EscrowError> {
    match pda_of(escrow_seeds(owner, seed, plan_id), program_id()) {
        Some(p) => if address_in_use {
            Err(EscrowError::EscrowAlreadyExists)
        } else {
            Ok(
                (
                    RecordModel {
                        owner,
                        seed,
                        plan_id,
                        authority_bump: p.1,
                        status: EscrowStatus::Created,
                        committed_balance: 0,
                    },
                    p.0,
                    p.1,
                ),
            )
        },
        None => Err(EscrowError::DerivationExhausted),
    }
}

/// Outcome of funding: the state after the operation and its result.  On any
/// failure the state is returned unchanged.
pub open spec fn fund_step(pre: OpState, storage: Seq<u8>, caller: Seq<u8>, amount: u64) -> (
    OpState,
    Result<EscrowStatus, EscrowError>,
) {
    if !spec_validate(pre.record, storage) {
        (pre, Err(EscrowError::InvalidEscrowAddress))
    } else if pre.record.status != EscrowStatus::Created {
        (pre, Err(EscrowError::InvalidStatus))
    } else if caller != pre.record.owner {
        (pre, Err(EscrowError::Unauthorized))
    } else if amount == 0 {
        (pre, Err(EscrowError::InvalidAmount))
    } else if pre.other_balance < amount {
        (pre, Err(EscrowError::InsufficientFunds))
    } else {
        (
            OpState {
                record: RecordModel {
                    status: EscrowStatus::Funded,
                    committed_balance: (pre.record.committed_balance + amount) as u64,
                    ..pre.record
                },
                escrow_balance: (pre.escrow_balance + amount) as u64,
                other_balance: (pre.other_balance - amount) as u64,
            },
            Ok(EscrowStatus::Funded),
        )
    }
}

/// Outcome of release: pays the full committed balance to the counterparty
/// and ends in `Released`.  On any failure the state is returned unchanged.
pub open spec fn release_step(pre: OpState, storage: Seq<u8>, authorized: bool) -> (
    OpState,
    Result<EscrowStatus, EscrowError>,
) {
    if !spec_validate(pre.record, storage) {
        (pre, Err(EscrowError::InvalidEscrowAddress))
    } else if pre.record.status != EscrowStatus::Funded {
        (pre, Err(EscrowError::InvalidStatus))
    } else if !authorized {
        (pre, Err(EscrowError::Unauthorized))
    } else {
        (
            OpState {
                record: RecordModel {
                    status: EscrowStatus::Released,
                    committed_balance: 0,
                    ..pre.record
                },
                escrow_balance: (pre.escrow_balance - pre.record.committed_balance) as u64,
                other_balance: (pre.other_balance + pre.record.committed_balance) as u64,
            },
            Ok(EscrowStatus::Released),
        )
    }
}

/// Outcome of refund: the mirror of release, returning the committed balance
/// to the owner and ending in `Refunded`.
pub open spec fn refund_step(pre: OpState, storage: Seq<u8>, authorized: bool) -> (
    OpState,
    Result<EscrowStatus, EscrowError>,
) {
    if !spec_validate(pre.record, storage) {
        (pre, Err(EscrowError::InvalidEscrowAddress))
    } else if pre.record.status != EscrowStatus::Funded {
        (pre, Err(EscrowError::InvalidStatus))
    } else if !authorized {
        (pre, Err(EscrowError::Unauthorized))
    } else {
        (
            OpState {
                record: RecordModel {
                    status: EscrowStatus::Refunded,
                    committed_balance: 0,
                    ..pre.record
                },
                escrow_balance: (pre.escrow_balance - pre.record.committed_balance) as u64,
                other_balance: (pre.other_balance + pre.record.committed_balance) as u64,
            },
            Ok(EscrowStatus::Refunded),
        )
    }
}

/// Creates an escrow record for `(owner, seed, plan_id)`.  `address_in_use`
/// is the platform's answer to whether the derived address already holds an
/// initialized record.  On success the record starts in `Created` with a
/// committed balance of zero, and carries the derived authority bump.
pub fn make_escrow(owner: &Address, seed: u64, plan_id: u64, address_in_use: bool) -> (r: Result<
    (EscrowRecord, Address, u8),
    EscrowError,
>)
    requires
        owner.wf(),
    ensures
        (match (r, create_step(owner@, seed, plan_id, address_in_use)) {
            (Ok(got), Ok(want)) => {
                &&& got.0@ == want.0
                &&& got.1@ == want.1
                &&& got.2 == want.2
                &&& got.0.wf()
            },
            (Err(e), Err(want_e)) => e == want_e,
            _ => false,
        }),
{
    match derive_escrow_address(owner, seed, plan_id) {
        Err(e) => Err(e),
        Ok((escrow_address, authority_bump)) => {
            if address_in_use {
                return Err(EscrowError::EscrowAlreadyExists);
            }
            let record = EscrowRecord {
                owner: owner.clone(),
                seed,
                plan_id,
                authority_bump,
                status: EscrowStatus::Created,
                committed_balance: 0,
            };
            Ok((record, escrow_address, authority_bump))
        },
    }
}

/// Validates a stored record against the storage address being accessed:
/// re-derives the address from the record's own fields and compares both the
/// address and the stored authority bump against the current derivation.
pub fn validate_escrow_record(record: &EscrowRecord, storage_address: &Address) -> (r: Result<
    (),
    EscrowError,
>)
    ensures
        spec_validate(record@, storage_address@) ==> r is Ok,
        !spec_validate(record@, storage_address@) ==> r == Err::<(), EscrowError>(
            EscrowError::InvalidEscrowAddress,
        ),
{
    match derive_escrow_address(&record.owner, record.seed, record.plan_id) {
        Err(_) => Err(EscrowError::InvalidEscrowAddress),
        Ok((derived, bump)) => {
            if address_eq(&derived, storage_address) && bump == record.authority_bump {
                Ok(())
            } else {
                Err(EscrowError::InvalidEscrowAddress)
            }
        },
    }
}

/// Funds a `Created` escrow: transfers `amount` from the caller's balance to
/// the custody address and commits it on the record, which moves to `Funded`.
/// Only the owner may fund, and only with a positive amount.  On any failure
/// neither the record nor either balance is changed.
pub fn fund(
    record: &mut EscrowRecord,
    storage_address: &Address,
    caller: &Address,
    amount: u64,
    caller_balance: &mut u64,
    escrow_balance: &mut u64,
) -> (r: Result<EscrowStatus, EscrowError>)
    requires
        old(record).wf(),
        old(record)@.committed_balance == *old(escrow_balance),
    ensures
        ({
            let pre = OpState {
                record: old(record)@,
                escrow_balance: *old(escrow_balance),
                other_balance: *old(caller_balance),
            };
            let stepped = fund_step(pre, storage_address@, caller@, amount);
            &&& final(record)@ == stepped.0.record
            &&& *final(escrow_balance) == stepped.0.escrow_balance
            &&& *final(caller_balance) == stepped.0.other_balance
            &&& r == stepped.1
        }),
        final(record).wf(),
        final(record)@.committed_balance == *final(escrow_balance),
{
    match validate_escrow_record(record, storage_address) {
        Err(e) => {
            return Err(e);
        },
        Ok(()) => {},
    }
    if !matches!(record.status, EscrowStatus::Created) {
        return Err(EscrowError::InvalidStatus);
    }
    if !address_eq(caller, &record.owner) {
        return Err(EscrowError::Unauthorized);
    }
    if amount == 0 {
        return Err(EscrowError::InvalidAmount);
    }
    match transfer(caller_balance, escrow_balance, amount) {
        Err(e) => Err(e),
        Ok(()) => {
            record.committed_balance = record.committed_balance + amount;
            record.status = EscrowStatus::Funded;
            Ok(EscrowStatus::Funded)
        },
    }
}

/// Releases a `Funded` escrow: pays the full committed balance from the
/// custody address to the payee, zeroes the commitment, and moves to the
/// terminal `Released`.  `authorized` is the plan collaborator's answer to
/// whether the caller may release.  The custody invariant guarantees the
/// ledger transfer cannot lack funds.  On any failure nothing is changed.
pub fn release(
    record: &mut EscrowRecord,
    storage_address: &Address,
    authorized: bool,
    escrow_balance: &mut u64,
    payee_balance: &mut u64,
) -> (r: Result<EscrowStatus, EscrowError>)
    requires
        old(record).wf(),
        old(record)@.committed_balance == *old(escrow_balance),
        *old(payee_balance) + old(record)@.committed_balance <= u64::MAX,
    ensures
        ({
            let pre = OpState {
                record: old(record)@,
                escrow_balance: *old(escrow_balance),
                other_balance: *old(payee_balance),
            };
            let stepped = release_step(pre, storage_address@, authorized);
            &&& final(record)@ == stepped.0.record
            &&& *final(escrow_balance) == stepped.0.escrow_balance
            &&& *final(payee_balance) == stepped.0.other_balance
            &&& r == stepped.1
        }),
        final(record).wf(),
        final(record)@.committed_balance == *final(escrow_balance),
{
    match validate_escrow_record(record, storage_address) {
        Err(e) => {
            return Err(e);
        },
        Ok(()) => {},
    }
    if !matches!(record.status, EscrowStatus::Funded) {
        return Err(EscrowError::InvalidStatus);
    }
    if !authorized {
        return Err(EscrowError::Unauthorized);
    }
    match transfer(escrow_balance, payee_balance, record.committed_balance) {
        Err(e) => Err(e),
        Ok(()) => {
            record.committed_balance = 0;
            record.status = EscrowStatus::Released;
            Ok(EscrowStatus::Released)
        },
    }
}

/// Refunds a `Funded` escrow: the mirror of `release`, returning the full
/// committed balance from the custody address to the owner, and ending in the
/// terminal `Refunded`.  On any failure nothing is changed.
pub fn refund(
    record: &mut EscrowRecord,
    storage_address: &Address,
    authorized: bool,
    escrow_balance: &mut u64,
    owner_balance: &mut u64,
) -> (r: Result<EscrowStatus, EscrowError>)
    requires
        old(record).wf(),
        old(record)@.committed_balance == *old(escrow_balance),
        *old(owner_balance) + old(record)@.committed_balance <= u64::MAX,
    ensures
        ({
            let pre = OpState {
                record: old(record)@,
                escrow_balance: *old(escrow_balance),
                other_balance: *old(owner_balance),
            };
            let stepped = refund_step(pre, storage_address@, authorized);
            &&& final(record)@ == stepped.0.record
            &&& *final(escrow_balance) == stepped.0.escrow_balance
            &&& *final(owner_balance) == stepped.0.other_balance
            &&& r == stepped.1
        }),
        final(record).wf(),
        final(record)@.committed_balance == *final(escrow_balance),
{
    match validate_escrow_record(record, storage_address) {
        Err(e) => {
            return Err(e);
        },
        Ok(()) => {},
    }
    if !matches!(record.status, EscrowStatus::Funded) {
        return Err(EscrowError::InvalidStatus);
    }
    if !authorized {
        return Err(EscrowError::Unauthorized);
    }
    match transfer(escrow_balance, owner_balance, record.committed_balance) {
        Err(e) => Err(e),
        Ok(()) => {
            record.committed_balance = 0;
            record.status = EscrowStatus::Refunded;
            Ok(EscrowStatus::Refunded)
        },
    }
}

} // verus!
