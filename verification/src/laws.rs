//! The general properties of the lifecycle, proved from the same step
//! functions that the operations' contracts are stated over.

use vstd::prelude::*;

use crate::error::EscrowError;
use crate::lifecycle::{
    create_step, fund_step, refund_step, release_step, spec_validate, state_wf, OpState,
};
use crate::state::{record_wf, EscrowStatus};

verus! {

/// Derivation determinism: a record produced by creation re-derives, from its
/// own stored fields, to exactly the address and bump it was created with, so
/// validation of the fresh record at its address succeeds.
pub proof fn lemma_create_then_revalidate(owner: Seq<u8>, seed: u64, plan_id: u64)
    requires
        create_step(owner, seed, plan_id, false) is Ok,
    ensures
        ({
            let fresh = create_step(owner, seed, plan_id, false)->Ok_0;
            &&& spec_validate(fresh.0, fresh.1)
            &&& fresh.0.authority_bump == fresh.2
        }),
{
}

/// A record produced by creation is well-formed, starts in `Created`, and
/// commits nothing, so it satisfies the custody invariant at a custody
/// balance of zero.
pub proof fn lemma_create_establishes_invariant(owner: Seq<u8>, seed: u64, plan_id: u64)
    requires
        create_step(owner, seed, plan_id, false) is Ok,
        owner.len() == 32,
    ensures
        ({
            let fresh = create_step(owner, seed, plan_id, false)->Ok_0;
            &&& record_wf(fresh.0)
            &&& fresh.0.status == EscrowStatus::Created
            &&& fresh.0.committed_balance == 0
            &&& state_wf(OpState { record: fresh.0, escrow_balance: 0, other_balance: 0 })
        }),
{
}

/// Funding commits exactly what was transferred: when it succeeds on a
/// well-formed state, the record commits exactly `amount`, the custody
/// address holds exactly `amount`, and the record is `Funded`; and whatever
/// the outcome, well-formedness and the custody invariant are preserved.
pub proof fn lemma_fund_commits_exactly(
    pre: OpState,
    storage: Seq<u8>,
    caller: Seq<u8>,
    amount: u64,
)
    requires
        state_wf(pre),
    ensures
        ({
            let stepped = fund_step(pre, storage, caller, amount);
            &&& stepped.1 is Ok ==> {
                &&& stepped.0.record.committed_balance == amount
                &&& stepped.0.escrow_balance == amount
                &&& stepped.0.record.status == EscrowStatus::Funded
                &&& stepped.0.other_balance == pre.other_balance - amount
            }
            &&& state_wf(stepped.0)
        }),
{
}

/// Funding is owed success exactly on a valid, `Created`, owner-called,
/// positive, covered request; each failure kind comes on exactly the stated
/// inputs, and any failure leaves the state untouched.
pub proof fn lemma_fund_success_iff(pre: OpState, storage: Seq<u8>, caller: Seq<u8>, amount: u64)
    ensures
        ({
            let stepped = fund_step(pre, storage, caller, amount);
            &&& stepped.1 is Ok <==> {
                &&& spec_validate(pre.record, storage)
                &&& pre.record.status == EscrowStatus::Created
                &&& caller == pre.record.owner
                &&& amount > 0
                &&& pre.other_balance >= amount
            }
            &&& stepped.1 is Err ==> stepped.0 == pre
        }),
{
}

/// Funding anything but a `Created` escrow fails with `InvalidStatus` and
/// changes neither the record nor any balance.
pub proof fn lemma_fund_wrong_status(pre: OpState, storage: Seq<u8>, caller: Seq<u8>, amount: u64)
    requires
        spec_validate(pre.record, storage),
        pre.record.status != EscrowStatus::Created,
    ensures
        fund_step(pre, storage, caller, amount).0 == pre,
        fund_step(pre, storage, caller, amount).1 == Err::<EscrowStatus, EscrowError>(
            EscrowError::InvalidStatus,
        ),
{
}

/// Release pays out exactly the committed balance: on success the
/// counterparty gains exactly what the record committed, the custody address
/// and the commitment drop to zero, and the record is terminally `Released`;
/// and whatever the outcome, well-formedness and the custody invariant are
/// preserved.
pub proof fn lemma_release_pays_exactly(pre: OpState, storage: Seq<u8>, authorized: bool)
    requires
        state_wf(pre),
        pre.other_balance + pre.record.committed_balance <= u64::MAX,
    ensures
        ({
            let stepped = release_step(pre, storage, authorized);
            &&& stepped.1 is Ok <==> {
                &&& spec_validate(pre.record, storage)
                &&& pre.record.status == EscrowStatus::Funded
                &&& authorized
            }
            &&& stepped.1 is Ok ==> {
                &&& stepped.0.other_balance == pre.other_balance + pre.record.committed_balance
                &&& stepped.0.escrow_balance == 0
                &&& stepped.0.record.committed_balance == 0
                &&& stepped.0.record.status == EscrowStatus::Released
            }
            &&& stepped.1 is Err ==> stepped.0 == pre
            &&& state_wf(stepped.0)
        }),
{
}

/// A release can succeed at most once: after a successful release, a second
/// release of the same escrow fails with `InvalidStatus` and moves nothing,
/// so the payee is credited the committed balance exactly once.
pub proof fn lemma_release_not_repeatable(
    pre: OpState,
    storage: Seq<u8>,
    authorized_first: bool,
    authorized_second: bool,
)
    requires
        state_wf(pre),
        release_step(pre, storage, authorized_first).1 is Ok,
    ensures
        ({
            let mid = release_step(pre, storage, authorized_first).0;
            &&& release_step(mid, storage, authorized_second).0 == mid
            &&& release_step(mid, storage, authorized_second).1 == Err::<
                EscrowStatus,
                EscrowError,
            >(EscrowError::InvalidStatus)
        }),
{
}

/// Refund is the mirror of release: from the same state it succeeds on
/// exactly the same requests, moves exactly the same value to its
/// counterparty (the owner, where release pays the payee), and differs in
/// the resulting record only by ending in `Refunded` instead of `Released`.
pub proof fn lemma_refund_mirrors_release(pre: OpState, storage: Seq<u8>, authorized: bool)
    ensures
        ({
            let rel = release_step(pre, storage, authorized);
            let ref_ = refund_step(pre, storage, authorized);
            &&& (rel.1 is Ok <==> ref_.1 is Ok)
            &&& rel.1 is Err ==> rel.1 == ref_.1
            &&& rel.0.escrow_balance == ref_.0.escrow_balance
            &&& rel.0.other_balance == ref_.0.other_balance
            &&& rel.0.record.committed_balance == ref_.0.record.committed_balance
            &&& rel.0.record.owner == ref_.0.record.owner
            &&& rel.0.record.seed == ref_.0.record.seed
            &&& rel.0.record.plan_id == ref_.0.record.plan_id
            &&& rel.0.record.authority_bump == ref_.0.record.authority_bump
            &&& rel.1 is Ok ==> rel.0.record.status == EscrowStatus::Released
                && ref_.0.record.status == EscrowStatus::Refunded
        }),
{
}

/// Terminal states are final: once a record is `Released` or `Refunded`, no
/// operation succeeds and none changes anything.
pub proof fn lemma_terminal_is_final(
    pre: OpState,
    storage: Seq<u8>,
    caller: Seq<u8>,
    amount: u64,
    authorized: bool,
)
    requires
        pre.record.status == EscrowStatus::Released || pre.record.status == EscrowStatus::Refunded,
    ensures
        fund_step(pre, storage, caller, amount).0 == pre,
        fund_step(pre, storage, caller, amount).1 is Err,
        release_step(pre, storage, authorized).0 == pre,
        release_step(pre, storage, authorized).1 is Err,
        refund_step(pre, storage, authorized).0 == pre,
        refund_step(pre, storage, authorized).1 is Err,
{
}

/// Status transitions follow the allowed graph and nothing else: funding
/// moves `Created` to `Funded`, release and refund move `Funded` to their
/// terminal state, and every other outcome leaves the status where it was.
pub proof fn lemma_status_graph(
    pre: OpState,
    storage: Seq<u8>,
    caller: Seq<u8>,
    amount: u64,
    authorized: bool,
)
    ensures
        ({
            let funded = fund_step(pre, storage, caller, amount);
            funded.0.record.status == pre.record.status || (funded.1 is Ok
                && pre.record.status == EscrowStatus::Created && funded.0.record.status
                == EscrowStatus::Funded)
        }),
        ({
            let released = release_step(pre, storage, authorized);
            released.0.record.status == pre.record.status || (released.1 is Ok
                && pre.record.status == EscrowStatus::Funded && released.0.record.status
                == EscrowStatus::Released)
        }),
        ({
            let refunded = refund_step(pre, storage, authorized);
            refunded.0.record.status == pre.record.status || (refunded.1 is Ok
                && pre.record.status == EscrowStatus::Funded && refunded.0.record.status
                == EscrowStatus::Refunded)
        }),
{
}

/// The identity fields of a record - owner, seed, plan identifier and
/// authority bump - are immutable: no lifecycle step changes them.
pub proof fn lemma_identity_immutable(
    pre: OpState,
    storage: Seq<u8>,
    caller: Seq<u8>,
    amount: u64,
    authorized: bool,
)
    ensures
        ({
            let after_fund = fund_step(pre, storage, caller, amount).0.record;
            let after_release = release_step(pre, storage, authorized).0.record;
            let after_refund = refund_step(pre, storage, authorized).0.record;
            &&& after_fund.owner == pre.record.owner
            &&& after_fund.seed == pre.record.seed
            &&& after_fund.plan_id == pre.record.plan_id
            &&& after_fund.authority_bump == pre.record.authority_bump
            &&& after_release.owner == pre.record.owner
            &&& after_release.seed == pre.record.seed
            &&& after_release.plan_id == pre.record.plan_id
            &&& after_release.authority_bump == pre.record.authority_bump
            &&& after_refund.owner == pre.record.owner
            &&& after_refund.seed == pre.record.seed
            &&& after_refund.plan_id == pre.record.plan_id
            &&& after_refund.authority_bump == pre.record.authority_bump
        }),
{
}

} // verus!
