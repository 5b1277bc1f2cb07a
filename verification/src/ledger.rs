//! Custody Ledger: moves value between account balances, all or nothing.

use vstd::prelude::*;

use crate::error::EscrowError;

verus! {

/// Moves exactly `amount` from one balance to the other.  Fails with
/// `InsufficientFunds`, and moves nothing, when the paying balance holds less
/// than `amount`; there is no partial transfer and no other side effect.
pub fn transfer(from_balance: &mut u64, to_balance: &mut u64, amount: u64) -> (r: Result<
    (),
    EscrowError,
>)
    requires
        *old(to_balance) + amount <= u64::MAX,
    ensures
        *old(from_balance) >= amount ==> {
            &&& r is Ok
            &&& *final(from_balance) == *old(from_balance) - amount
            &&& *final(to_balance) == *old(to_balance) + amount
        },
        *old(from_balance) < amount ==> {
            &&& r == Err::<(), EscrowError>(EscrowError::InsufficientFunds)
            &&& *final(from_balance) == *old(from_balance)
            &&& *final(to_balance) == *old(to_balance)
        },
{
    if *from_balance < amount {
        return Err(EscrowError::InsufficientFunds);
    }
    *from_balance = *from_balance - amount;
    *to_balance = *to_balance + amount;
    Ok(())
}

} // verus!
