use vstd::prelude::*;

verus! {

/// The discriminated failure kinds of the engine.  Every operation either
/// commits in full or returns one of these with no state mutated.
#[derive(Clone, Copy, Debug, PartialEq, Eq, Structural)]
pub enum EscrowError {
    /// No valid authority bump exists within the derivation search range.
    DerivationExhausted,
    /// A stored record does not re-derive to the storage address it sits at,
    /// or its stored bump disagrees with the current derivation.
    InvalidEscrowAddress,
    /// The derived address already holds an initialized record.
    EscrowAlreadyExists,
    /// The record's lifecycle status does not admit the requested transition.
    InvalidStatus,
    /// The caller is not entitled to trigger the requested transition.
    Unauthorized,
    /// A funding amount of zero was supplied.
    InvalidAmount,
    /// The paying account holds less than the requested amount.
    InsufficientFunds,
}

} // verus!
