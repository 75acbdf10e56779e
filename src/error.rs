use vstd::prelude::*;

verus! {

/// Why a ledger or ownership operation was refused. A refused operation
/// changes no state and emits no event.
#[derive(Debug, Clone, Copy, PartialEq, Eq, Structural)]
pub enum Error {
    /// The account to be debited holds less than the requested amount.
    InsufficientBalance,
    /// The spender's allowance is below the requested amount.
    InsufficientAllowance,
    /// The caller is not the current owner (or ownership was renounced).
    NotOwner,
    /// Crediting the receiving account would leave the amount domain.
    Overflow,
}

} // verus!
