use vstd::prelude::*;

verus! {

/// An event emitted by a successful ledger operation.
#[derive(Debug, Clone, Copy, PartialEq, Eq)]
pub enum Erc20Event<A> {
    /// Tokens moved; `from` is `None` for the initial mint.
    Transfer { from: Option<A>, to: Option<A>, value: u128 },
    /// `owner` allowed `spender` to move up to `value` of its tokens.
    Approval { owner: A, spender: A, value: u128 },
}

/// Event emitted when the owner of a guarded service changes.
#[derive(Debug, Clone, Copy, PartialEq, Eq)]
pub struct OwnershipTransferred<A> {
    /// The owner before the change.
    pub previous_owner: Option<A>,
    /// The owner after the change; `None` once ownership is renounced.
    pub new_owner: Option<A>,
}

} // verus!
