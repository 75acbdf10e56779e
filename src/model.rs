//! The observable state of a token ledger and what each operation does to it.
use vstd::prelude::*;
use crate::error::Error;
use crate::events::Erc20Event;

verus! {

/// A ledger operation as it arrives, without its caller.
#[derive(Debug, Clone, Copy, PartialEq, Eq)]
pub enum Erc20Message<A> {
    Transfer { to: A, value: u128 },
    Approve { spender: A, value: u128 },
    TransferFrom { from: A, to: A, value: u128 },
}

/// Balances, allowances, total supply and the events emitted so far. Absent
/// entries of the two maps stand for 0.
#[verifier::reject_recursive_types(A)]
pub struct Erc20Model<A> {
    pub balances: Map<A, u128>,
    pub allowances: Map<(A, A), u128>,
    pub total_supply: u128,
    pub events: Seq<Erc20Event<A>>,
}

impl<A> Erc20Model<A> {
    /// A ledger with no entries, no supply and no events.
    pub open spec fn empty() -> Self {
        Erc20Model {
            balances: Map::empty(),
            allowances: Map::empty(),
            total_supply: 0,
            events: Seq::empty(),
        }
    }

    /// The balance of `owner`.
    pub open spec fn balance_of(self, owner: A) -> u128 {
        if self.balances.contains_key(owner) {
            self.balances[owner]
        } else {
            0
        }
    }

    /// What `spender` may still move of `owner`'s tokens.
    pub open spec fn allowance(self, owner: A, spender: A) -> u128 {
        if self.allowances.contains_key((owner, spender)) {
            self.allowances[(owner, spender)]
        } else {
            0
        }
    }

    /// The same ledger with one balance overwritten.
    pub open spec fn with_balance(self, owner: A, value: u128) -> Self {
        Erc20Model { balances: self.balances.insert(owner, value), ..self }
    }

    /// The same ledger with one allowance overwritten.
    pub open spec fn with_allowance(self, owner: A, spender: A, value: u128) -> Self {
        Erc20Model { allowances: self.allowances.insert((owner, spender), value), ..self }
    }

    /// The same ledger with the total supply overwritten.
    pub open spec fn with_total_supply(self, value: u128) -> Self {
        Erc20Model { total_supply: value, ..self }
    }

    /// The same ledger with one more event.
    pub open spec fn with_event(self, event: Erc20Event<A>) -> Self {
        Erc20Model { events: self.events.push(event), ..self }
    }

    /// The initial mint: the whole supply is credited to `creator`.
    pub open spec fn mint(self, creator: A, initial_supply: u128) -> Self {
        self.with_total_supply(initial_supply).with_balance(creator, initial_supply).with_event(
            Erc20Event::Transfer { from: None, to: Some(creator), value: initial_supply },
        )
    }

    /// Moves `value` from `from` to `to`: refused when `from` holds less than
    /// `value`, or when the credit would overflow; on success one `Transfer`
    /// event is emitted. A refusal leaves the ledger as it was.
    pub open spec fn transfer(self, from: A, to: A, value: u128) -> (Self, Result<(), Error>) {
        let from_balance = self.balance_of(from);
        if from_balance < value {
            (self, Err(Error::InsufficientBalance))
        } else {
            let debited = self.with_balance(from, (from_balance - value) as u128);
            let to_balance = debited.balance_of(to);
            if to_balance + value > u128::MAX {
                (self, Err(Error::Overflow))
            } else {
                (
                    debited.with_balance(to, (to_balance + value) as u128).with_event(
                        Erc20Event::Transfer { from: Some(from), to: Some(to), value },
                    ),
                    Ok(()),
                )
            }
        }
    }

    /// Sets the allowance of `spender` over `owner`'s tokens to `value`,
    /// whatever it was, and emits one `Approval` event.
    pub open spec fn approve(self, owner: A, spender: A, value: u128) -> Self {
        self.with_allowance(owner, spender, value).with_event(
            Erc20Event::Approval { owner, spender, value },
        )
    }

    /// `caller` moves `value` of `from`'s tokens to `to`: refused first when the
    /// allowance of `caller` over `from` is below `value`, then as `transfer`
    /// refuses; on success the allowance drops by exactly `value`.
    pub open spec fn transfer_from(self, caller: A, from: A, to: A, value: u128) -> (
        Self,
        Result<(), Error>,
    ) {
        let allowance = self.allowance(from, caller);
        if allowance < value {
            (self, Err(Error::InsufficientAllowance))
        } else {
            let (moved, r) = self.transfer(from, to, value);
            if r is Err {
                (self, r)
            } else {
                (moved.with_allowance(from, caller, (allowance - value) as u128), Ok(()))
            }
        }
    }

    /// The effect of one message sent by `caller`.
    pub open spec fn step(self, caller: A, message: Erc20Message<A>) -> (Self, Result<(), Error>) {
        match message {
            Erc20Message::Transfer { to, value } => self.transfer(caller, to, value),
            Erc20Message::Approve { spender, value } => (
                self.approve(caller, spender, value),
                Ok(()),
            ),
            Erc20Message::TransferFrom { from, to, value } => self.transfer_from(
                caller,
                from,
                to,
                value,
            ),
        }
    }

    /// The ledger after a sequence of (caller, message) calls, with the result
    /// of each call.
    pub open spec fn replay(self, calls: Seq<(A, Erc20Message<A>)>) -> (
        Self,
        Seq<Result<(), Error>>,
    )
        decreases calls.len(),
    {
        if calls.len() == 0 {
            (self, Seq::empty())
        } else {
            let (before, results) = self.replay(calls.drop_last());
            let (after, r) = before.step(calls.last().0, calls.last().1);
            (after, results.push(r))
        }
    }
}

} // verus!
