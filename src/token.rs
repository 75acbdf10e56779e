//! The operations a token service exposes to its callers, on the in-memory
//! store. Each takes the caller from the call's environment.
use vstd::prelude::*;
use crate::account::AccountId;
use crate::engine::{supply_holds, Erc20Impl};
use crate::env::EnvAccess;
use crate::error::Error;
use crate::model::{Erc20Message, Erc20Model};
use crate::storage::{Erc20, Erc20Storage};

verus! {

impl<A: AccountId> Erc20<A> {
    /// Creates the token and mints `initial_supply` to the caller.
    pub fn new<E: EnvAccess<A>>(env: &E, initial_supply: u128) -> (r: Self)
        ensures
            r.ledger() == Erc20Model::<A>::empty().mint(env.current_caller(), initial_supply),
            supply_holds(&r),
    {
        let mut r = Erc20::empty();
        r.new_impl(env.caller(), initial_supply);
        r
    }

    /// The caller sends `value` of its tokens to `to`.
    pub fn transfer<E: EnvAccess<A>>(&mut self, env: &E, to: A, value: u128) -> (r: Result<
        (),
        Error,
    >)
        requires
            supply_holds(old(self)),
        ensures
            (final(self).ledger(), r) == old(self).ledger().transfer(
                env.current_caller(),
                to,
                value,
            ),
            supply_holds(final(self)),
    {
        self.transfer_impl(env.caller(), to, value)
    }

    /// The caller allows `spender` to move up to `value` of its tokens.
    pub fn approve<E: EnvAccess<A>>(&mut self, env: &E, spender: A, value: u128) -> (r: Result<
        (),
        Error,
    >)
        requires
            supply_holds(old(self)),
        ensures
            r == Ok::<(), Error>(()),
            final(self).ledger() == old(self).ledger().approve(
                env.current_caller(),
                spender,
                value,
            ),
            supply_holds(final(self)),
    {
        self.approve_impl(env.caller(), spender, value)
    }

    /// The caller moves `value` of `from`'s tokens to `to` out of its
    /// allowance.
    pub fn transfer_from<E: EnvAccess<A>>(&mut self, env: &E, from: A, to: A, value: u128) -> (r:
        Result<(), Error>)
        requires
            supply_holds(old(self)),
        ensures
            (final(self).ledger(), r) == old(self).ledger().transfer_from(
                env.current_caller(),
                from,
                to,
                value,
            ),
            supply_holds(final(self)),
    {
        self.transfer_from_impl(env.caller(), from, to, value)
    }

    /// Runs one message of the caller.
    pub fn call<E: EnvAccess<A>>(&mut self, env: &E, message: Erc20Message<A>) -> (r: Result<
        (),
        Error,
    >)
        requires
            supply_holds(old(self)),
        ensures
            (final(self).ledger(), r) == old(self).ledger().step(env.current_caller(), message),
            supply_holds(final(self)),
    {
        self.dispatch(env.caller(), message)
    }

    /// The balance of `owner`.
    pub fn balance_of(&self, owner: A) -> (r: u128)
        requires
            self.well_formed(),
        ensures
            r == self.ledger().balance_of(owner),
    {
        self.get_balance(owner)
    }

    /// What `spender` may still move of `owner`'s tokens.
    pub fn allowance(&self, owner: A, spender: A) -> (r: u128)
        requires
            self.well_formed(),
        ensures
            r == self.ledger().allowance(owner, spender),
    {
        self.get_allowance(owner, spender)
    }

    /// The total supply, fixed at creation.
    pub fn total_supply(&self) -> (r: u128)
        requires
            self.well_formed(),
        ensures
            r == self.ledger().total_supply,
    {
        self.get_total_supply()
    }
}

} // verus!
