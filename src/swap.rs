//! A service that keeps a flag and the account of a token it reads balances
//! from.
use vstd::prelude::*;
use crate::account::AccountId;
use crate::storage::Erc20Storage;

verus! {

pub struct ERC20Swap<A> {
    value: bool,
    token_account_id: A,
}

impl<A: AccountId> ERC20Swap<A> {
    /// The flag.
    pub closed spec fn flag(&self) -> bool {
        self.value
    }

    /// The account of the token.
    pub closed spec fn token(&self) -> A {
        self.token_account_id
    }

    pub fn new(init_value: bool, account_id: A) -> (r: Self)
        ensures
            r.flag() == init_value,
            r.token() == account_id,
    {
        ERC20Swap { value: init_value, token_account_id: account_id }
    }

    /// Inverts the flag.
    pub fn flip(&mut self)
        ensures
            final(self).flag() == !old(self).flag(),
            final(self).token() == old(self).token(),
    {
        self.value = !self.value;
    }

    /// The account of the token.
    pub fn get(&self) -> (r: A)
        ensures
            r == self.token(),
    {
        self.token_account_id
    }

    /// The flag.
    pub fn value(&self) -> (r: bool)
        ensures
            r == self.flag(),
    {
        self.value
    }

    /// The balance of `owner` in `token`, the ledger that the token account
    /// names.
    pub fn balance_of<S: Erc20Storage<A>>(&self, token: &S, owner: A) -> (r: u128)
        requires
            token.well_formed(),
        ensures
            r == token.ledger().balance_of(owner),
    {
        token.get_balance(owner)
    }
}

} // verus!
