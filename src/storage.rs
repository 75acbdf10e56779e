//! The storage capability a ledger runs against, the event sink beside it, and
//! an in-memory implementation of both.
use vstd::prelude::*;
use crate::account::AccountId;
use crate::events::Erc20Event;
use crate::model::Erc20Model;
use crate::table::{
    as_map, distinct_keys, has_key, lemma_lookup_at, lemma_lookup_missing, lemma_push,
    lemma_update, lemma_within_total, total,
};

verus! {

/// Get/set access to the balances, allowances and total supply of a ledger.
/// The setters overwrite unconditionally: the rules of the ledger live in
/// `Erc20Impl`, not here.
pub trait Erc20Storage<A: AccountId>: Sized {
    /// What the storage holds, with the events emitted so far.
    spec fn ledger(&self) -> Erc20Model<A>;

    /// The sum of all balances.
    spec fn balance_sum(&self) -> int;

    /// The internal consistency of the store, kept by every setter.
    spec fn well_formed(&self) -> bool;

    /// Each balance, and the balances of two different accounts together, are
    /// within the sum of all balances.
    proof fn lemma_balances_within_sum(&self, a: A, b: A)
        ensures
            self.ledger().balance_of(a) <= self.balance_sum(),
            a != b ==> self.ledger().balance_of(a) + self.ledger().balance_of(b)
                <= self.balance_sum(),
    ;

    /// The balance of `owner`, 0 if it was never written.
    fn get_balance(&self, owner: A) -> (r: u128)
        requires
            self.well_formed(),
        ensures
            r == self.ledger().balance_of(owner),
    ;

    /// What `spender` may still move of `owner`'s tokens, 0 if never written.
    fn get_allowance(&self, owner: A, spender: A) -> (r: u128)
        requires
            self.well_formed(),
        ensures
            r == self.ledger().allowance(owner, spender),
    ;

    /// The total supply.
    fn get_total_supply(&self) -> (r: u128)
        requires
            self.well_formed(),
        ensures
            r == self.ledger().total_supply,
    ;

    /// Overwrites the total supply.
    fn set_total_supply(&mut self, total_supply: u128)
        requires
            old(self).well_formed(),
        ensures
            final(self).well_formed(),
            final(self).ledger() == old(self).ledger().with_total_supply(total_supply),
            final(self).balance_sum() == old(self).balance_sum(),
    ;

    /// Overwrites the balance of `owner`.
    fn balance_insert(&mut self, owner: A, value: u128)
        requires
            old(self).well_formed(),
        ensures
            final(self).well_formed(),
            final(self).ledger() == old(self).ledger().with_balance(owner, value),
            final(self).balance_sum() == old(self).balance_sum() - old(self).ledger().balance_of(
                owner,
            ) + value,
    ;

    /// Overwrites the allowance of the (owner, spender) pair.
    fn allowance_insert(&mut self, owner_spender: (A, A), value: u128)
        requires
            old(self).well_formed(),
        ensures
            final(self).well_formed(),
            final(self).ledger() == old(self).ledger().with_allowance(
                owner_spender.0,
                owner_spender.1,
                value,
            ),
            final(self).balance_sum() == old(self).balance_sum(),
    ;
}

/// The append-only sink that ledger events go to.
pub trait Erc20EventEmit<A: AccountId>: Erc20Storage<A> {
    /// Appends a `Transfer` event.
    fn emit_event_transfer(&mut self, from: Option<A>, to: Option<A>, value: u128)
        requires
            old(self).well_formed(),
        ensures
            final(self).well_formed(),
            final(self).ledger() == old(self).ledger().with_event(
                Erc20Event::Transfer { from, to, value },
            ),
            final(self).balance_sum() == old(self).balance_sum(),
    ;

    /// Appends an `Approval` event.
    fn emit_event_approval(&mut self, owner: A, spender: A, value: u128)
        requires
            old(self).well_formed(),
        ensures
            final(self).well_formed(),
            final(self).ledger() == old(self).ledger().with_event(
                Erc20Event::Approval { owner, spender, value },
            ),
            final(self).balance_sum() == old(self).balance_sum(),
    ;
}

/// An in-memory ledger store: one entry per account (or owner/spender pair)
/// ever written, kept also when its amount is 0, and the list of events.
pub struct Erc20<A> {
    total_supply: u128,
    balances: Vec<(A, u128)>,
    allowances: Vec<((A, A), u128)>,
    events: Vec<Erc20Event<A>>,
}

impl<A: AccountId> Erc20<A> {

    /// A store with no entries, no supply and no events.
    pub fn empty() -> (r: Self)
        ensures
            r.ledger() == Erc20Model::<A>::empty(),
            r.balance_sum() == 0,
            r.well_formed(),
    {
        let r = Erc20 {
            total_supply: 0,
            balances: Vec::new(),
            allowances: Vec::new(),
            events: Vec::new(),
        };
        assert(as_map(r.balances@) =~= Map::empty());
        assert(as_map(r.allowances@) =~= Map::empty());
        assert(r.events@ =~= Seq::empty());
        r
    }

    /// The ledger events emitted so far, oldest first.
    pub fn emitted_events(&self) -> (r: &Vec<Erc20Event<A>>)
        ensures
            r@ == self.ledger().events,
    {
        &self.events
    }

    fn find_balance(&self, owner: A) -> (r: Option<usize>)
        ensures
            match r {
                Some(i) => i < self.balances@.len() && self.balances@[i as int].0 == owner,
                None => !has_key(self.balances@, owner),
            },
    {
        let mut i: usize = 0;
        while i < self.balances.len()
            invariant
                i <= self.balances@.len(),
                forall|j: int| 0 <= j < i ==> (#[trigger] self.balances@[j]).0 != owner,
            decreases self.balances@.len() - i,
        {
            if self.balances[i].0.same(&owner) {
                return Some(i);
            }
            i = i + 1;
        }
        None
    }

    fn find_allowance(&self, key: (A, A)) -> (r: Option<usize>)
        ensures
            match r {
                Some(i) => i < self.allowances@.len() && self.allowances@[i as int].0 == key,
                None => !has_key(self.allowances@, key),
            },
    {
        let mut i: usize = 0;
        while i < self.allowances.len()
            invariant
                i <= self.allowances@.len(),
                forall|j: int| 0 <= j < i ==> (#[trigger] self.allowances@[j]).0 != key,
            decreases self.allowances@.len() - i,
        {
            let entry = &self.allowances[i];
            if entry.0.0.same(&key.0) && entry.0.1.same(&key.1) {
                return Some(i);
            }
            i = i + 1;
        }
        None
    }
}

impl<A: AccountId> Erc20Storage<A> for Erc20<A> {
    closed spec fn ledger(&self) -> Erc20Model<A> {
        Erc20Model {
            balances: as_map(self.balances@),
            allowances: as_map(self.allowances@),
            total_supply: self.total_supply,
            events: self.events@,
        }
    }

    closed spec fn balance_sum(&self) -> int {
        total(self.balances@)
    }

    closed spec fn well_formed(&self) -> bool {
        &&& distinct_keys(self.balances@)
        &&& distinct_keys(self.allowances@)
    }

    proof fn lemma_balances_within_sum(&self, a: A, b: A) {
        lemma_within_total(self.balances@, a, b);
        if !has_key(self.balances@, a) {
            lemma_lookup_missing(self.balances@, a);
        }
        if !has_key(self.balances@, b) {
            lemma_lookup_missing(self.balances@, b);
        }
    }

    fn get_balance(&self, owner: A) -> (r: u128) {
        match self.find_balance(owner) {
            Some(i) => {
                proof {
                    lemma_lookup_at(self.balances@, i as int);
                }
                self.balances[i].1
            },
            None => 0,
        }
    }

    fn get_allowance(&self, owner: A, spender: A) -> (r: u128) {
        match self.find_allowance((owner, spender)) {
            Some(i) => {
                proof {
                    lemma_lookup_at(self.allowances@, i as int);
                }
                self.allowances[i].1
            },
            None => 0,
        }
    }

    fn get_total_supply(&self) -> (r: u128) {
        self.total_supply
    }

    fn set_total_supply(&mut self, total_supply: u128) {
        self.total_supply = total_supply;
    }

    fn balance_insert(&mut self, owner: A, value: u128) {
        match self.find_balance(owner) {
            Some(i) => {
                proof {
                    lemma_lookup_at(self.balances@, i as int);
                    lemma_update(self.balances@, i as int, value);
                }
                self.balances[i] = (owner, value);
            },
            None => {
                proof {
                    lemma_lookup_missing(self.balances@, owner);
                    lemma_push(self.balances@, owner, value);
                }
                self.balances.push((owner, value));
            },
        }
    }

    fn allowance_insert(&mut self, owner_spender: (A, A), value: u128) {
        match self.find_allowance(owner_spender) {
            Some(i) => {
                proof {
                    lemma_update(self.allowances@, i as int, value);
                }
                self.allowances[i] = (owner_spender, value);
            },
            None => {
                proof {
                    lemma_push(self.allowances@, owner_spender, value);
                }
                self.allowances.push((owner_spender, value));
            },
        }
    }
}

impl<A: AccountId> Erc20EventEmit<A> for Erc20<A> {
    fn emit_event_transfer(&mut self, from: Option<A>, to: Option<A>, value: u128) {
        self.events.push(Erc20Event::Transfer { from, to, value });
    }

    fn emit_event_approval(&mut self, owner: A, spender: A, value: u128) {
        self.events.push(Erc20Event::Approval { owner, spender, value });
    }
}

} // verus!
