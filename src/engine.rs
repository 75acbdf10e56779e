//! The token rules: the initial mint, transfer, approve and delegated transfer,
//! written once against any store that offers `Erc20Storage` and
//! `Erc20EventEmit`.
use vstd::prelude::*;
use crate::account::AccountId;
use crate::error::Error;
use crate::events::Erc20Event;
use crate::model::{Erc20Message, Erc20Model};
use crate::storage::{Erc20EventEmit, Erc20Storage};

verus! {

/// The store is consistent and its balances add up to the total supply.
pub open spec fn supply_holds<A: AccountId, S: Erc20Storage<A>>(s: &S) -> bool {
    &&& s.well_formed()
    &&& s.balance_sum() == s.ledger().total_supply as int
}

/// The ledger operations. Each one checks all its conditions before it writes
/// anything, so a refused call leaves the store as it was.
pub trait Erc20Impl<A: AccountId>: Erc20EventEmit<A> {
    /// Mints `initial_supply` to `creator` in a store that holds no tokens yet.
    fn new_impl(&mut self, creator: A, initial_supply: u128)
        requires
            old(self).well_formed(),
            old(self).balance_sum() == 0,
        ensures
            final(self).ledger() == old(self).ledger().mint(creator, initial_supply),
            supply_holds(final(self)),
    {
        proof {
            self.lemma_balances_within_sum(creator, creator);
        }
        self.set_total_supply(initial_supply);
        self.balance_insert(creator, initial_supply);
        self.emit_event_transfer(None, Some(creator), initial_supply);
    }

    /// `caller` sends `value` of its own tokens to `to`.
    fn transfer_impl(&mut self, caller: A, to: A, value: u128) -> (r: Result<(), Error>)
        requires
            supply_holds(old(self)),
        ensures
            (final(self).ledger(), r) == old(self).ledger().transfer(caller, to, value),
            supply_holds(final(self)),
    {
        self.transfer_from_to_impl(caller, to, value)
    }

    /// `caller` allows `spender` to move up to `value` of its tokens, replacing
    /// any earlier allowance.
    fn approve_impl(&mut self, caller: A, spender: A, value: u128) -> (r: Result<(), Error>)
        requires
            supply_holds(old(self)),
        ensures
            r == Ok::<(), Error>(()),
            final(self).ledger() == old(self).ledger().approve(caller, spender, value),
            supply_holds(final(self)),
    {
        self.allowance_insert((caller, spender), value);
        self.emit_event_approval(caller, spender, value);
        Ok(())
    }

    /// `caller` moves `value` of `from`'s tokens to `to`, spending its
    /// allowance over `from`.
    fn transfer_from_impl(&mut self, caller: A, from: A, to: A, value: u128) -> (r: Result<
        (),
        Error,
    >)
        requires
            supply_holds(old(self)),
        ensures
            (final(self).ledger(), r) == old(self).ledger().transfer_from(caller, from, to, value),
            supply_holds(final(self)),
    {
        let allowance = self.get_allowance(from, caller);
        if allowance < value {
            return Err(Error::InsufficientAllowance);
        }
        let moved = self.transfer_from_to_impl(from, to, value);
        if let Err(e) = moved {
            return Err(e);
        }
        self.allowance_insert((from, caller), allowance - value);
        Ok(())
    }

    /// Routes one message sent by `caller` to the operation it names.
    fn dispatch(&mut self, caller: A, message: Erc20Message<A>) -> (r: Result<(), Error>)
        requires
            supply_holds(old(self)),
        ensures
            (final(self).ledger(), r) == old(self).ledger().step(caller, message),
            supply_holds(final(self)),
    {
        match message {
            Erc20Message::Transfer { to, value } => self.transfer_impl(caller, to, value),
            Erc20Message::Approve { spender, value } => self.approve_impl(caller, spender, value),
            Erc20Message::TransferFrom { from, to, value } => self.transfer_from_impl(
                caller,
                from,
                to,
                value,
            ),
        }
    }

    /// Moves `value` from `from` to `to` and emits the `Transfer` event.
    fn transfer_from_to_impl(&mut self, from: A, to: A, value: u128) -> (r: Result<(), Error>)
        requires
            supply_holds(old(self)),
        ensures
            (final(self).ledger(), r) == old(self).ledger().transfer(from, to, value),
            supply_holds(final(self)),
    {
        let from_balance = self.get_balance(from);
        if from_balance < value {
            return Err(Error::InsufficientBalance);
        }
        let to_balance = if from.same(&to) {
            from_balance - value
        } else {
            self.get_balance(to)
        };
        let credited = match to_balance.checked_add(value) {
            Some(c) => c,
            None => {
                return Err(Error::Overflow);
            },
        };
        self.balance_insert(from, from_balance - value);
        self.balance_insert(to, credited);
        self.emit_event_transfer(Some(from), Some(to), value);
        Ok(())
    }
}

impl<A: AccountId, T: Erc20EventEmit<A>> Erc20Impl<A> for T {

}

/// Where the balances add up to the total supply, crediting the receiver of a
/// covered transfer cannot overflow.
pub proof fn lemma_covered_transfer_fits<A: AccountId, S: Erc20Storage<A>>(
    s: &S,
    from: A,
    to: A,
    value: u128,
)
    requires
        supply_holds(s),
        s.ledger().balance_of(from) >= value,
    ensures
        s.ledger().transfer(from, to, value).1 == Ok::<(), Error>(()),
{
    s.lemma_balances_within_sum(from, to);
}

/// A transfer that the sender's balance covers succeeds, debits the sender by
/// `value`, credits the receiver by `value` (the two cancel when they are the
/// same account), leaves every other balance, every allowance and the total
/// supply as they were, and emits exactly one `Transfer` event.
pub proof fn law_transfer_conserves<A: AccountId, S: Erc20Storage<A>>(s: &S, a: A, b: A, v: u128)
    requires
        supply_holds(s),
        s.ledger().balance_of(a) >= v,
    ensures
        ({
            let before = s.ledger();
            let (after, r) = before.transfer(a, b, v);
            &&& r == Ok::<(), Error>(())
            &&& forall|c: A| #[trigger]
                after.balance_of(c) == before.balance_of(c) - (if c == a {
                    v as int
                } else {
                    0
                }) + (if c == b {
                    v as int
                } else {
                    0
                })
            &&& after.allowances == before.allowances
            &&& after.total_supply == before.total_supply
            &&& after.events == before.events.push(
                Erc20Event::Transfer { from: Some(a), to: Some(b), value: v },
            )
        }),
{
    lemma_covered_transfer_fits(s, a, b, v);
}

/// A transfer that the sender's balance does not cover fails with
/// `InsufficientBalance` and changes nothing, events included.
pub proof fn law_transfer_rejects<A>(m: Erc20Model<A>, a: A, b: A, v: u128)
    requires
        m.balance_of(a) < v,
    ensures
        m.transfer(a, b, v) == (m, Err::<(), Error>(Error::InsufficientBalance)),
{
}

/// Approving twice leaves the second value, whatever the first was.
pub proof fn law_approve_overwrites<A>(m: Erc20Model<A>, o: A, s: A, v1: u128, v2: u128)
    ensures
        m.approve(o, s, v1).approve(o, s, v2).allowance(o, s) == v2,
{
}

/// A delegated transfer succeeds exactly when both the allowance of the caller
/// and the balance of `from` cover `value`; on success the allowance drops by
/// exactly `value`.
pub proof fn law_transfer_from_gated<A: AccountId, S: Erc20Storage<A>>(
    s: &S,
    c: A,
    from: A,
    to: A,
    v: u128,
)
    requires
        supply_holds(s),
    ensures
        ({
            let before = s.ledger();
            let (after, r) = before.transfer_from(c, from, to, v);
            &&& r is Ok <==> (before.allowance(from, c) >= v && before.balance_of(from) >= v)
            &&& r is Ok ==> after.allowance(from, c) == before.allowance(from, c) - v
        }),
{
    if s.ledger().balance_of(from) >= v {
        lemma_covered_transfer_fits(s, from, to, v);
    }
}

/// Replaying one sequence of calls on two stores (of one kind or of two) that
/// hold the same ledger ends with the same ledger, events included, and the
/// same results.
pub proof fn law_replay_deterministic<
    A: AccountId,
    S1: Erc20Storage<A>,
    S2: Erc20Storage<A>,
>(s1: &S1, s2: &S2, calls: Seq<(A, Erc20Message<A>)>)
    requires
        s1.ledger() == s2.ledger(),
    ensures
        s1.ledger().replay(calls) == s2.ledger().replay(calls),
{
}

} // verus!
