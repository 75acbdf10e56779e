//! The single-owner access guard: an optional privileged account that only
//! its holder can hand over or give up, for good.
use vstd::prelude::*;
use crate::account::AccountId;
use crate::error::Error;
use crate::env::EnvAccess;
use crate::events::OwnershipTransferred;

verus! {

/// The stored state of the guard: the current owner, if any.
pub struct Data<A> {
    owner: Option<A>,
}

impl<A> View for Data<A> {
    type V = Option<A>;

    closed spec fn view(&self) -> Option<A> {
        self.owner
    }
}

impl<A: AccountId> Data<A> {
    /// A guard with no owner yet.
    pub fn new() -> (r: Self)
        ensures
            r@ == None::<A>,
    {
        Data { owner: None }
    }

    pub fn get_ownership(&self) -> (r: &Option<A>)
        ensures
            *r == self@,
    {
        &self.owner
    }

    pub fn set_ownership(&mut self, owner: &Option<A>)
        ensures
            final(self)@ == *owner,
    {
        self.owner = *owner;
    }
}

/// Access to one module of state `T` held inside a larger service state.
pub trait Module<T>: Sized {
    /// The module's current value.
    spec fn module(&self) -> T;

    /// This state with the module replaced by `m` and all else kept.
    spec fn with_module(&self, m: T) -> Self;

    proof fn lemma_with_module(&self, m: T)
        ensures
            self.with_module(m).module() == m,
    ;

    fn get_module(&self) -> (r: &T)
        ensures
            *r == self.module(),
    ;

    fn get_module_mut(&mut self) -> (r: &mut T)
        ensures
            *r == old(self).module(),
            *final(self) == old(self).with_module(*final(r)),
    ;
}

/// The observable state of the guard: the owner and the events so far.
pub struct OwnerModel<A> {
    pub owner: Option<A>,
    pub events: Seq<OwnershipTransferred<A>>,
}

/// An ownership operation as it arrives, without its caller.
#[derive(Debug, Clone, Copy, PartialEq, Eq)]
pub enum OwnerMessage<A> {
    TransferOwnership { new_owner: A },
    RenounceOwnership,
}

impl<A> OwnerModel<A> {
    /// `caller` hands ownership to `new_owner`: refused with `NotOwner` unless
    /// `caller` is the current owner.
    pub open spec fn transfer_ownership(self, caller: A, new_owner: A) -> (Self, Result<(), Error>) {
        if self.owner == Some(caller) {
            (
                OwnerModel {
                    owner: Some(new_owner),
                    events: self.events.push(
                        OwnershipTransferred { previous_owner: self.owner, new_owner: Some(new_owner) },
                    ),
                },
                Ok(()),
            )
        } else {
            (self, Err(Error::NotOwner))
        }
    }

    /// `caller` gives ownership up: refused with `NotOwner` unless `caller` is
    /// the current owner.
    pub open spec fn renounce_ownership(self, caller: A) -> (Self, Result<(), Error>) {
        if self.owner == Some(caller) {
            (
                OwnerModel {
                    owner: None,
                    events: self.events.push(
                        OwnershipTransferred { previous_owner: self.owner, new_owner: None },
                    ),
                },
                Ok(()),
            )
        } else {
            (self, Err(Error::NotOwner))
        }
    }

    /// The effect of one message sent by `caller`.
    pub open spec fn step(self, caller: A, message: OwnerMessage<A>) -> (Self, Result<(), Error>) {
        match message {
            OwnerMessage::TransferOwnership { new_owner } => self.transfer_ownership(
                caller,
                new_owner,
            ),
            OwnerMessage::RenounceOwnership => self.renounce_ownership(caller),
        }
    }

    /// The guard after a sequence of (caller, message) calls, with the result
    /// of each call.
    pub open spec fn replay(self, calls: Seq<(A, OwnerMessage<A>)>) -> (
        Self,
        Seq<Result<(), Error>>,
    )
        decreases calls.len(),
    {
        if calls.len() == 0 {
            (self, Seq::empty())
        } else {
            let (before, results) = self.replay(calls.drop_last());
            let (after, r) = before.step(calls.last().0, calls.last().1);
            (after, results.push(r))
        }
    }
}

/// The sink that ownership events go to.
pub trait EventEmit<A: AccountId>: Module<Data<A>> {
    /// The ownership events emitted so far.
    spec fn ownership_events(&self) -> Seq<OwnershipTransferred<A>>;

    /// Replacing the module keeps the events.
    proof fn lemma_with_module_keeps_events(&self, m: Data<A>)
        ensures
            self.with_module(m).ownership_events() == self.ownership_events(),
    ;

    fn emit_event_ownership_transferred(&mut self, previous_owner: Option<A>, new_owner: Option<A>)
        ensures
            final(self).ownership_events() == old(self).ownership_events().push(
                OwnershipTransferred { previous_owner, new_owner },
            ),
            final(self).module() == old(self).module(),
    ;
}

/// The guard's state as its model sees it.
pub open spec fn guard_of<A: AccountId, S: EventEmit<A>>(s: &S) -> OwnerModel<A> {
    OwnerModel { owner: s.module()@, events: s.ownership_events() }
}

/// The ownership operations, written once against any state that holds a
/// `Data` module and an event sink.
pub trait Impl<A: AccountId>: EventEmit<A> {
    /// Makes `caller` the owner.
    fn new_impl(&mut self, caller: A)
        ensures
            guard_of(final(self)) == (OwnerModel {
                owner: Some(caller),
                events: old(self).ownership_events().push(
                    OwnershipTransferred { previous_owner: None, new_owner: Some(caller) },
                ),
            }),
    {
        self.set_owner(Some(caller));
        self.emit_event_ownership_transferred(None, Some(caller));
    }

    /// Gives ownership up for good; only the owner may.
    fn renounce_ownership(&mut self, caller: A) -> (r: Result<(), Error>)
        ensures
            (guard_of(final(self)), r) == guard_of(old(self)).renounce_ownership(caller),
    {
        if let Err(e) = self.ensure_caller_is_owner(caller) {
            return Err(e);
        }
        let previous_owner = *self.owner();
        self.emit_event_ownership_transferred(previous_owner, None);
        self.set_owner(None);
        Ok(())
    }

    /// Hands ownership to `new_owner`; only the owner may.
    fn transfer_ownership(&mut self, caller: A, new_owner: A) -> (r: Result<(), Error>)
        ensures
            (guard_of(final(self)), r) == guard_of(old(self)).transfer_ownership(
                caller,
                new_owner,
            ),
    {
        if let Err(e) = self.ensure_caller_is_owner(caller) {
            return Err(e);
        }
        let previous_owner = *self.owner();
        self.emit_event_ownership_transferred(previous_owner, Some(new_owner));
        self.set_owner(Some(new_owner));
        Ok(())
    }

    /// Routes one message sent by `caller` to the operation it names.
    fn dispatch(&mut self, caller: A, message: OwnerMessage<A>) -> (r: Result<(), Error>)
        ensures
            (guard_of(final(self)), r) == guard_of(old(self)).step(caller, message),
    {
        match message {
            OwnerMessage::TransferOwnership { new_owner } => self.transfer_ownership(
                caller,
                new_owner,
            ),
            OwnerMessage::RenounceOwnership => self.renounce_ownership(caller),
        }
    }

    /// The current owner.
    fn owner(&self) -> (r: &Option<A>)
        ensures
            *r == self.module()@,
    {
        self.get_module().get_ownership()
    }

    /// Replaces the owner through the module, keeping the events.
    fn set_owner(&mut self, owner: Option<A>)
        ensures
            final(self).module()@ == owner,
            final(self).ownership_events() == old(self).ownership_events(),
    {
        let ghost pre = *self;
        let data = self.get_module_mut();
        data.set_ownership(&owner);
        proof {
            pre.lemma_with_module(*data);
            pre.lemma_with_module_keeps_events(*data);
        }
    }

    /// Succeeds exactly when `owner` is the current owner.
    fn ensure_owner(&self, owner: &A) -> (r: Result<(), Error>)
        ensures
            r == (if self.module()@ == Some(*owner) {
                Ok::<(), Error>(())
            } else {
                Err(Error::NotOwner)
            }),
    {
        match self.owner() {
            Some(current) => {
                if current.same(owner) {
                    Ok(())
                } else {
                    Err(Error::NotOwner)
                }
            },
            None => Err(Error::NotOwner),
        }
    }

    /// Succeeds exactly when `caller` is the current owner.
    fn ensure_caller_is_owner(&self, caller: A) -> (r: Result<(), Error>)
        ensures
            r == (if self.module()@ == Some(caller) {
                Ok::<(), Error>(())
            } else {
                Err(Error::NotOwner)
            }),
    {
        self.ensure_owner(&caller)
    }

    /// Succeeds exactly when ownership has been renounced (or never taken);
    /// fails with `NotOwner` while an owner is in place.
    fn ensure_owner_renounce(&self) -> (r: Result<(), Error>)
        ensures
            r == (if self.module()@ is None {
                Ok::<(), Error>(())
            } else {
                Err(Error::NotOwner)
            }),
    {
        if self.owner().is_none() {
            Ok(())
        } else {
            Err(Error::NotOwner)
        }
    }
}

impl<A: AccountId, T: EventEmit<A>> Impl<A> for T {

}

/// A guard with no owner refuses every call with `NotOwner` and stays as it is.
pub proof fn lemma_unowned_refuses_all<A>(m: OwnerModel<A>, calls: Seq<(A, OwnerMessage<A>)>)
    requires
        m.owner is None,
    ensures
        m.replay(calls).0 == m,
        m.replay(calls).1.len() == calls.len(),
        forall|i: int|
            0 <= i < calls.len() ==> #[trigger] m.replay(calls).1[i] == Err::<(), Error>(
                Error::NotOwner,
            ),
    decreases calls.len(),
{
    if calls.len() > 0 {
        lemma_unowned_refuses_all(m, calls.drop_last());
        let results = m.replay(calls.drop_last()).1;
        assert forall|i: int| 0 <= i < calls.len() implies #[trigger] m.replay(calls).1[i]
            == Err::<(), Error>(Error::NotOwner) by {
            if i < calls.len() - 1 {
                assert(m.replay(calls).1[i] == results[i]);
            }
        }
    }
}

/// Once a renounce succeeds, the guard has no owner, and every later call to
/// hand over or renounce ownership, by anyone, fails with `NotOwner` and
/// changes nothing.
pub proof fn law_renounce_is_terminal<A>(
    m: OwnerModel<A>,
    c: A,
    calls: Seq<(A, OwnerMessage<A>)>,
)
    requires
        m.renounce_ownership(c).1 is Ok,
    ensures
        ({
            let after = m.renounce_ownership(c).0;
            let (end, results) = after.replay(calls);
            &&& after.owner is None
            &&& end == after
            &&& results.len() == calls.len()
            &&& forall|i: int|
                0 <= i < calls.len() ==> #[trigger] results[i] == Err::<(), Error>(
                    Error::NotOwner,
                )
        }),
{
    lemma_unowned_refuses_all(m.renounce_ownership(c).0, calls);
}

/// A service guarded by a single owner, with the ownership events it emitted.
pub struct Owner<A> {
    data: Data<A>,
    events: Vec<OwnershipTransferred<A>>,
}

impl<A: AccountId> Module<Data<A>> for Owner<A> {
    closed spec fn module(&self) -> Data<A> {
        self.data
    }

    closed spec fn with_module(&self, m: Data<A>) -> Self {
        Owner { data: m, events: self.events }
    }

    proof fn lemma_with_module(&self, m: Data<A>) {
    }

    fn get_module(&self) -> (r: &Data<A>) {
        &self.data
    }

    fn get_module_mut(&mut self) -> (r: &mut Data<A>) {
        &mut self.data
    }
}

impl<A: AccountId> EventEmit<A> for Owner<A> {
    closed spec fn ownership_events(&self) -> Seq<OwnershipTransferred<A>> {
        self.events@
    }

    proof fn lemma_with_module_keeps_events(&self, m: Data<A>) {
    }

    fn emit_event_ownership_transferred(&mut self, previous_owner: Option<A>, new_owner: Option<A>) {
        self.events.push(OwnershipTransferred { previous_owner, new_owner });
    }
}

impl<A: AccountId> Owner<A> {
    /// Creates the guard with the caller as its owner, and emits the first
    /// `OwnershipTransferred` event.
    pub fn new<E: EnvAccess<A>>(env: &E) -> (r: Self)
        ensures
            guard_of(&r) == (OwnerModel {
                owner: Some(env.current_caller()),
                events: seq![
                    OwnershipTransferred {
                        previous_owner: None,
                        new_owner: Some(env.current_caller()),
                    },
                ],
            }),
    {
        let mut r = Owner { data: Data::new(), events: Vec::new() };
        assert(r.events@ =~= Seq::empty());
        Impl::new_impl(&mut r, env.caller());
        r
    }

    /// The caller gives ownership up for good; only the owner may.
    pub fn renounce_ownership<E: EnvAccess<A>>(&mut self, env: &E) -> (r: Result<(), Error>)
        ensures
            (guard_of(final(self)), r) == guard_of(old(self)).renounce_ownership(
                env.current_caller(),
            ),
    {
        Impl::renounce_ownership(self, env.caller())
    }

    /// The caller hands ownership to `new_owner`; only the owner may.
    pub fn transfer_ownership<E: EnvAccess<A>>(&mut self, env: &E, new_owner: A) -> (r: Result<
        (),
        Error,
    >)
        ensures
            (guard_of(final(self)), r) == guard_of(old(self)).transfer_ownership(
                env.current_caller(),
                new_owner,
            ),
    {
        Impl::transfer_ownership(self, env.caller(), new_owner)
    }

    /// Succeeds exactly when the caller is the current owner.
    pub fn ensure_caller_is_owner<E: EnvAccess<A>>(&self, env: &E) -> (r: Result<(), Error>)
        ensures
            r == (if guard_of(self).owner == Some(env.current_caller()) {
                Ok::<(), Error>(())
            } else {
                Err(Error::NotOwner)
            }),
    {
        Impl::ensure_caller_is_owner(self, env.caller())
    }

    /// The current owner, `None` once ownership is renounced.
    pub fn get_owner(&self) -> (r: Option<A>)
        ensures
            r == guard_of(self).owner,
    {
        *Impl::owner(self)
    }

    /// The ownership events emitted so far, oldest first.
    pub fn emitted_events(&self) -> (r: &Vec<OwnershipTransferred<A>>)
        ensures
            r@ == guard_of(self).events,
    {
        &self.events
    }
}

} // verus!
