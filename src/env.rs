use vstd::prelude::*;

verus! {

/// What a call learns from its environment: who made it.
pub trait EnvAccess<A> {
    /// The account that made the current call.
    spec fn current_caller(&self) -> A;

    fn caller(&self) -> (r: A)
        ensures
            r == self.current_caller(),
    ;
}

/// The environment of one call whose caller is already authenticated.
#[derive(Debug, Clone, Copy, PartialEq, Eq)]
pub struct CallEnv<A> {
    pub caller: A,
}

impl<A: Copy> EnvAccess<A> for CallEnv<A> {
    open spec fn current_caller(&self) -> A {
        self.caller
    }

    fn caller(&self) -> (r: A) {
        self.caller
    }
}

} // verus!
