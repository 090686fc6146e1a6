use crate::stack::Stack;
use vstd::prelude::*;

verus! {

/// A factory that builds a service for a given target.
pub trait NewService<Tgt> {
    type Service;

    fn new_service(&self, target: Tgt) -> Self::Service;
}

/// A stack whose owned value is a factory of services.
pub struct NewServiceStack<S>(Stack<S>);

impl<S> NewServiceStack<S> {
    /// The underlying stack.
    pub closed spec fn stack(self) -> Stack<S> {
        self.0
    }

    pub fn new(stack: Stack<S>) -> (r: Self)
        ensures
            r.stack() == stack,
    {
        NewServiceStack(stack)
    }

    /// Gives up the wrapper, yielding the underlying stack.
    pub fn into_inner(self) -> (r: Stack<S>)
        ensures
            r == self.stack(),
    {
        self.0
    }

    /// Requires at compile time that the owned value is a factory for
    /// targets of type `Tgt`; the wrapper is handed back untouched.
    pub fn check_new<Tgt>(self) -> (r: Self)
        where
            S: NewService<Tgt>,
        ensures
            r == self,
    {
        self
    }
}

} // verus!
