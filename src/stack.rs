use vstd::prelude::*;

verus! {

/// Exclusively owns one value, around which layers are applied one at a time.
#[derive(Clone, Debug)]
pub struct Stack<S>(S);

impl<S> Stack<S> {
    /// The value that the stack currently owns.
    pub closed spec fn value(self) -> S {
        self.0
    }

    /// Wraps `inner` as the base of a chain.
    pub fn new(inner: S) -> (r: Self)
        ensures
            r.value() == inner,
    {
        Stack(inner)
    }

    /// Gives up the stack, yielding the owned value.
    pub fn into_inner(self) -> (r: S)
        ensures
            r == self.value(),
    {
        self.0
    }

    /// Pushes an outer layer: `apply` wraps the owned value, and the stack
    /// then owns the wrapped value.
    pub fn push_with<T, F>(self, apply: F) -> (r: Stack<T>)
        where
            F: FnOnce(S) -> T,
        requires
            apply.requires((self.value(),)),
        ensures
            apply.ensures((self.value(),), r.value()),
    {
        Stack(apply(self.0))
    }

    /// Requires at compile time that the owned value is duplicable; the
    /// stack itself is handed back untouched.
    pub fn add_bound_clone(self) -> (r: Stack<S>)
        where
            S: Clone,
        ensures
            r == self,
    {
        self
    }
}

} // verus!
