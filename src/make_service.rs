use crate::on_service::{OnService, OnServiceLayer};
use crate::stack::Stack;
use vstd::prelude::*;

verus! {

/// A stack whose owned value is a factory that asynchronously produces
/// services for a target.
pub struct MakeStack<M>(Stack<M>);

impl<M> MakeStack<M> {
    /// The underlying stack.
    pub closed spec fn stack(self) -> Stack<M> {
        self.0
    }

    /// Wraps `stack`. That its value is a factory for a given target type is
    /// asserted by the capability checks of whoever assembles the pipeline.
    pub fn new(stack: Stack<M>) -> (r: Self)
        ensures
            r.stack() == stack,
    {
        MakeStack(stack)
    }

    /// Gives up the wrapper, yielding the underlying stack.
    pub fn into_inner(self) -> (r: Stack<M>)
        ensures
            r == self.stack(),
    {
        self.0
    }

    /// Pushes `layer` so that it wraps each service that the factory
    /// produces, rather than the factory itself: the factory is left as it
    /// was, and the adapter holds its own copy of the layer.
    pub fn push_on_service<L: Clone>(self, layer: L) -> (r: MakeStack<OnService<L, M>>)
        ensures
            r.stack().value().factory() == self.stack().value(),
            cloned(layer, r.stack().value().held_layer()),
    {
        let on_service_layer = OnServiceLayer::new(layer);
        let wrap = |inner: M| -> (r: OnService<L, M>)
            ensures
                r.factory() == inner,
                cloned(on_service_layer.inner_layer(), r.held_layer()),
            {
                on_service_layer.layer(inner)
            };
        let stack = self.into_inner().push_with(wrap);
        MakeStack::new(stack)
    }
}

} // verus!
