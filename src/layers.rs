use tower::layer::util::Identity;
use tower::layer::util::Stack as LayerPair;
use vstd::prelude::*;

verus! {

/// tower's layer that wraps nothing, carried through as an opaque value.
#[verifier::external_type_specification]
#[verifier::external_body]
pub struct ExIdentity(Identity);

/// tower's pair of an inner and an outer layer, carried through as an opaque value.
#[verifier::external_type_specification]
#[verifier::external_body]
#[verifier::reject_recursive_types(Inner)]
#[verifier::reject_recursive_types(Outer)]
pub struct ExLayerStack<Inner, Outer>(LayerPair<Inner, Outer>);

/// Relies on tower's `Identity::new`, which builds the layer that wraps nothing.
pub assume_specification[ Identity::new ]() -> Identity;

/// Relies on tower's `layer::util::Stack::new`, which pairs an inner and an outer layer;
/// applying the pair applies `inner` first and wraps its result with `outer`.
pub assume_specification<Inner, Outer>[ LayerPair::<Inner, Outer>::new ](
    inner: Inner,
    outer: Outer,
) -> LayerPair<Inner, Outer>;

/// Relies on tower's `Layer` impl for `Identity`, which returns the service it
/// is given.
#[verifier::external_body]
fn identity_layer<S>(identity: &Identity, inner: S) -> (r: S)
    ensures
        r == inner,
{
    tower::Layer::<S>::layer(identity, inner)
}

/// An un-applied composition of layers. The layer pushed last is the
/// outermost: on a call it sees the request first and the response last.
pub struct Layers<L>(L);

impl Layers<Identity> {
    /// The empty composition, which wraps nothing.
    pub fn new() -> (r: Self) {
        Layers(Identity::new())
    }

    /// Applying the empty composition hands the value back unchanged.
    pub fn layer<S>(&self, inner: S) -> (r: S)
        ensures
            r == inner,
    {
        identity_layer(&self.0, inner)
    }
}

impl<L> Layers<L> {
    /// The composition as a single layer.
    pub closed spec fn composition(self) -> L {
        self.0
    }

    /// Pushes an outer layer onto the composition.
    pub fn push<O>(self, outer: O) -> (r: Layers<LayerPair<L, O>>) {
        Layers(LayerPair::new(self.0, outer))
    }

    /// Gives up the composition, yielding it as a single layer.
    pub fn into_inner(self) -> (r: L)
        ensures
            r == self.composition(),
    {
        self.0
    }
}

} // verus!
