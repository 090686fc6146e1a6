use vstd::prelude::*;

verus! {

/// What polling a pending operation gave: not finished yet, or finished with
/// a value or a failure.
pub enum Progress<T, E> {
    Pending,
    Ready(Result<T, E>),
}

/// What polling the wrapped factory's production gave.
pub enum Production<S, E> {
    Pending,
    Produced(S),
    Failed(E),
}

/// The continuation of one call of an [`OnService`]: it owns its own copy of
/// the layer while the wrapped factory is producing, and is finished once the
/// production has completed.
pub enum OnServiceTask<L> {
    Producing { layer: L },
    Finished,
}

impl<L> OnServiceTask<L> {
    /// A task waiting for the wrapped factory's production.
    pub fn new(layer: L) -> (r: Self)
        ensures
            r == (OnServiceTask::Producing { layer }),
    {
        OnServiceTask::Producing { layer }
    }

    /// Whether the production has completed (with a service or a failure).
    pub fn is_finished(&self) -> (r: bool)
        ensures
            r == (*self is Finished),
    {
        match self {
            OnServiceTask::Producing { .. } => false,
            OnServiceTask::Finished => true,
        }
    }

    /// Advances the task by what polling the production gave.
    ///
    /// While the production is pending nothing happens. Once it yields a
    /// service, `wrap` applies the held layer to it and the wrapped service is
    /// the result. A failure is handed on exactly as it came, and `wrap` is not
    /// called. Either way the task is then finished.
    pub fn advance<S, T, E, F>(self, event: Production<S, E>, wrap: F) -> (r: (
        OnServiceTask<L>,
        Progress<T, E>,
    ))
        where
            F: FnOnce(L, S) -> T,
        requires
            self is Producing,
            event matches Production::Produced(s) ==> wrap.requires((self->layer, s)),
        ensures
            match event {
                Production::Pending => r.0 == self && r.1 is Pending,
                Production::Produced(s) => r.0 is Finished && match r.1 {
                    Progress::Ready(Ok(t)) => wrap.ensures((self->layer, s), t),
                    _ => false,
                },
                Production::Failed(e) => r.0 is Finished && r.1 == Progress::<T, E>::Ready(Err(e)),
            },
    {
        match event {
            Production::Pending => (self, Progress::Pending),
            Production::Produced(svc) => match self {
                OnServiceTask::Producing { layer } => {
                    let wrapped = wrap(layer, svc);
                    (OnServiceTask::Finished, Progress::Ready(Ok(wrapped)))
                },
                // excluded by the precondition
                OnServiceTask::Finished => (OnServiceTask::Finished, Progress::Pending),
            },
            Production::Failed(err) => (OnServiceTask::Finished, Progress::Ready(Err(err))),
        }
    }
}

/// A factory whose produced services are those of `inner`, each wrapped by
/// `layer` once the production has completed.
#[derive(Clone, Debug)]
pub struct OnService<L, M> {
    inner: M,
    layer: L,
}

impl<L, M> OnService<L, M> {
    /// The wrapped factory.
    pub closed spec fn factory(self) -> M {
        self.inner
    }

    /// The layer applied to each produced service.
    pub closed spec fn held_layer(self) -> L {
        self.layer
    }

    /// The wrapped factory, to poll it for readiness and to start a
    /// production on it.
    pub fn factory_mut(&mut self) -> (r: &mut M)
        ensures
            *r == old(self).factory(),
            final(self).factory() == *final(r),
            final(self).held_layer() == old(self).held_layer(),
    {
        &mut self.inner
    }

    /// The adapter is ready exactly when the wrapped factory is: its
    /// readiness is handed on unchanged.
    pub fn readiness<E>(&self, inner: Progress<(), E>) -> (r: Progress<(), E>)
        ensures
            r == inner,
    {
        inner
    }

    /// Starts the continuation of a call whose production has just been
    /// started on the wrapped factory; it owns a copy of the layer.
    pub fn begin(&self) -> (r: OnServiceTask<L>)
        where
            L: Clone,
        ensures
            r matches OnServiceTask::Producing { layer } && cloned(self.held_layer(), layer),
    {
        OnServiceTask::new(self.layer.clone())
    }
}

/// Turns a layer meant for finished services into one for factories: the
/// layer is applied to each service that the factory produces.
#[derive(Clone, Debug)]
pub struct OnServiceLayer<L>(L);

impl<L> OnServiceLayer<L> {
    /// The layer applied to produced services.
    pub closed spec fn inner_layer(self) -> L {
        self.0
    }

    /// Holds `layer` for the factories it will wrap.
    pub fn new(layer: L) -> (r: Self)
        ensures
            r.inner_layer() == layer,
    {
        Self(layer)
    }

    /// Wraps the factory `inner`; the adapter holds its own copy of the layer.
    pub fn layer<M>(&self, inner: M) -> (r: OnService<L, M>)
        where
            L: Clone,
        ensures
            r.factory() == inner,
            cloned(self.inner_layer(), r.held_layer()),
    {
        OnService { inner, layer: self.0.clone() }
    }
}

} // verus!
