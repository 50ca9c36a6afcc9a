//! Layers decorate services, and compose with each other.

use std::marker::PhantomData;

use vstd::prelude::*;

use crate::utils::Either;
use crate::service::{MapErr, Service};

verus! {

/// Decorates a service, transforming its requests, its responses or both.
///
/// `accepts` says on which services the layer may be applied, and `wraps`
/// relates the service it was given to the service it returns.
pub trait Layer<S>: Sized {
    /// The wrapped service.
    type Service;

    /// The layer can be applied to `inner`; unless a layer says otherwise,
    /// it can be applied to every service.
    open spec fn accepts(&self, inner: S) -> bool {
        true
    }

    /// Applying the layer to `inner` may give `out`; unless a layer says
    /// more, any service may come.
    open spec fn wraps(&self, inner: S, out: Self::Service) -> bool {
        true
    }

    /// Wraps `inner`, consuming the layer.
    fn layer(self, inner: S) -> (out: Self::Service)
        requires
            self.accepts(inner),
        ensures
            self.wraps(inner, out),
    ;
}

/// The layer that leaves a service as it is.
#[derive(Clone, Copy, Debug, Default)]
pub struct Identity {}

impl Identity {
    /// Creates the identity layer.
    pub fn new() -> (r: Identity)
        ensures
            r == (Identity {}),
    {
        Identity {}
    }
}

impl<S> Layer<S> for Identity {
    type Service = S;

    open spec fn accepts(&self, inner: S) -> bool {
        true
    }

    open spec fn wraps(&self, inner: S, out: S) -> bool {
        out == inner
    }

    /// Hands `inner` back unchanged.
    fn layer(self, inner: S) -> (out: S)
        ensures
            out == inner,
    {
        inner
    }
}

/// Two layers chained together: `inner` is applied first, `outer` wraps
/// its result.
#[derive(Clone, Copy, Debug)]
pub struct Stack<Inner, Outer> {
    pub inner: Inner,
    pub outer: Outer,
}

impl<Inner, Outer> Stack<Inner, Outer> {
    /// Creates a stack that applies `inner`, then `outer`.
    pub fn new(inner: Inner, outer: Outer) -> (r: Self)
        ensures
            r.inner == inner,
            r.outer == outer,
    {
        Stack { inner, outer }
    }
}

impl<S, Inner: Layer<S>, Outer: Layer<Inner::Service>> Layer<S> for Stack<Inner, Outer> {
    type Service = Outer::Service;

    open spec fn accepts(&self, inner: S) -> bool {
        &&& self.inner.accepts(inner)
        &&& forall|mid: Inner::Service| #[trigger] self.inner.wraps(inner, mid) ==> self.outer.accepts(mid)
    }

    open spec fn wraps(&self, inner: S, out: Outer::Service) -> bool {
        exists|mid: Inner::Service| #[trigger] self.inner.wraps(inner, mid) && self.outer.wraps(mid, out)
    }

    fn layer(self, service: S) -> (out: Outer::Service) {
        let mid = self.inner.layer(service);
        self.outer.layer(mid)
    }
}

/// Regrouping three layers does not change what applying them does:
/// `Stack(Stack(a, b), c)` and `Stack(a, Stack(b, c))` accept the same
/// services and may give the same services.
pub proof fn lemma_stack_associative<S, A: Layer<S>, B: Layer<A::Service>, C: Layer<B::Service>>(
    left: Stack<Stack<A, B>, C>,
    right: Stack<A, Stack<B, C>>,
    s: S,
)
    requires
        left.inner.inner == right.inner,
        left.inner.outer == right.outer.inner,
        left.outer == right.outer.outer,
    ensures
        left.accepts(s) == right.accepts(s),
        forall|out: C::Service| left.wraps(s, out) == right.wraps(s, out),
{
    let a = right.inner;
    let b = right.outer.inner;
    let c = right.outer.outer;
    assert forall|out: C::Service| left.wraps(s, out) == right.wraps(s, out) by {
        if left.wraps(s, out) {
            let m2 = choose|m2: B::Service| #[trigger] left.inner.wraps(s, m2) && c.wraps(m2, out);
            let m1 = choose|m1: A::Service| #[trigger] a.wraps(s, m1) && b.wraps(m1, m2);
            assert(right.outer.wraps(m1, out));
        }
        if right.wraps(s, out) {
            let m1 = choose|m1: A::Service| #[trigger] a.wraps(s, m1) && right.outer.wraps(m1, out);
            let m2 = choose|m2: B::Service| #[trigger] b.wraps(m1, m2) && c.wraps(m2, out);
            assert(left.inner.wraps(s, m2));
        }
    }
    if left.accepts(s) {
        assert forall|m1: A::Service| a.wraps(s, m1) ==> #[trigger] right.outer.accepts(m1) by {
            if a.wraps(s, m1) {
                assert forall|m2: B::Service| b.wraps(m1, m2) ==> #[trigger] c.accepts(m2) by {
                    if b.wraps(m1, m2) {
                        assert(left.inner.wraps(s, m2));
                    }
                }
            }
        }
    }
    if right.accepts(s) {
        assert forall|m2: B::Service| left.inner.wraps(s, m2) ==> #[trigger] c.accepts(m2) by {
            if left.inner.wraps(s, m2) {
                let m1 = choose|m1: A::Service| #[trigger] a.wraps(s, m1) && b.wraps(m1, m2);
                assert(right.outer.accepts(m1));
            }
        }
        assert forall|m1: A::Service| a.wraps(s, m1) ==> #[trigger] b.accepts(m1) by {
            if a.wraps(s, m1) {
                assert(right.outer.accepts(m1));
            }
        }
    }
}

/// Returns a [`LayerFn`] that wraps each service with the function `f`.
pub fn layer_fn<F>(f: F) -> (r: LayerFn<F>)
    ensures
        r.f == f,
{
    LayerFn { f }
}

/// A [`Layer`] implemented by a function or a closure from one service to
/// another.
#[derive(Clone, Copy)]
pub struct LayerFn<F> {
    pub f: F,
}

impl<S, F: Fn(S) -> Out, Out> Layer<S> for LayerFn<F> {
    type Service = Out;

    open spec fn accepts(&self, inner: S) -> bool {
        self.f.requires((inner,))
    }

    open spec fn wraps(&self, inner: S, out: Out) -> bool {
        self.f.ensures((inner,), out)
    }

    /// Calls the function on `inner`.
    fn layer(self, inner: S) -> (out: Out) {
        (self.f)(inner)
    }
}

/// A chain of layers built outward: each [`Layers::push`] adds a layer that
/// wraps all those before it.
#[derive(Clone, Copy, Debug)]
pub struct Layers<L>(pub L);

impl Default for Layers<Identity> {
    fn default() -> (r: Self)
        ensures
            r.0 == (Identity {}),
    {
        Layers::new(Identity::new())
    }
}

impl<L> Layers<L> {
    /// Starts a chain with `layer`.
    pub fn new(layer: L) -> (r: Self)
        ensures
            r.0 == layer,
    {
        Layers(layer)
    }

    /// Adds `outer`, which wraps what the chain so far produces.
    pub fn push<O>(self, outer: O) -> (r: Layers<Stack<L, O>>)
        ensures
            r.0.inner == self.0,
            r.0.outer == outer,
    {
        Layers(Stack::new(self.0, outer))
    }

    /// Adds `outer` when it is present, and the identity layer otherwise.
    pub fn push_optional<O>(self, outer: Option<O>) -> (r: Layers<Stack<L, Either<O, Identity>>>)
        ensures
            r.0.inner == self.0,
            r.0.outer == match outer {
                Some(o) => Either::<O, Identity>::A(o),
                None => Either::<O, Identity>::B(Identity {}),
            },
    {
        let layer: Either<O, Identity> = match outer {
            Some(o) => Either::A(o),
            None => Either::B(Identity::new()),
        };
        self.push(layer)
    }
}

impl<M, L: Layer<M>> Layer<M> for Layers<L> {
    type Service = L::Service;

    open spec fn accepts(&self, inner: M) -> bool {
        self.0.accepts(inner)
    }

    open spec fn wraps(&self, inner: M, out: L::Service) -> bool {
        self.0.wraps(inner, out)
    }

    /// Applies the chain to `inner`.
    fn layer(self, inner: M) -> (out: L::Service) {
        self.0.layer(inner)
    }
}

/// A layer that wraps a service in [`MapErr`], converting its errors with
/// `f` into an `E`.
pub struct MapErrLayer<F, E> {
    pub f: F,
    pub error: PhantomData<E>,
}

impl<F: Clone, E> Clone for MapErrLayer<F, E> {
    fn clone(&self) -> Self {
        MapErrLayer { f: self.f.clone(), error: PhantomData }
    }
}

impl<F, E> MapErrLayer<F, E> {
    /// Creates the layer from the conversion `f`.
    pub fn new(f: F) -> (r: Self)
        ensures
            r.f == f,
    {
        MapErrLayer { f, error: PhantomData }
    }
}

impl<S, F: Clone, E> Layer<S> for MapErrLayer<F, E> {
    type Service = MapErr<S, F, E>;

    open spec fn accepts(&self, inner: S) -> bool {
        true
    }

    open spec fn wraps(&self, inner: S, out: MapErr<S, F, E>) -> bool {
        out.inner == inner && out.f == self.f
    }

    /// Wraps `svc` so that its errors go through this layer's conversion.
    fn layer(self, svc: S) -> (out: MapErr<S, F, E>) {
        MapErr { inner: svc, f: self.f, error: PhantomData }
    }
}

/// Adapters available on every [`Layer`].
pub trait LayerExt<Cx, Req, S: Service<Cx, Req>>: Layer<S> {
    /// Returns a layer that converts the errors of `S` with `f`.
    fn map_err<E, F: Fn(S::Error) -> E>(self, f: F) -> (r: MapErrLayer<F, E>)
        ensures
            r.f == f,
    ;
}

impl<Cx, Req, T: Layer<S>, S: Service<Cx, Req>> LayerExt<Cx, Req, S> for T {
    fn map_err<E, F: Fn(S::Error) -> E>(self, f: F) -> (r: MapErrLayer<F, E>) {
        MapErrLayer { f, error: PhantomData }
    }
}

} // verus!
