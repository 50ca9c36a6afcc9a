//! Values that carry a service across the boundary with the `tower`
//! ecosystem's service abstraction, together with the conversion of the
//! request at that boundary.

use std::marker::PhantomData;

use vstd::prelude::*;

use crate::layer::Layer;
use crate::service::Service;

verus! {

/// A service of this crate, with the function `f` that turns a request of
/// the other side into a context and a request of this side.
pub struct Tower<S, F, Cx, MotoreReq> {
    pub inner: S,
    pub f: F,
    pub marker: PhantomData<(Cx, MotoreReq)>,
}

impl<S, F, Cx, MotoreReq> Tower<S, F, Cx, MotoreReq> {
    /// Pairs `inner` with the request conversion `f`.
    pub fn new(inner: S, f: F) -> (r: Self)
        ensures
            r.inner == inner,
            r.f == f,
    {
        Self { inner, f, marker: PhantomData }
    }
}

impl<S: Clone, F: Clone, Cx, MotoreReq> Clone for Tower<S, F, Cx, MotoreReq> {
    fn clone(&self) -> Self {
        Self { inner: self.inner.clone(), f: self.f.clone(), marker: PhantomData }
    }
}

/// Lets any service be paired with a request conversion by
/// `service.tower(f)`.
pub trait TowerAdapter<Cx, MotoreReq, TowerReq>: Service<Cx, MotoreReq> + Sized {
    /// Pairs the service with `f`.
    fn tower<F: FnOnce(TowerReq) -> (Cx, MotoreReq)>(self, f: F) -> (r: Tower<Self, F, Cx, MotoreReq>)
        ensures
            r.inner == self,
            r.f == f,
    ;
}

impl<T: Service<Cx, MotoreReq>, Cx, MotoreReq, TowerReq> TowerAdapter<Cx, MotoreReq, TowerReq> for T {
    fn tower<F: FnOnce(TowerReq) -> (Cx, MotoreReq)>(self, f: F) -> (r: Tower<Self, F, Cx, MotoreReq>) {
        Tower::new(self, f)
    }
}

/// The layer that pairs a service with a request conversion, as [`Tower`].
pub struct TowerAdapterLayer<F, Cx, MotoreReq> {
    pub f: F,
    pub marker: PhantomData<(Cx, MotoreReq)>,
}

impl<F, Cx, MotoreReq> TowerAdapterLayer<F, Cx, MotoreReq> {
    /// Creates the layer from the request conversion `f`.
    pub fn new(f: F) -> (r: Self)
        ensures
            r.f == f,
    {
        Self { f, marker: PhantomData }
    }
}

impl<F: Clone, Cx, MotoreReq> Clone for TowerAdapterLayer<F, Cx, MotoreReq> {
    fn clone(&self) -> Self {
        Self { f: self.f.clone(), marker: PhantomData }
    }
}

/// A service of the other side, with the function `f` that turns a context
/// and a request of this side into a request of the other side.
#[derive(Clone, Copy)]
pub struct Motore<S, F> {
    pub inner: S,
    pub f: F,
}

impl<S, F> Motore<S, F> {
    /// Pairs `inner` with the request conversion `f`.
    pub fn new(inner: S, f: F) -> (r: Self)
        ensures
            r.inner == inner,
            r.f == f,
    {
        Self { inner, f }
    }
}

/// The layer that pairs a service of the other side with a request
/// conversion, as [`Motore`].
#[derive(Clone, Copy)]
pub struct MotoreAdapterLayer<F> {
    pub f: F,
}

impl<F> MotoreAdapterLayer<F> {
    /// Creates the layer from the request conversion `f`.
    pub fn new(f: F) -> (r: Self)
        ensures
            r.f == f,
    {
        MotoreAdapterLayer { f }
    }
}

impl<S, F> Layer<S> for MotoreAdapterLayer<F> {
    type Service = Motore<S, F>;

    open spec fn accepts(&self, inner: S) -> bool {
        true
    }

    open spec fn wraps(&self, inner: S, out: Motore<S, F>) -> bool {
        out.inner == inner && out.f == self.f
    }

    /// Pairs `inner` with this layer's conversion.
    fn layer(self, inner: S) -> (out: Motore<S, F>) {
        Motore::new(inner, self.f)
    }
}

} // verus!
