//! Composing layers, then applying them to a service.

use std::time::Duration;

use vstd::prelude::*;

use crate::utils::{option_layer, Either};
use crate::layer::{layer_fn, Identity, Layer, LayerFn, MapErrLayer, Stack};
use crate::service::{service_fn, ServiceFn};
use crate::timeout::TimeoutLayer;

verus! {

/// Collects layers one call at a time, then wraps a service in all of them.
///
/// Each added layer becomes the inner part of a new [`Stack`] around the
/// layers added before it: the layer added last is applied to the service
/// first, and the layer added first ends up outermost.
#[derive(Clone, Copy, Debug)]
pub struct ServiceBuilder<L> {
    pub layer: L,
}

impl Default for ServiceBuilder<Identity> {
    fn default() -> (r: Self)
        ensures
            r.layer == (Identity {}),
    {
        Self::new()
    }
}

impl ServiceBuilder<Identity> {
    /// Creates a builder that holds no layer yet.
    pub fn new() -> (r: Self)
        ensures
            r.layer == (Identity {}),
    {
        ServiceBuilder { layer: Identity::new() }
    }
}

impl<L> ServiceBuilder<L> {
    /// Adds `layer`.
    pub fn layer<T>(self, layer: T) -> (r: ServiceBuilder<Stack<T, L>>)
        ensures
            r.layer.inner == layer,
            r.layer.outer == self.layer,
    {
        ServiceBuilder { layer: Stack::new(layer, self.layer) }
    }

    /// Adds `layer` when it is present, and the identity layer otherwise.
    pub fn option_layer<T>(self, layer: Option<T>) -> (r: ServiceBuilder<
        Stack<Either<T, Identity>, L>,
    >)
        ensures
            r.layer.inner == match layer {
                Some(l) => Either::<T, Identity>::A(l),
                None => Either::<T, Identity>::B(Identity {}),
            },
            r.layer.outer == self.layer,
    {
        self.layer(option_layer(layer))
    }

    /// Adds a layer built from the function `f`, from a service to a
    /// service.
    pub fn layer_fn<F>(self, f: F) -> (r: ServiceBuilder<Stack<LayerFn<F>, L>>)
        ensures
            r.layer.inner.f == f,
            r.layer.outer == self.layer,
    {
        self.layer(layer_fn(f))
    }

    /// Adds a layer that fails calls taking longer than `timeout`, when one
    /// is given.
    pub fn timeout(self, timeout: Option<Duration>) -> (r: ServiceBuilder<Stack<TimeoutLayer, L>>)
        ensures
            r.layer.inner.duration == timeout,
            r.layer.outer == self.layer,
    {
        self.layer(TimeoutLayer::new(timeout))
    }

    /// Adds a layer that converts errors with `f`.
    pub fn map_err<F, E>(self, f: F) -> (r: ServiceBuilder<Stack<MapErrLayer<F, E>, L>>)
        ensures
            r.layer.inner.f == f,
            r.layer.outer == self.layer,
    {
        self.layer(MapErrLayer::new(f))
    }

    /// Returns the layers collected so far.
    pub fn into_inner(self) -> (r: L)
        ensures
            r == self.layer,
    {
        self.layer
    }

    /// Wraps `service` in the collected layers.
    pub fn service<S>(self, service: S) -> (r: L::Service) where L: Layer<S>
        requires
            self.layer.accepts(service),
        ensures
            self.layer.wraps(service, r),
    {
        self.layer.layer(service)
    }

    /// Wraps the service made from the function `f` in the collected
    /// layers.
    pub fn service_fn<F>(self, f: F) -> (r: L::Service) where L: Layer<ServiceFn<F>>
        requires
            self.layer.accepts(ServiceFn { f }),
        ensures
            self.layer.wraps(ServiceFn { f }, r),
    {
        self.service(service_fn(f))
    }
}

impl<S, L: Layer<S>> Layer<S> for ServiceBuilder<L> {
    type Service = L::Service;

    open spec fn accepts(&self, inner: S) -> bool {
        self.layer.accepts(inner)
    }

    open spec fn wraps(&self, inner: S, out: L::Service) -> bool {
        self.layer.wraps(inner, out)
    }

    /// Wraps `inner` in the collected layers.
    fn layer(self, inner: S) -> (out: L::Service) {
        self.layer.layer(inner)
    }
}

} // verus!
