//! Wrapping a service by naming the service first.

use vstd::prelude::*;

use crate::layer::Layer;

verus! {

/// Lets a service be wrapped by writing the service first:
/// `svc.layer(l)` is `l.layer(svc)`.
pub trait ServiceLayerExt: Sized {
    /// Wraps `self` with the layer `l`.
    fn layer<L: Layer<Self>>(self, l: L) -> (r: L::Service)
        requires
            l.accepts(self),
        ensures
            l.wraps(self, r),
    ;
}

impl<S> ServiceLayerExt for S {
    fn layer<L: Layer<Self>>(self, l: L) -> (r: L::Service) {
        l.layer(self)
    }
}

} // verus!
