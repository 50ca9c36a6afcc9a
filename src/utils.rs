//! Choosing between two services, or two layers, of different types.

use vstd::prelude::*;

use crate::layer::{Identity, Layer};
use crate::service::Service;

verus! {

/// One of two services, or layers, fixed when the value is built.
///
/// Both services take the same requests and give the same responses and
/// errors, so the two can stand behind one type; a call goes to the one
/// that is present.
#[derive(Clone, Copy, Debug)]
pub enum Either<A, B> {
    A(A),
    B(B),
}

impl<S, A: Layer<S>, B: Layer<S>> Layer<S> for Either<A, B> {
    type Service = Either<A::Service, B::Service>;

    open spec fn accepts(&self, inner: S) -> bool {
        match self {
            Either::A(l) => l.accepts(inner),
            Either::B(l) => l.accepts(inner),
        }
    }

    open spec fn wraps(&self, inner: S, out: Self::Service) -> bool {
        match (self, out) {
            (Either::A(l), Either::A(o)) => l.wraps(inner, o),
            (Either::B(l), Either::B(o)) => l.wraps(inner, o),
            _ => false,
        }
    }

    /// Applies the layer that is present, and keeps its side.
    fn layer(self, inner: S) -> (out: Self::Service) {
        match self {
            Either::A(layer) => Either::A(layer.layer(inner)),
            Either::B(layer) => Either::B(layer.layer(inner)),
        }
    }
}

impl<Cx, Req, A: Service<Cx, Req>, B: Service<Cx, Req, Response = A::Response, Error = A::Error>> Service<
    Cx,
    Req,
> for Either<A, B> {
    type Response = A::Response;
    type Error = A::Error;

    open spec fn accepts(&self, cx: Cx, req: Req) -> bool {
        match self {
            Either::A(s) => s.accepts(cx, req),
            Either::B(s) => s.accepts(cx, req),
        }
    }

    open spec fn serves(&self, cx: Cx, req: Req, r: Result<Self::Response, Self::Error>) -> bool {
        match self {
            Either::A(s) => s.serves(cx, req, r),
            Either::B(s) => s.serves(cx, req, r),
        }
    }

    /// Calls the service that is present, and only that one.
    fn call(&self, cx: &mut Cx, req: Req) -> (r: Result<Self::Response, Self::Error>) {
        match self {
            Either::A(s) => s.call(cx, req),
            Either::B(s) => s.call(cx, req),
        }
    }
}

/// A call on `Either::A(a)` is a call on `a`, and one on `Either::B(b)` a
/// call on `b`: the other branch plays no part.
pub proof fn lemma_either_dispatch<
    Cx,
    Req,
    A: Service<Cx, Req>,
    B: Service<Cx, Req, Response = A::Response, Error = A::Error>,
>(a: A, b: B, cx: Cx, req: Req, r: Result<A::Response, A::Error>)
    ensures
        Either::<A, B>::A(a).accepts(cx, req) == a.accepts(cx, req),
        Either::<A, B>::A(a).serves(cx, req, r) == a.serves(cx, req, r),
        Either::<A, B>::B(b).accepts(cx, req) == b.accepts(cx, req),
        Either::<A, B>::B(b).serves(cx, req, r) == b.serves(cx, req, r),
{
}

/// Turns an optional layer into a layer: the given one when present, the
/// identity layer otherwise.
pub fn option_layer<L>(layer: Option<L>) -> (r: Either<L, Identity>)
    ensures
        r == match layer {
            Some(l) => Either::<L, Identity>::A(l),
            None => Either::<L, Identity>::B(Identity {}),
        },
{
    match layer {
        Some(l) => Either::A(l),
        None => Either::B(Identity::new()),
    }
}

} // verus!
