//! The `Service` trait, and the services that adapt or wrap another.

use std::marker::PhantomData;

use vstd::prelude::*;

verus! {

/// A function from a context and a request to a response or an error.
///
/// A call takes the service by shared reference, so concurrent calls on one
/// instance are possible, and borrows the context for that call alone.
/// `accepts` says which calls the service can take, and `serves` which
/// results a call may resolve to.
pub trait Service<Cx, Req> {
    /// Responses given by the service.
    type Response;
    /// Errors produced by the service.
    type Error;

    /// The service can take a call with context `cx` and request `req`;
    /// unless a service says otherwise, it takes every call.
    open spec fn accepts(&self, cx: Cx, req: Req) -> bool {
        true
    }

    /// A call with context `cx` and request `req` may resolve to `r`;
    /// unless a service says more, any result may come.
    open spec fn serves(&self, cx: Cx, req: Req, r: Result<Self::Response, Self::Error>) -> bool {
        true
    }

    /// Processes the request.
    fn call(&self, cx: &mut Cx, req: Req) -> (r: Result<Self::Response, Self::Error>)
        requires
            self.accepts(*old(cx), req),
        ensures
            self.serves(*old(cx), req, r),
    ;
}

/// A [`Service`] that needs no context, such as one that dials a
/// connection from an address.
pub trait UnaryService<Req> {
    /// Responses given by the service.
    type Response;
    /// Errors produced by the service.
    type Error;

    /// The service can take the request `req`; unless a service says
    /// otherwise, it takes every request.
    open spec fn accepts(&self, req: Req) -> bool {
        true
    }

    /// A call with request `req` may resolve to `r`; unless a service says
    /// more, any result may come.
    open spec fn serves(&self, req: Req, r: Result<Self::Response, Self::Error>) -> bool {
        true
    }

    /// Processes the request.
    fn call(&self, req: Req) -> (r: Result<Self::Response, Self::Error>)
        requires
            self.accepts(req),
        ensures
            self.serves(req, r),
    ;
}

/// Returns a [`ServiceFn`] that serves each call with the function `f`.
pub fn service_fn<F>(f: F) -> (r: ServiceFn<F>)
    ensures
        r.f == f,
{
    ServiceFn { f }
}

/// A [`Service`] implemented by a function or a closure.
#[derive(Clone, Copy)]
pub struct ServiceFn<F> {
    pub f: F,
}

impl<Cx, Req, R, E, F: Fn(&mut Cx, Req) -> Result<R, E>> Service<Cx, Req> for ServiceFn<F> {
    type Response = R;
    type Error = E;

    open spec fn accepts(&self, cx: Cx, req: Req) -> bool {
        forall|c: &mut Cx| *c == cx ==> #[trigger] self.f.requires((c, req))
    }

    open spec fn serves(&self, cx: Cx, req: Req, r: Result<R, E>) -> bool {
        exists|c: &mut Cx| *c == cx && #[trigger] self.f.ensures((c, req), r)
    }

    /// Calls the function with the context and the request.
    fn call(&self, cx: &mut Cx, req: Req) -> (r: Result<R, E>) {
        (self.f)(cx, req)
    }
}

/// The service returned by [`ServiceExt::map_err`]: it passes responses
/// through and converts each error with `f` into an `E`.
pub struct MapErr<S, F, E> {
    pub inner: S,
    pub f: F,
    pub error: PhantomData<E>,
}

impl<S: Clone, F: Clone, E> Clone for MapErr<S, F, E> {
    fn clone(&self) -> Self {
        MapErr { inner: self.inner.clone(), f: self.f.clone(), error: PhantomData }
    }
}

impl<Cx, Req, S: Service<Cx, Req>, F: Fn(S::Error) -> E, E> Service<Cx, Req> for MapErr<S, F, E> {
    type Response = S::Response;
    type Error = E;

    open spec fn accepts(&self, cx: Cx, req: Req) -> bool {
        &&& self.inner.accepts(cx, req)
        &&& forall|e: S::Error| #[trigger] self.f.requires((e,))
    }

    open spec fn serves(&self, cx: Cx, req: Req, r: Result<S::Response, E>) -> bool {
        match r {
            Ok(v) => self.inner.serves(cx, req, Ok(v)),
            Err(e) => exists|inner_e: S::Error|
                self.f.ensures((inner_e,), e) && #[trigger] self.inner.serves(cx, req, Err(inner_e)),
        }
    }

    /// Calls the inner service; a response comes back as it is, an error
    /// goes through `f` once.
    fn call(&self, cx: &mut Cx, req: Req) -> (r: Result<S::Response, E>) {
        match self.inner.call(cx, req) {
            Ok(v) => Ok(v),
            Err(e) => {
                let mapped = (self.f)(e);
                assert(self.f.ensures((e,), mapped) && self.inner.serves(*old(cx), req, Err(e)));
                Err(mapped)
            },
        }
    }
}

/// The service returned by [`ServiceExt::map_response`]: it converts each
/// response with `f` into an `R` and passes errors through.
pub struct MapResponse<S, F, R> {
    pub inner: S,
    pub f: F,
    pub response: PhantomData<R>,
}

impl<S: Clone, F: Clone, R> Clone for MapResponse<S, F, R> {
    fn clone(&self) -> Self {
        MapResponse { inner: self.inner.clone(), f: self.f.clone(), response: PhantomData }
    }
}

impl<Cx, Req, S: Service<Cx, Req>, F: Fn(S::Response) -> R, R> Service<Cx, Req> for MapResponse<
    S,
    F,
    R,
> {
    type Response = R;
    type Error = S::Error;

    open spec fn accepts(&self, cx: Cx, req: Req) -> bool {
        &&& self.inner.accepts(cx, req)
        &&& forall|v: S::Response| #[trigger] self.f.requires((v,))
    }

    open spec fn serves(&self, cx: Cx, req: Req, r: Result<R, S::Error>) -> bool {
        match r {
            Ok(v) => exists|inner_v: S::Response|
                self.f.ensures((inner_v,), v) && #[trigger] self.inner.serves(cx, req, Ok(inner_v)),
            Err(e) => self.inner.serves(cx, req, Err(e)),
        }
    }

    /// Calls the inner service; a response goes through `f` once, an error
    /// comes back as it is.
    fn call(&self, cx: &mut Cx, req: Req) -> (r: Result<R, S::Error>) {
        match self.inner.call(cx, req) {
            Ok(v) => {
                let mapped = (self.f)(v);
                assert(self.f.ensures((v,), mapped) && self.inner.serves(*old(cx), req, Ok(v)));
                Ok(mapped)
            },
            Err(e) => Err(e),
        }
    }
}

/// [`MapErr`] leaves every response of the inner service as it is, and
/// every error it gives is the conversion by `f` of one error of the inner
/// service.
pub proof fn lemma_map_err_pure<Cx, Req, S: Service<Cx, Req>, F: Fn(S::Error) -> E, E>(
    m: MapErr<S, F, E>,
    cx: Cx,
    req: Req,
    v: S::Response,
    e: E,
)
    ensures
        m.serves(cx, req, Ok(v)) == m.inner.serves(cx, req, Ok(v)),
        m.serves(cx, req, Err(e)) == exists|inner_e: S::Error|
            m.f.ensures((inner_e,), e) && #[trigger] m.inner.serves(cx, req, Err(inner_e)),
{
}

/// [`MapResponse`] leaves every error of the inner service as it is, and
/// every response it gives is the conversion by `f` of one response of the
/// inner service.
pub proof fn lemma_map_response_pure<Cx, Req, S: Service<Cx, Req>, F: Fn(S::Response) -> R, R>(
    m: MapResponse<S, F, R>,
    cx: Cx,
    req: Req,
    v: R,
    e: S::Error,
)
    ensures
        m.serves(cx, req, Err(e)) == m.inner.serves(cx, req, Err(e)),
        m.serves(cx, req, Ok(v)) == exists|inner_v: S::Response|
            m.f.ensures((inner_v,), v) && #[trigger] m.inner.serves(cx, req, Ok(inner_v)),
{
}

/// Adapters available on every [`Service`].
pub trait ServiceExt<Cx, Req>: Service<Cx, Req> + Sized {
    /// Wraps the service so that its errors are converted by `f`.
    fn map_err<E, F: Fn(Self::Error) -> E>(self, f: F) -> (r: MapErr<Self, F, E>)
        ensures
            r.inner == self,
            r.f == f,
    ;

    /// Wraps the service so that its responses are converted by `f`.
    fn map_response<F: Fn(Self::Response) -> Response, Response>(self, f: F) -> (r: MapResponse<
        Self,
        F,
        Response,
    >)
        ensures
            r.inner == self,
            r.f == f,
    ;
}

impl<T: Service<Cx, Req>, Cx, Req> ServiceExt<Cx, Req> for T {
    fn map_err<E, F: Fn(Self::Error) -> E>(self, f: F) -> (r: MapErr<Self, F, E>) {
        MapErr { inner: self, f, error: PhantomData }
    }

    fn map_response<F: Fn(Self::Response) -> Response, Response>(self, f: F) -> (r: MapResponse<
        Self,
        F,
        Response,
    >) {
        MapResponse { inner: self, f, response: PhantomData }
    }
}

} // verus!
