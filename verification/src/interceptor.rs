//! Interceptors, and the layer that puts one in front of a service.

use core::future::Future;
use vstd::prelude::*;

use crate::request::{without_body, HttpRequest, Request};
use crate::service::AsyncInterceptedService;
use crate::status::Status;

verus! {

/// An async gRPC interceptor.
///
/// gRPC interceptors are similar to middleware but have less flexibility. An interceptor allows
/// you to do two main things, one is to add/remove/check items in the metadata of each request.
/// Two, cancel a request with a `Status`.
///
/// Any function that satisfies the bound `FnMut(Request<()>) -> U`, where `U` is a future of a
/// `Result<Request<()>, Status>`, can be used as an `AsyncInterceptor`.
pub trait AsyncInterceptor {
    /// The Future returned by the interceptor.
    type Future: Future<Output = Result<Request<()>, Status>>;

    /// Whether the interceptor can be called with `request`. It always can, unless an implementation
    /// says otherwise.
    open spec fn accepts(&self, request: Request<()>) -> bool {
        true
    }

    /// Whether a call with `request` may return `future` and leave the interceptor as `after`. Any
    /// outcome is possible, unless an implementation says more.
    open spec fn gives(&self, request: Request<()>, after: &Self, future: Self::Future) -> bool {
        true
    }

    /// Intercept a request before it is sent, optionally cancelling it.
    fn call(&mut self, request: Request<()>) -> (future: Self::Future)
        requires
            (*old(self)).accepts(request),
        ensures
            (*old(self)).gives(request, &*final(self), future),
    ;
}

impl<F, U> AsyncInterceptor for F where
    F: FnMut(Request<()>) -> U,
    U: Future<Output = Result<Request<()>, Status>>,
 {
    type Future = U;

    open spec fn accepts(&self, request: Request<()>) -> bool {
        call_requires(*self, (request,))
    }

    open spec fn gives(&self, request: Request<()>, after: &Self, future: U) -> bool {
        call_ensures(*self, (request,), future)
    }

    fn call(&mut self, request: Request<()>) -> (future: U)
        ensures
            call_ensures(*old(self), (request,), future),
    {
        self(request)
    }
}

/// Whether the interceptor can be called with `req` without its body.
pub open spec fn can_intercept<A: AsyncInterceptor, B>(interceptor: A, req: HttpRequest<B>) -> bool {
    forall|given: Request<()>| #[trigger]
        without_body(req, given) ==> interceptor.accepts(given)
}

/// Whether a call of the interceptor `before` with `req` without its body may return `future` and
/// leave the interceptor as `after`.
pub open spec fn intercepts<A: AsyncInterceptor, B>(
    before: A,
    req: HttpRequest<B>,
    after: A,
    future: A::Future,
) -> bool {
    exists|given: Request<()>| #[trigger]
        without_body(req, given) && before.gives(given, &after, future)
}

/// Create a new async interceptor layer.
///
/// See [`AsyncInterceptor`] for more details.
pub fn async_interceptor<F>(f: F) -> (res: AsyncInterceptorLayer<F>) where F: AsyncInterceptor
    ensures
        res.interceptor() == f,
{
    AsyncInterceptorLayer { f }
}

/// A gRPC async interceptor that can be put in front of services, created by calling
/// [`async_interceptor`].
///
/// See [`AsyncInterceptor`] for more details.
#[derive(Debug, Copy)]
pub struct AsyncInterceptorLayer<F> {
    f: F,
}

impl<F: Clone> Clone for AsyncInterceptorLayer<F> {
    fn clone(&self) -> (res: Self)
        ensures
            vstd::pervasive::strictly_cloned(self.interceptor(), res.interceptor()),
    {
        AsyncInterceptorLayer { f: self.f.clone() }
    }
}

impl<F> AsyncInterceptorLayer<F> {
    /// The interceptor of the layer.
    pub closed spec fn interceptor(&self) -> F {
        self.f
    }
}

impl<F: AsyncInterceptor + Clone> AsyncInterceptorLayer<F> {
    /// Wrap `service` so that a clone of the layer's interceptor intercepts its requests.
    pub fn layer<S: Clone>(&self, service: S) -> (res: AsyncInterceptedService<S, F>)
        ensures
            res.service() == service,
            vstd::pervasive::strictly_cloned(self.interceptor(), res.interceptor()),
    {
        AsyncInterceptedService::new(service, self.f.clone())
    }
}

} // verus!
