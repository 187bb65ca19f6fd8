//! A service with an interceptor in front of it.

use vstd::prelude::*;

use crate::external::{header_fields, metadata_fields};
use crate::future::{fresh, AsyncResponseFuture};
use crate::interceptor::{can_intercept, intercepts, AsyncInterceptor};
use crate::request::{taken_aside, HttpRequest, Request};

verus! {

/// A service wrapped in an async interceptor middleware.
///
/// See [`AsyncInterceptor`] for more details.
#[derive(Copy)]
pub struct AsyncInterceptedService<S, F> {
    inner: S,
    f: F,
}

impl<S: Clone, F: Clone> Clone for AsyncInterceptedService<S, F> {
    fn clone(&self) -> (res: Self)
        ensures
            vstd::pervasive::strictly_cloned(self.service(), res.service()),
            vstd::pervasive::strictly_cloned(self.interceptor(), res.interceptor()),
    {
        AsyncInterceptedService { inner: self.inner.clone(), f: self.f.clone() }
    }
}

impl<S, F> AsyncInterceptedService<S, F> {
    /// The wrapped service.
    pub closed spec fn service(&self) -> S {
        self.inner
    }

    /// The interceptor.
    pub closed spec fn interceptor(&self) -> F {
        self.f
    }

    /// Create a new `AsyncInterceptedService` that wraps `S` and intercepts each request with the
    /// function `F`.
    pub fn new(service: S, f: F) -> (res: Self)
        ensures
            res.service() == service,
            res.interceptor() == f,
    {
        AsyncInterceptedService { inner: service, f }
    }

    /// The wrapped service.
    pub fn inner(&self) -> (res: &S)
        ensures
            *res == self.service(),
    {
        &self.inner
    }

    /// The wrapped service, to be polled for readiness: the service as a whole is ready when the
    /// wrapped one is.
    pub fn inner_mut(&mut self) -> (res: &mut S)
        ensures
            *res == old(self).service(),
            final(self).service() == *final(res),
            final(self).interceptor() == old(self).interceptor(),
    {
        &mut self.inner
    }

    /// Hand the request to the interceptor, without its body, and start the response.
    ///
    /// The wrapped service that was polled for readiness goes with the response; a clone of it
    /// stays behind for the next request.
    pub fn call<Fut, ReqBody>(&mut self, req: HttpRequest<ReqBody>) -> (res: AsyncResponseFuture<
        S,
        F::Future,
        Fut,
        ReqBody,
    >) where F: AsyncInterceptor, S: Clone
        requires
            can_intercept(old(self).interceptor(), req),
        ensures
            vstd::pervasive::strictly_cloned(old(self).service(), final(self).service()),
            res@.inner == old(self).service(),
            fresh(res@, taken_aside(req)),
            intercepts(
                old(self).interceptor(),
                req,
                final(self).interceptor(),
                res@.interceptor_fut->0,
            ),
            exists|given: Request<()>|
                #![trigger metadata_fields(given.metadata)]
                metadata_fields(given.metadata) == header_fields(req.headers) && given.extensions
                    == req.extensions && old(self).interceptor().gives(
                    given,
                    &final(self).interceptor(),
                    res@.interceptor_fut->0,
                ),
            res@.interceptor_fut is Some,
            !res@.decided,
            res@.inner_fut is None,
            res@.dreq.uri == req.uri,
            res@.dreq.method == req.method,
            res@.dreq.http_version == req.version,
            res@.dreq.msg == req.body,
    {
        // The service that is ready is moved into the response, since a clone of it need not be
        // ready.
        let mut inner = self.inner.clone();
        core::mem::swap(&mut self.inner, &mut inner);

        AsyncResponseFuture::new(req, &mut self.f, inner)
    }
}

} // verus!
