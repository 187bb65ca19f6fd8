//! The response of an intercepted service, from the call of the interceptor to the response.

use vstd::prelude::*;

use crate::external::{header_fields, is_default, metadata_fields};
use crate::interceptor::{can_intercept, intercepts, AsyncInterceptor};
use crate::request::{
    decompose, recompose, recomposed, taken_aside, DecomposedRequest, HttpRequest,
    Request,
};
use crate::response::{
    response_enabled, response_step, Kind, ResponseAction, ResponseEvent, ResponseFuture,
};
use crate::status::{answers, HttpResponse, Status};

verus! {

/// What has happened to an [`AsyncResponseFuture`].
#[derive(Debug)]
pub enum Event<F, B, E> {
    /// It is polled.
    Polled,
    /// The interceptor's future was polled and is not ready.
    InterceptorPending,
    /// The interceptor's future was polled and is ready.
    InterceptorReady(Result<Request<()>, Status>),
    /// The wrapped service was called and returned this future.
    InnerCalled(F),
    /// The future of the wrapped service was polled and is not ready.
    InnerPending,
    /// The future of the wrapped service was polled and is ready.
    InnerReady(Result<HttpResponse<B>, E>),
}

/// What an [`AsyncResponseFuture`] wants done.
#[derive(Debug)]
pub enum Action<ReqBody, B, E> {
    /// Poll the interceptor's future, and report the outcome.
    PollInterceptor,
    /// Call the wrapped service with this request, and report its future.
    CallInner(HttpRequest<ReqBody>),
    /// Poll the future of the wrapped service, and report the outcome.
    PollInner,
    /// End the poll: the response is not ready.
    Pending,
    /// End the poll with the response.
    Ready(Result<HttpResponse<B>, E>),
    /// End the poll with the response that this status becomes. The metadata of the status has more
    /// names than it may have for the response to be made here.
    Refuse(Status),
}

/// What follows from the interceptor's decision.
#[derive(Debug)]
pub enum InnerStep<F, ReqBody> {
    /// Call the wrapped service with this request.
    Call(HttpRequest<ReqBody>),
    /// Answer without calling the wrapped service.
    Answer(ResponseFuture<F>),
}

/// Response future for intercepted services.
///
/// Handles the call to the async interceptor, then calls the inner service and wraps the result in
/// [`ResponseFuture`].
#[derive(Debug)]
pub struct AsyncResponseFuture<S, I, F, ReqBody> {
    interceptor_fut: Option<I>,
    decided: bool,
    inner_fut: Option<ResponseFuture<F>>,
    inner: S,
    dreq: DecomposedRequest<ReqBody>,
}

/// What an [`AsyncResponseFuture`] holds.
pub struct FutureView<S, I, F, ReqBody> {
    /// The future of the interceptor, until it is ready and what it decided has been done: it is
    /// kept while the wrapped service is called.
    pub interceptor_fut: Option<I>,
    /// Whether the interceptor has decided.
    pub decided: bool,
    /// The source of the response, once the wrapped service was called or the request refused.
    pub inner_fut: Option<Kind<F>>,
    /// The wrapped service.
    pub inner: S,
    /// What was taken aside of the request.
    pub dreq: DecomposedRequest<ReqBody>,
}

impl<S, I, F, ReqBody> View for AsyncResponseFuture<S, I, F, ReqBody> {
    type V = FutureView<S, I, F, ReqBody>;

    closed spec fn view(&self) -> FutureView<S, I, F, ReqBody> {
        FutureView {
            interceptor_fut: self.interceptor_fut,
            decided: self.decided,
            inner_fut: match self.inner_fut {
                Some(future) => Some(future@),
                None => None,
            },
            inner: self.inner,
            dreq: self.dreq,
        }
    }
}

/// Whether a response future that stands at `state` is new: the interceptor has been called and has
/// not decided, and `dreq` was taken aside.
pub open spec fn fresh<S, I, F, ReqBody>(
    state: FutureView<S, I, F, ReqBody>,
    dreq: DecomposedRequest<ReqBody>,
) -> bool {
    &&& state.interceptor_fut is Some
    &&& !state.decided
    &&& state.inner_fut is None
    &&& state.dreq == dreq
}

/// Whether the work that is done between two events may take `a` to `b`: the futures are polled and
/// the wrapped service is called, and all else stays.
pub open spec fn worked<S, I, F, ReqBody>(
    a: FutureView<S, I, F, ReqBody>,
    b: FutureView<S, I, F, ReqBody>,
) -> bool {
    &&& a.interceptor_fut is Some <==> b.interceptor_fut is Some
    &&& a.decided == b.decided
    &&& match a.inner_fut {
        Some(Kind::Future(_)) => b.inner_fut matches Some(Kind::Future(_)),
        _ => b.inner_fut == a.inner_fut,
    }
    &&& a.dreq == b.dreq
}

/// What an event at the source of the response is to the response future as a whole.
pub open spec fn inner_event<F, B, E>(event: Event<F, B, E>) -> ResponseEvent<B, E> {
    match event {
        Event::InnerPending => ResponseEvent::Pending,
        Event::InnerReady(result) => ResponseEvent::Ready(result),
        _ => ResponseEvent::Polled,
    }
}

/// What an action of the source of the response is to the response future as a whole.
pub open spec fn outer_action<ReqBody, B, E>(action: ResponseAction<B, E>) -> Action<
    ReqBody,
    B,
    E,
> {
    match action {
        ResponseAction::PollFuture => Action::PollInner,
        ResponseAction::Pending => Action::Pending,
        ResponseAction::Ready(result) => Action::Ready(result),
        ResponseAction::Refuse(status) => Action::Refuse(status),
    }
}

/// Whether `event` can happen to a response future that stands at `state`: what it reports was
/// there to be polled or called.
///
/// A response future that has answered with a status cannot be polled again.
pub open spec fn enabled<S, I, F, ReqBody, B, E>(
    state: FutureView<S, I, F, ReqBody>,
    event: Event<F, B, E>,
) -> bool {
    match event {
        Event::Polled => if state.interceptor_fut is Some {
            !state.decided
        } else {
            state.inner_fut matches Some(kind) && response_enabled(kind, inner_event(event))
        },
        Event::InterceptorPending | Event::InterceptorReady(_) => state.interceptor_fut is Some
            && !state.decided,
        Event::InnerCalled(_) => state.interceptor_fut is Some && state.decided,
        Event::InnerPending | Event::InnerReady(_) => state.interceptor_fut is None
            && (state.inner_fut matches Some(kind) && response_enabled(kind, inner_event(event))),
    }
}

/// Whether the interceptor's decision to let the request through takes `pre` to `post` and makes
/// `request` the one for the wrapped service: all that was taken aside is in it, with the metadata
/// and the extensions that the interceptor handed back. A default body stays behind.
pub open spec fn let_through<S, I, F, ReqBody: Default>(
    pre: FutureView<S, I, F, ReqBody>,
    modified_req: Request<()>,
    post: FutureView<S, I, F, ReqBody>,
    request: HttpRequest<ReqBody>,
) -> bool {
    &&& recomposed(pre.dreq, modified_req, request)
    &&& is_default(post.dreq.msg)
    &&& post == FutureView {
        dreq: DecomposedRequest { msg: post.dreq.msg, ..pre.dreq },
        ..pre
    }
}

/// Whether `action` is to answer with `status`: by the response that it becomes, or, where it is not
/// answerable, by handing it out to become one.
pub open spec fn refuses<ReqBody, B: Default, E>(
    status: Status,
    action: Action<ReqBody, B, E>,
) -> bool {
    if status.is_answerable() {
        action matches Action::Ready(Ok(response)) && answers(status, response)
    } else {
        action == Action::<ReqBody, B, E>::Refuse(status)
    }
}

/// Whether `event` takes a response future from `pre` to `post` and makes it want `action`.
pub open spec fn step<S, I, F, ReqBody: Default, B: Default, E>(
    pre: FutureView<S, I, F, ReqBody>,
    event: Event<F, B, E>,
    post: FutureView<S, I, F, ReqBody>,
    action: Action<ReqBody, B, E>,
) -> bool {
    match event {
        Event::Polled if pre.interceptor_fut is Some => {
            &&& post == pre
            &&& action == Action::<ReqBody, B, E>::PollInterceptor
        },
        Event::InterceptorPending => {
            &&& post == pre
            &&& action == Action::<ReqBody, B, E>::Pending
        },
        Event::InterceptorReady(Ok(modified_req)) => {
            &&& action matches Action::CallInner(request)
            &&& let_through(FutureView { decided: true, ..pre }, modified_req, post, request)
        },
        Event::InterceptorReady(Err(status)) => {
            &&& post == FutureView {
                interceptor_fut: None,
                decided: true,
                inner_fut: Some(Kind::Status(None)),
                ..pre
            }
            &&& refuses(status, action)
        },
        Event::InnerCalled(future) => {
            &&& post == FutureView {
                interceptor_fut: None,
                inner_fut: Some(Kind::Future(future)),
                ..pre
            }
            &&& action == Action::<ReqBody, B, E>::PollInner
        },
        _ => {
            &&& post == FutureView { inner_fut: post.inner_fut, ..pre }
            &&& post.inner_fut is Some
            &&& exists|inner_action: ResponseAction<B, E>|
                action == outer_action::<ReqBody, B, E>(inner_action) && #[trigger] response_step(
                    pre.inner_fut->0,
                    inner_event(event),
                    post.inner_fut->0,
                    inner_action,
                )
        },
    }
}

impl<S, I, F, ReqBody> AsyncResponseFuture<S, I, F, ReqBody> {
    /// Hand the request to the interceptor, without its body, and start the response.
    pub fn new<A: AsyncInterceptor<Future = I>>(
        req: HttpRequest<ReqBody>,
        interceptor: &mut A,
        inner: S,
    ) -> (res: Self)
        requires
            can_intercept(*old(interceptor), req),
        ensures
            fresh(res@, taken_aside(req)),
            intercepts(*old(interceptor), req, *final(interceptor), res@.interceptor_fut->0),
            exists|given: Request<()>|
                #![trigger metadata_fields(given.metadata)]
                metadata_fields(given.metadata) == header_fields(req.headers) && given.extensions
                    == req.extensions && (*old(interceptor)).gives(
                    given,
                    &*final(interceptor),
                    res@.interceptor_fut->0,
                ),
            res@.interceptor_fut is Some,
            !res@.decided,
            res@.inner_fut is None,
            res@.dreq.uri == req.uri,
            res@.dreq.method == req.method,
            res@.dreq.http_version == req.version,
            res@.dreq.msg == req.body,
            res@.inner == inner,
    {
        let (dreq, req_without_body) = decompose(req);
        let interceptor_fut = interceptor.call(req_without_body);

        AsyncResponseFuture {
            interceptor_fut: Some(interceptor_fut),
            decided: false,
            inner_fut: None,
            inner,
            dreq,
        }
    }

    /// The interceptor's future.
    pub fn interceptor_fut_mut(&mut self) -> (res: &mut I)
        requires
            old(self)@.interceptor_fut is Some,
        ensures
            old(self)@.interceptor_fut == Some(*res),
            final(self)@ == (FutureView { interceptor_fut: Some(*final(res)), ..old(self)@ }),
            worked(old(self)@, final(self)@),
    {
        match &mut self.interceptor_fut {
            Some(future) => future,
            None => vstd::pervasive::unreached(),
        }
    }

    /// The future of the wrapped service.
    pub fn inner_fut_mut(&mut self) -> (res: &mut F)
        requires
            old(self)@.inner_fut matches Some(Kind::Future(_)),
        ensures
            old(self)@.inner_fut == Some(Kind::Future(*res)),
            final(self)@ == (FutureView {
                inner_fut: Some(Kind::Future(*final(res))),
                ..old(self)@
            }),
            worked(old(self)@, final(self)@),
    {
        match &mut self.inner_fut {
            Some(future) => future.future_mut(),
            None => vstd::pervasive::unreached(),
        }
    }

    /// The wrapped service.
    pub fn inner_mut(&mut self) -> (res: &mut S)
        ensures
            *res == old(self)@.inner,
            final(self)@ == (FutureView { inner: *final(res), ..old(self)@ }),
            worked(old(self)@, final(self)@),
    {
        &mut self.inner
    }
}

impl<S, I, F, ReqBody: Default> AsyncResponseFuture<S, I, F, ReqBody> {
    /// The request for the wrapped service, where the interceptor has let the request through, or
    /// the answer, where it has refused.
    pub fn create_inner_fut(&mut self, intercepted_req: Result<Request<()>, Status>) -> (res:
        InnerStep<F, ReqBody>)
        ensures
            match intercepted_req {
                Ok(modified_req) => res matches InnerStep::Call(request) && let_through(
                    old(self)@,
                    modified_req,
                    final(self)@,
                    request,
                ),
                Err(status) => final(self)@ == old(self)@ && (res matches InnerStep::Answer(future)
                    && future@ == Kind::<F>::Status(Some(status))),
            },
    {
        match intercepted_req {
            Ok(req) => {
                let mut msg = ReqBody::default();
                core::mem::swap(&mut self.dreq.msg, &mut msg);
                let movable_dreq = DecomposedRequest {
                    uri: self.dreq.uri.clone(),
                    method: self.dreq.method.clone(),
                    http_version: self.dreq.http_version,
                    msg,
                };
                InnerStep::Call(recompose(movable_dreq, req))
            },
            Err(status) => InnerStep::Answer(ResponseFuture::status(status)),
        }
    }

    /// Hand an event on to the source of the response.
    fn poll_inner_fut<B: Default, E>(&mut self, event: ResponseEvent<B, E>) -> (action: Action<
        ReqBody,
        B,
        E,
    >)
        requires
            old(self)@.inner_fut matches Some(kind) && response_enabled(kind, event),
        ensures
            final(self)@ == (FutureView { inner_fut: final(self)@.inner_fut, ..old(self)@ }),
            final(self)@.inner_fut is Some,
            exists|inner_action: ResponseAction<B, E>|
                action == outer_action::<ReqBody, B, E>(inner_action) && #[trigger] response_step(
                    old(self)@.inner_fut->0,
                    event,
                    final(self)@.inner_fut->0,
                    inner_action,
                ),
    {
        let inner_action = match &mut self.inner_fut {
            Some(future) => future.poll(event),
            None => vstd::pervasive::unreached(),
        };
        assert(response_step(
            old(self)@.inner_fut->0,
            event,
            self@.inner_fut->0,
            inner_action,
        ));
        match inner_action {
            ResponseAction::PollFuture => Action::PollInner,
            ResponseAction::Pending => Action::Pending,
            ResponseAction::Ready(result) => Action::Ready(result),
            ResponseAction::Refuse(status) => Action::Refuse(status),
        }
    }

    /// Take note of an event, and say what is to be done next.
    pub fn poll<B: Default, E>(&mut self, event: Event<F, B, E>) -> (action: Action<ReqBody, B, E>)
        requires
            enabled(old(self)@, event),
        ensures
            step(old(self)@, event, final(self)@, action),
            event is InterceptorPending || event is InnerPending ==> action is Pending
                && final(self)@ == old(self)@,
            event is Polled && old(self)@.interceptor_fut is Some ==> action is PollInterceptor
                && final(self)@ == old(self)@,
            event is Polled && old(self)@.interceptor_fut is None && (old(self)@.inner_fut matches Some(
                Kind::Future(_),
            )) ==> action is PollInner && final(self)@ == old(self)@,
            event matches Event::InterceptorReady(Ok(modified_req)) ==> (
            action matches Action::CallInner(request) && request.method == old(self)@.dreq.method
                && request.uri == old(self)@.dreq.uri && request.version
                == old(self)@.dreq.http_version && request.body == old(self)@.dreq.msg
                && header_fields(request.headers) == metadata_fields(modified_req.metadata)
                && request.extensions == modified_req.extensions),
            event matches Event::InterceptorReady(Err(status)) ==> refuses(status, action),
            event is InnerCalled ==> action is PollInner,
            event matches Event::InnerReady(result) ==> action == Action::<ReqBody, B, E>::Ready(
                result,
            ) && final(self)@ == old(self)@,
            final(self)@.inner == old(self)@.inner,
    {
        match event {
            Event::Polled => match self.interceptor_fut {
                Some(_) => Action::PollInterceptor,
                None => self.poll_inner_fut(ResponseEvent::Polled),
            },
            Event::InterceptorPending => Action::Pending,
            Event::InterceptorReady(intercepted_req) => {
                let inner_step = self.create_inner_fut(intercepted_req);
                self.decided = true;
                match inner_step {
                    InnerStep::Call(request) => Action::CallInner(request),
                    InnerStep::Answer(future) => {
                        self.inner_fut = Some(future);
                        self.interceptor_fut = None;
                        self.poll_inner_fut(ResponseEvent::Polled)
                    },
                }
            },
            Event::InnerCalled(future) => {
                // The interceptor's future is let go only now that the service has been called.
                self.inner_fut = Some(ResponseFuture::future(future));
                self.interceptor_fut = None;
                self.poll_inner_fut(ResponseEvent::Polled)
            },
            Event::InnerPending => self.poll_inner_fut(ResponseEvent::Pending),
            Event::InnerReady(result) => self.poll_inner_fut(ResponseEvent::Ready(result)),
        }
    }

    /// Whether `event` can happen.
    pub fn accepts<B, E>(&self, event: &Event<F, B, E>) -> (res: bool)
        ensures
            res == enabled(self@, *event),
    {
        match event {
            Event::Polled => if self.interceptor_fut.is_some() {
                !self.decided
            } else {
                match &self.inner_fut {
                    Some(future) => future.accepts(&ResponseEvent::<B, E>::Polled),
                    None => false,
                }
            },
            Event::InterceptorPending | Event::InterceptorReady(_) => self.interceptor_fut.is_some()
                && !self.decided,
            Event::InnerCalled(_) => self.interceptor_fut.is_some() && self.decided,
            Event::InnerPending | Event::InnerReady(_) => self.interceptor_fut.is_none()
                && match &self.inner_fut {
                Some(future) => future.accepts(&ResponseEvent::<B, E>::Pending),
                None => false,
            },
        }
    }

    /// Like [`poll`](Self::poll), for any event: one that cannot happen changes nothing and is
    /// handed back.
    pub fn try_poll<B: Default, E>(&mut self, event: Event<F, B, E>) -> (res: Result<
        Action<ReqBody, B, E>,
        Event<F, B, E>,
    >)
        ensures
            enabled(old(self)@, event) ==> (res matches Ok(action) && step(
                old(self)@,
                event,
                final(self)@,
                action,
            )),
            !enabled(old(self)@, event) ==> res == Err::<Action<ReqBody, B, E>, _>(event)
                && final(self)@ == old(self)@,
            old(self)@.interceptor_fut is Some && !old(self)@.decided && (event is Polled
                || event is InterceptorPending || event is InterceptorReady) ==> res is Ok,
            old(self)@.interceptor_fut is Some && old(self)@.decided && event is InnerCalled ==> res
                is Ok,
            old(self)@.interceptor_fut is None && (old(self)@.inner_fut matches Some(
                Kind::Future(_),
            )) && (event is Polled || event is InnerPending || event is InnerReady) ==> res is Ok,
    {
        if self.accepts(&event) {
            Ok(self.poll(event))
        } else {
            Err(event)
        }
    }
}

} // verus!
