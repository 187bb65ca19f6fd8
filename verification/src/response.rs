//! The response to an intercepted request: that of the wrapped service, or that of the status with
//! which the interceptor refused.

use vstd::prelude::*;

use crate::status::{answers, HttpResponse, Status};

verus! {

/// Where the response comes from.
#[derive(Debug)]
pub enum Kind<F> {
    /// The future of the wrapped service.
    Future(F),
    /// The status with which the request was refused, until it has been made a response.
    Status(Option<Status>),
}

/// What has happened to a [`ResponseFuture`].
#[derive(Debug)]
pub enum ResponseEvent<B, E> {
    /// It is polled.
    Polled,
    /// The future of the wrapped service was polled and is not ready.
    Pending,
    /// The future of the wrapped service was polled and is ready.
    Ready(Result<HttpResponse<B>, E>),
}

/// What a [`ResponseFuture`] wants done.
#[derive(Debug)]
pub enum ResponseAction<B, E> {
    /// Poll the future of the wrapped service, and report the outcome.
    PollFuture,
    /// End the poll: the response is not ready.
    Pending,
    /// End the poll with the response.
    Ready(Result<HttpResponse<B>, E>),
    /// End the poll with the response that this status becomes. The metadata of the status has more
    /// names than it may have for the response to be made here.
    Refuse(Status),
}

/// Response future of a request that the interceptor has let through or refused.
#[derive(Debug)]
pub struct ResponseFuture<F> {
    kind: Kind<F>,
}

impl<F> View for ResponseFuture<F> {
    type V = Kind<F>;

    closed spec fn view(&self) -> Kind<F> {
        self.kind
    }
}

/// Whether `event` can happen to a response future that stands at `kind`.
///
/// One made of a status can be polled once only, and has no future that could be polled.
pub open spec fn response_enabled<F, B, E>(kind: Kind<F>, event: ResponseEvent<B, E>) -> bool {
    match kind {
        Kind::Future(_) => true,
        Kind::Status(Some(_)) => event is Polled,
        Kind::Status(None) => false,
    }
}

/// Whether `event` takes a response future from `pre` to `post` and makes it want `action`.
///
/// The result of the wrapped service is passed on as it is. A status becomes the response that
/// answers with it, or, where it is not answerable, is handed out to become one.
pub open spec fn response_step<F, B: Default, E>(
    pre: Kind<F>,
    event: ResponseEvent<B, E>,
    post: Kind<F>,
    action: ResponseAction<B, E>,
) -> bool {
    match pre {
        Kind::Future(_) => {
            &&& post == pre
            &&& action == match event {
                ResponseEvent::Polled => ResponseAction::PollFuture,
                ResponseEvent::Pending => ResponseAction::Pending,
                ResponseEvent::Ready(result) => ResponseAction::Ready(result),
            }
        },
        Kind::Status(status) => {
            &&& post == Kind::<F>::Status(None)
            &&& if status->0.is_answerable() {
                action matches ResponseAction::Ready(Ok(response)) && answers(status->0, response)
            } else {
                action == ResponseAction::<B, E>::Refuse(status->0)
            }
        },
    }
}

impl<F> ResponseFuture<F> {
    /// The response future that waits for the wrapped service.
    pub fn future(future: F) -> (res: Self)
        ensures
            res@ == Kind::Future(future),
    {
        ResponseFuture { kind: Kind::Future(future) }
    }

    /// The response future that answers with a status.
    pub fn status(status: Status) -> (res: Self)
        ensures
            res@ == Kind::<F>::Status(Some(status)),
    {
        ResponseFuture { kind: Kind::Status(Some(status)) }
    }

    /// The future of the wrapped service.
    pub fn future_mut(&mut self) -> (res: &mut F)
        requires
            old(self)@ is Future,
        ensures
            old(self)@ == Kind::Future(*res),
            final(self)@ == Kind::Future(*final(res)),
    {
        match &mut self.kind {
            Kind::Future(future) => future,
            Kind::Status(_) => vstd::pervasive::unreached(),
        }
    }

    /// Whether `event` can happen.
    pub fn accepts<B, E>(&self, event: &ResponseEvent<B, E>) -> (res: bool)
        ensures
            res == response_enabled(self@, *event),
    {
        match &self.kind {
            Kind::Future(_) => true,
            Kind::Status(Some(_)) => matches!(event, ResponseEvent::Polled),
            Kind::Status(None) => false,
        }
    }

    /// Take note of an event, and say what is to be done next.
    pub fn poll<B: Default, E>(&mut self, event: ResponseEvent<B, E>) -> (action: ResponseAction<
        B,
        E,
    >)
        requires
            response_enabled(old(self)@, event),
        ensures
            response_step(old(self)@, event, final(self)@, action),
            old(self)@ is Future ==> final(self)@ == old(self)@,
            old(self)@ is Future ==> action == match event {
                ResponseEvent::Polled => ResponseAction::<B, E>::PollFuture,
                ResponseEvent::Pending => ResponseAction::Pending,
                ResponseEvent::Ready(result) => ResponseAction::Ready(result),
            },
    {
        match &mut self.kind {
            Kind::Future(_) => match event {
                ResponseEvent::Polled => ResponseAction::PollFuture,
                ResponseEvent::Pending => ResponseAction::Pending,
                ResponseEvent::Ready(result) => ResponseAction::Ready(result),
            },
            Kind::Status(status) => {
                let status = status.take().unwrap();
                if status.answerable() {
                    ResponseAction::Ready(Ok(status.into_http()))
                } else {
                    ResponseAction::Refuse(status)
                }
            },
        }
    }
}

} // verus!
