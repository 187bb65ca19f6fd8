//! An interceptor that is ready at once, held against tonic's own interceptor, which is not async.

use std::cell::RefCell;
use std::future::{self, Future, Ready};
use std::pin::Pin;
use std::rc::Rc;
use std::sync::Arc;
use std::task::{Context, Poll, Wake, Waker};

use bytes::Bytes;
use http_body_util::Empty;
use tonic::service::interceptor::InterceptedService;
use tonic_async_interceptor::{
    Action, AsyncInterceptedService, Event, HttpRequest, HttpResponse, Request, Status,
};
use tower_service::Service;

type Plain = fn(tonic::Request<()>) -> Result<tonic::Request<()>, tonic::Status>;
type Reply = Result<http::Response<Empty<Bytes>>, tonic::Status>;

struct Noop;

impl Wake for Noop {
    fn wake(self: Arc<Self>) {}
}

/// What a request looks like to a service, and what a response looks like to its client.
type Seen = (String, String, http::Version, http::HeaderMap, Option<u32>);
type Answer = Result<(u16, http::Version, http::HeaderMap), tonic::Code>;

/// A service that writes down the requests that it gets.
#[derive(Clone)]
struct Recorder {
    seen: Rc<RefCell<Vec<Seen>>>,
    fails: bool,
}

impl Service<http::Request<Empty<Bytes>>> for Recorder {
    type Response = http::Response<Empty<Bytes>>;
    type Error = tonic::Status;
    type Future = Ready<Reply>;

    fn poll_ready(&mut self, _: &mut Context<'_>) -> Poll<Result<(), tonic::Status>> {
        Poll::Ready(Ok(()))
    }

    fn call(&mut self, req: http::Request<Empty<Bytes>>) -> Self::Future {
        self.seen.borrow_mut().push((
            req.method().to_string(),
            req.uri().to_string(),
            req.version(),
            req.headers().clone(),
            req.extensions().get::<u32>().copied(),
        ));
        if self.fails {
            return future::ready(Err(tonic::Status::aborted("failed")));
        }
        let mut response = http::Response::new(Empty::new());
        *response.status_mut() = http::StatusCode::CREATED;
        response
            .headers_mut()
            .insert("x-reply", http::HeaderValue::from_static("yes"));
        future::ready(Ok(response))
    }
}

fn request() -> http::Request<Empty<Bytes>> {
    http::Request::builder()
        .method(http::Method::POST)
        .uri("http://host.test/service/method")
        .version(http::Version::HTTP_2)
        .header("user-agent", "test")
        .header("te", "trailers")
        .header("x-many", "1")
        .header("x-many", "2")
        .extension(5u32)
        .body(Empty::new())
        .unwrap()
}

fn through_tonic(service: Recorder, interceptor: Plain) -> Answer {
    let waker = Waker::from(Arc::new(Noop));
    let mut cx = Context::from_waker(&waker);
    let mut future = Box::pin(InterceptedService::new(service, interceptor).call(request()));
    match future.as_mut().poll(&mut cx) {
        Poll::Ready(Ok(res)) => Ok((res.status().as_u16(), res.version(), res.headers().clone())),
        Poll::Ready(Err(status)) => Err(status.code()),
        Poll::Pending => panic!("everything is ready at once"),
    }
}

fn through_the_library(service: Recorder, interceptor: Plain) -> Answer {
    let waker = Waker::from(Arc::new(Noop));
    let mut cx = Context::from_waker(&waker);
    let ready = move |request: Request<()>| {
        let request =
            tonic::Request::from_parts(request.metadata, request.extensions, request.message);
        future::ready(match interceptor(request) {
            Ok(request) => {
                let (metadata, extensions, message) = request.into_parts();
                Ok(Request {
                    metadata,
                    extensions,
                    message,
                })
            }
            Err(status) => Err(Status {
                code: status.code().into(),
                message: status.message().to_owned(),
                details: status.details().to_vec(),
                metadata: status.metadata().clone(),
            }),
        })
    };
    let (parts, body) = request().into_parts();
    let mut response = AsyncInterceptedService::new(service, ready).call(HttpRequest {
        method: parts.method,
        uri: parts.uri,
        version: parts.version,
        headers: parts.headers,
        extensions: parts.extensions,
        body,
    });
    let mut event = Event::Polled;
    loop {
        event = match response.poll::<Empty<Bytes>, tonic::Status>(event) {
            Action::PollInterceptor => {
                match Pin::new(response.interceptor_fut_mut()).poll(&mut cx) {
                    Poll::Ready(decision) => Event::InterceptorReady(decision),
                    Poll::Pending => Event::InterceptorPending,
                }
            }
            Action::CallInner(req) => {
                let mut http_req = http::Request::new(req.body);
                *http_req.method_mut() = req.method;
                *http_req.uri_mut() = req.uri;
                *http_req.version_mut() = req.version;
                *http_req.headers_mut() = req.headers;
                *http_req.extensions_mut() = req.extensions;
                Event::InnerCalled(response.inner_mut().call(http_req))
            }
            Action::PollInner => match Pin::new(response.inner_fut_mut()).poll(&mut cx) {
                Poll::Ready(reply) => Event::InnerReady(reply.map(|res| {
                    let (parts, body) = res.into_parts();
                    HttpResponse {
                        status: parts.status.as_u16(),
                        version: parts.version,
                        headers: parts.headers,
                        extensions: parts.extensions,
                        body,
                    }
                })),
                Poll::Pending => Event::InnerPending,
            },
            Action::Ready(Ok(res)) => return Ok((res.status, res.version, res.headers)),
            Action::Ready(Err(status)) => return Err(status.code()),
            Action::Pending | Action::Refuse(_) => panic!("everything is ready at once"),
        };
    }
}

fn compare(interceptor: Plain, fails: bool) -> (Answer, Vec<Seen>) {
    let by_tonic = Rc::new(RefCell::new(Vec::new()));
    let by_the_library = Rc::new(RefCell::new(Vec::new()));
    let expected = through_tonic(
        Recorder {
            seen: by_tonic.clone(),
            fails,
        },
        interceptor,
    );
    let answer = through_the_library(
        Recorder {
            seen: by_the_library.clone(),
            fails,
        },
        interceptor,
    );
    assert_eq!(answer, expected);
    assert_eq!(by_the_library, by_tonic);
    let seen = by_tonic.borrow().clone();
    (answer, seen)
}

#[test]
fn request_that_is_let_through_is_treated_as_by_a_plain_interceptor() {
    let (answer, seen) = compare(Ok, false);
    assert_eq!(answer.unwrap().0, 201);
    assert_eq!(seen.len(), 1);
    assert_eq!(&seen[0].3, request().headers());
}

#[test]
fn changed_request_is_treated_as_by_a_plain_interceptor() {
    let (_, seen) = compare(
        |mut req| {
            req.metadata_mut().remove("x-many");
            req.metadata_mut().insert("x-new", "n".parse().unwrap());
            req.extensions_mut().insert(6u32);
            Ok(req)
        },
        false,
    );
    assert!(seen[0].3.get("x-many").is_none());
    assert_eq!(seen[0].3["x-new"], "n");
    assert_eq!(seen[0].4, Some(6));
}

#[test]
fn failing_service_is_treated_as_by_a_plain_interceptor() {
    let (answer, seen) = compare(Ok, true);
    assert_eq!(answer.unwrap_err(), tonic::Code::Aborted);
    assert_eq!(seen.len(), 1);
}

#[test]
fn refused_request_is_treated_as_by_a_plain_interceptor() {
    let (answer, seen) = compare(
        |req| {
            let mut metadata = req.into_parts().0;
            metadata.insert("grpc-status", "0".parse().unwrap());
            Err(tonic::Status::with_details_and_metadata(
                tonic::Code::Unauthenticated,
                "who are you?",
                Bytes::from_static(b"some details"),
                metadata,
            ))
        },
        false,
    );
    let (status, version, headers) = answer.unwrap();
    assert_eq!(status, 200);
    assert_eq!(version, http::Version::HTTP_11);
    assert_eq!(headers["grpc-status"], "16");
    assert_eq!(headers["grpc-message"], "who%20are%20you%3F");
    assert!(headers.get("user-agent").is_none());
    assert_eq!(headers.get_all("x-many").iter().count(), 2);
    assert!(seen.is_empty());
}
