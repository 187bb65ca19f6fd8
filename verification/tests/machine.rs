//! Single steps of taking requests apart and of the response futures.

use std::future::{self, Ready};

use tonic::metadata::MetadataMap;
use tonic_async_interceptor::{
    decompose, recompose, request_from_parts, request_into_http, request_into_parts, Action,
    AsyncResponseFuture, DecomposedRequest, Event, HttpRequest, HttpResponse, InnerStep, Request,
    ResponseAction, ResponseEvent, ResponseFuture, Status, MAX_METADATA_NAMES,
};

type Decision = Result<Request<()>, Status>;
type Machine = AsyncResponseFuture<&'static str, Ready<Decision>, u8, String>;

fn request() -> HttpRequest<String> {
    let mut headers = http::HeaderMap::new();
    headers.insert("x-a", http::HeaderValue::from_static("1"));
    let mut extensions = http::Extensions::new();
    extensions.insert(4u8);
    HttpRequest {
        method: http::Method::PUT,
        uri: http::Uri::from_static("/path"),
        version: http::Version::HTTP_10,
        headers,
        extensions,
        body: "body".to_owned(),
    }
}

fn refusal() -> Status {
    Status {
        code: 9,
        message: "no".to_owned(),
        details: Vec::new(),
        metadata: MetadataMap::new(),
    }
}

fn response(status: u16) -> HttpResponse<String> {
    HttpResponse {
        status,
        version: http::Version::HTTP_2,
        headers: http::HeaderMap::new(),
        extensions: http::Extensions::new(),
        body: "answer".to_owned(),
    }
}

/// A new response future, and the request that the interceptor was given.
fn machine() -> (Machine, Request<()>) {
    let mut given = None;
    let machine = {
        let mut interceptor = |request: Request<()>| {
            given = Some(request);
            future::ready(Err::<Request<()>, Status>(refusal()))
        };
        AsyncResponseFuture::new(request(), &mut interceptor, "service")
    };
    (machine, given.unwrap())
}

fn step(machine: &mut Machine, event: Event<u8, String, i8>) -> Action<String, String, i8> {
    match machine.try_poll(event) {
        Ok(action) => action,
        Err(event) => panic!("{event:?} cannot happen"),
    }
}

#[test]
fn decompose_takes_aside_all_but_metadata_and_extensions() {
    let (dreq, given) = decompose(request());
    assert_eq!(dreq.uri, "/path");
    assert_eq!(dreq.method, http::Method::PUT);
    assert_eq!(dreq.http_version, http::Version::HTTP_10);
    assert_eq!(dreq.msg, "body");
    assert_eq!(given.metadata.get("x-a").unwrap(), "1");
    assert_eq!(given.metadata.len(), 1);
    assert_eq!(given.extensions.get::<u8>(), Some(&4));
}

#[test]
fn recompose_puts_the_parts_together() {
    let dreq = DecomposedRequest {
        uri: http::Uri::from_static("/other"),
        method: http::Method::DELETE,
        http_version: http::Version::HTTP_3,
        msg: 77u64,
    };
    let mut metadata = MetadataMap::new();
    metadata.insert("user-agent", "kept".parse().unwrap());
    let mut extensions = http::Extensions::new();
    extensions.insert("ext");
    let res = recompose(dreq, request_from_parts((), metadata, extensions));
    assert_eq!(res.uri, "/other");
    assert_eq!(res.method, http::Method::DELETE);
    assert_eq!(res.version, http::Version::HTTP_3);
    assert_eq!(res.headers["user-agent"], "kept");
    assert_eq!(res.headers.len(), 1);
    assert_eq!(res.extensions.get::<&str>(), Some(&"ext"));
    assert_eq!(res.body, 77);
}

#[test]
fn parts_of_a_request_come_out_as_they_went_in() {
    let mut metadata = MetadataMap::new();
    metadata.insert("x-b", "2".parse().unwrap());
    let mut extensions = http::Extensions::new();
    extensions.insert(6i64);
    let (metadata, extensions, msg) = request_into_parts(request_from_parts("m", metadata, extensions));
    assert_eq!(msg, "m");
    let res = request_into_http(
        msg,
        http::Uri::from_static("/u"),
        http::Method::HEAD,
        http::Version::HTTP_09,
        metadata,
        extensions,
    );
    assert_eq!(res.headers["x-b"], "2");
    assert_eq!(res.extensions.get::<i64>(), Some(&6));
    assert_eq!(res.uri, "/u");
    assert_eq!(res.method, http::Method::HEAD);
    assert_eq!(res.version, http::Version::HTTP_09);
    assert_eq!(res.body, "m");
}

#[test]
fn request_that_is_let_through_goes_to_the_service() {
    let (mut machine, mut given) = machine();
    assert_eq!(given.metadata.get("x-a").unwrap(), "1");
    assert!(matches!(step(&mut machine, Event::Polled), Action::PollInterceptor));
    assert!(matches!(step(&mut machine, Event::InterceptorPending), Action::Pending));
    assert!(matches!(step(&mut machine, Event::Polled), Action::PollInterceptor));

    given.metadata.insert("x-b", "2".parse().unwrap());
    match step(&mut machine, Event::InterceptorReady(Ok(given))) {
        Action::CallInner(req) => {
            assert_eq!(req.method, http::Method::PUT);
            assert_eq!(req.uri, "/path");
            assert_eq!(req.version, http::Version::HTTP_10);
            assert_eq!(req.headers["x-a"], "1");
            assert_eq!(req.headers["x-b"], "2");
            assert_eq!(req.extensions.get::<u8>(), Some(&4));
            assert_eq!(req.body, "body");
        }
        action => panic!("{action:?}"),
    }
    assert_eq!(*machine.inner_mut(), "service");

    assert!(matches!(step(&mut machine, Event::InnerCalled(3)), Action::PollInner));
    assert_eq!(*machine.inner_fut_mut(), 3);
    assert!(matches!(step(&mut machine, Event::InnerPending), Action::Pending));
    assert!(matches!(step(&mut machine, Event::Polled), Action::PollInner));
    match step(&mut machine, Event::InnerReady(Ok(response(404)))) {
        Action::Ready(Ok(res)) => {
            assert_eq!(res.status, 404);
            assert_eq!(res.version, http::Version::HTTP_2);
            assert_eq!(res.body, "answer");
        }
        action => panic!("{action:?}"),
    }
}

#[test]
fn error_of_the_service_is_handed_on() {
    let (mut machine, given) = machine();
    step(&mut machine, Event::InterceptorReady(Ok(given)));
    step(&mut machine, Event::InnerCalled(0));
    assert!(matches!(step(&mut machine, Event::InnerReady(Err(-4))), Action::Ready(Err(-4))));
}

#[test]
fn refused_request_is_answered_once() {
    let (mut machine, _) = machine();
    match step(&mut machine, Event::InterceptorReady(Err(refusal()))) {
        Action::Ready(Ok(res)) => {
            assert_eq!(res.status, 200);
            assert_eq!(res.headers["grpc-status"], "9");
            assert_eq!(res.headers["grpc-message"], "no");
            assert_eq!(res.body, "");
        }
        action => panic!("{action:?}"),
    }
    assert!(machine.try_poll::<String, i8>(Event::Polled).is_err());
    assert!(machine.try_poll::<String, i8>(Event::InnerCalled(1)).is_err());
    assert!(machine.try_poll::<String, i8>(Event::InnerPending).is_err());
}

#[test]
fn events_that_cannot_happen_are_handed_back() {
    let (mut machine, given) = machine();
    match machine.try_poll::<String, i8>(Event::InnerCalled(5)) {
        Err(Event::InnerCalled(5)) => {}
        other => panic!("{other:?}"),
    }
    assert!(machine.try_poll::<String, i8>(Event::InnerPending).is_err());
    assert!(machine.try_poll::<String, i8>(Event::InnerReady(Err(1))).is_err());
    assert!(matches!(step(&mut machine, Event::InterceptorReady(Ok(given))), Action::CallInner(_)));
    assert!(!machine.accepts::<String, i8>(&Event::Polled));
    assert!(!machine.accepts::<String, i8>(&Event::InterceptorPending));
    assert!(!machine.accepts::<String, i8>(&Event::InterceptorReady(Err(refusal()))));
    assert!(machine.accepts::<String, i8>(&Event::InnerCalled(5)));
}

fn refusal_with_too_many_names() -> Status {
    let mut status = refusal();
    for n in 0..=MAX_METADATA_NAMES {
        let name: tonic::metadata::AsciiMetadataKey = format!("x-{n}").parse().unwrap();
        status.metadata.insert(name, "1".parse().unwrap());
    }
    status
}

#[test]
fn refusal_with_too_many_names_is_handed_out_to_be_answered() {
    let (mut machine, _) = machine();
    match step(&mut machine, Event::InterceptorReady(Err(refusal_with_too_many_names()))) {
        Action::Refuse(status) => {
            assert_eq!(status.code, 9);
            assert_eq!(status.message, "no");
            assert_eq!(status.metadata.len(), MAX_METADATA_NAMES + 1);
        }
        _ => panic!("the status is not handed out"),
    }
    assert!(machine.try_poll::<String, i8>(Event::Polled).is_err());
    assert!(machine.try_poll::<String, i8>(Event::InterceptorPending).is_err());

    let mut future: ResponseFuture<u8> = ResponseFuture::status(refusal_with_too_many_names());
    assert!(future.accepts::<String, i8>(&ResponseEvent::Polled));
    match future.poll::<String, i8>(ResponseEvent::Polled) {
        ResponseAction::Refuse(status) => {
            assert_eq!(status.metadata.keys_len(), MAX_METADATA_NAMES + 1);
        }
        _ => panic!("the status is not handed out"),
    }
    assert!(!future.accepts::<String, i8>(&ResponseEvent::Polled));
}

#[test]
fn decision_makes_a_request_or_an_answer() {
    let (mut machine, given) = machine();
    match machine.create_inner_fut(Err(refusal())) {
        InnerStep::Answer(answer) => {
            assert!(answer.accepts::<String, i8>(&ResponseEvent::Polled));
            assert!(!answer.accepts::<String, i8>(&ResponseEvent::Pending));
        }
        other => panic!("{other:?}"),
    }
    match machine.create_inner_fut(Ok(given)) {
        InnerStep::Call(req) => assert_eq!(req.body, "body"),
        other => panic!("{other:?}"),
    }
}

#[test]
fn response_future_of_a_service_passes_everything_on() {
    let mut future = ResponseFuture::future(8u8);
    assert_eq!(*future.future_mut(), 8);
    assert!(matches!(
        future.poll::<String, i8>(ResponseEvent::Polled),
        ResponseAction::PollFuture
    ));
    assert!(matches!(
        future.poll::<String, i8>(ResponseEvent::Pending),
        ResponseAction::Pending
    ));
    assert!(matches!(
        future.poll::<String, i8>(ResponseEvent::Ready(Err(2))),
        ResponseAction::Ready(Err(2))
    ));
}

#[test]
fn response_future_of_a_status_answers() {
    let mut future: ResponseFuture<u8> = ResponseFuture::status(refusal());
    match future.poll::<String, i8>(ResponseEvent::Polled) {
        ResponseAction::Ready(Ok(res)) => assert_eq!(res.headers["grpc-status"], "9"),
        action => panic!("{action:?}"),
    }
    assert!(!future.accepts::<String, i8>(&ResponseEvent::Polled));
}
