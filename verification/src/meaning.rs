//! What the terms of the contracts come to, said of the parts of requests, responses and states.

use core::future::Future;
use http::{Extensions, Version};
use vstd::prelude::*;

use crate::external::{
    header_fields, is_default, is_the_default, metadata_fields,
};
use crate::future::{
    enabled, fresh, let_through, refuses, step, worked, Action, Event, FutureView,
};
use crate::interceptor::{can_intercept, intercepts, AsyncInterceptor};
use crate::request::{
    recomposed, same_request, taken_aside, without_body, DecomposedRequest, HttpRequest, Request,
};
use crate::response::{response_enabled, response_step, Kind, ResponseAction, ResponseEvent};
use crate::status::{
    answers, base64, base64_digit, decimal, known_code, percent_encoded, reserved_names,
    status_fields, HttpResponse, Status, MAX_METADATA_NAMES,
};

verus! {

/// The interceptor gets the headers of a request as metadata, each with all its values, and the
/// extensions, and any gRPC request with these will do.
pub proof fn law_interceptor_gets_headers_and_extensions<B>(
    req: HttpRequest<B>,
    given: Request<()>,
)
    ensures
        without_body(req, given) <==> metadata_fields(given.metadata) == header_fields(req.headers)
            && given.extensions == req.extensions,
{
}

/// The URI, the method, the version and the body of a request are taken aside.
pub proof fn law_rest_is_taken_aside<B>(req: HttpRequest<B>)
    ensures
        taken_aside(req).uri == req.uri,
        taken_aside(req).method == req.method,
        taken_aside(req).http_version == req.version,
        taken_aside(req).msg == req.body,
{
}

/// A request is put together of what was taken aside and of the metadata and the extensions that
/// the interceptor handed back, and of nothing else.
pub proof fn law_request_is_put_together_of_both<B>(
    dreq: DecomposedRequest<B>,
    modified_req: Request<()>,
    res: HttpRequest<B>,
)
    ensures
        recomposed(dreq, modified_req, res) <==> {
            &&& res.method == dreq.method
            &&& res.uri == dreq.uri
            &&& res.version == dreq.http_version
            &&& res.body == dreq.msg
            &&& res.extensions == modified_req.extensions
            &&& header_fields(res.headers) == metadata_fields(modified_req.metadata)
        },
{
}

/// Two requests are the same where all six parts agree.
pub proof fn law_same_requests_agree_in_all_parts<B>(a: HttpRequest<B>, b: HttpRequest<B>)
    ensures
        same_request(a, b) <==> {
            &&& a.method == b.method
            &&& a.uri == b.uri
            &&& a.version == b.version
            &&& a.body == b.body
            &&& a.extensions == b.extensions
            &&& header_fields(a.headers) == header_fields(b.headers)
        },
{
}

/// An interceptor can take a request where it can be called with every gRPC request that has the
/// headers of the request as metadata, and its extensions.
pub proof fn law_interceptor_has_to_accept_headers_and_extensions<A: AsyncInterceptor, B>(
    interceptor: A,
    req: HttpRequest<B>,
)
    ensures
        can_intercept(interceptor, req) <==> forall|given: Request<()>|
            #![trigger metadata_fields(given.metadata)]
            metadata_fields(given.metadata) == header_fields(req.headers) && given.extensions
                == req.extensions ==> interceptor.accepts(given),
{
    if can_intercept(interceptor, req) {
        assert forall|given: Request<()>|
            #![trigger metadata_fields(given.metadata)]
            metadata_fields(given.metadata) == header_fields(req.headers) && given.extensions
                == req.extensions implies interceptor.accepts(given) by {
            assert(without_body(req, given));
        }
    }
}

/// The interceptor is called with the headers of the request as metadata, none added and none left
/// out, and with its extensions; the future is one that it gives for that.
pub proof fn law_interceptor_is_called_with_headers_and_extensions<A: AsyncInterceptor, B>(
    before: A,
    req: HttpRequest<B>,
    after: A,
    future: A::Future,
)
    ensures
        intercepts(before, req, after, future) <==> exists|given: Request<()>|
            #![trigger metadata_fields(given.metadata)]
            metadata_fields(given.metadata) == header_fields(req.headers) && given.extensions
                == req.extensions && before.gives(given, &after, future),
{
    if exists|given: Request<()>|
        #![trigger metadata_fields(given.metadata)]
        metadata_fields(given.metadata) == header_fields(req.headers) && given.extensions
            == req.extensions && before.gives(given, &after, future) {
        let given = choose|given: Request<()>|
            #![trigger metadata_fields(given.metadata)]
            metadata_fields(given.metadata) == header_fields(req.headers) && given.extensions
                == req.extensions && before.gives(given, &after, future);
        assert(without_body(req, given));
    }
}

/// A function that is used as an interceptor is called with the request itself, wherever it can be,
/// and what it returns is the interceptor's future.
pub proof fn law_function_is_called_with_the_request<F, U>(
    f: F,
    request: Request<()>,
    after: F,
    future: U,
) where F: FnMut(Request<()>) -> U, U: Future<Output = Result<Request<()>, Status>>
    ensures
        f.accepts(request) <==> call_requires(f, (request,)),
        f.gives(request, &after, future) <==> call_ensures(f, (request,), future),
{
}

/// A default value is one that the type's `default` returns.
pub proof fn law_default_is_what_default_returns<T: Default>(value: T, other: T)
    ensures
        is_default(value) <==> call_ensures(T::default, (), value),
        is_the_default(value) ==> call_ensures(T::default, (), value),
        is_the_default(value) && call_ensures(T::default, (), other) ==> other == value,
        call_ensures(T::default, (), value) && (forall|any: T|
            call_ensures(T::default, (), any) ==> any == value) ==> is_the_default(value),
{
    if call_ensures(T::default, (), other) {
        assert(is_default(other));
    }
}

/// The response future of a service can be polled and can hear of its future at any time, in any
/// order; that of a status can be polled while it has the status.
pub proof fn law_response_future_can_be_polled<F, B, E>(
    future: F,
    status: Status,
    event: ResponseEvent<B, E>,
)
    ensures
        response_enabled(Kind::<F>::Future(future), event),
        response_enabled(Kind::<F>::Status(Some(status)), event) <==> event is Polled,
        !response_enabled(Kind::<F>::Status(None), event),
{
}

/// The response future of a service polls the service's future whenever it is polled, waits exactly
/// where that future does, ends with its result, and stays as it is.
pub proof fn law_response_future_follows_the_service<F, B: Default, E>(
    future: F,
    result: Result<HttpResponse<B>, E>,
    post: Kind<F>,
    action: ResponseAction<B, E>,
)
    ensures
        response_step(Kind::Future(future), ResponseEvent::Polled, post, action) <==> action
            == ResponseAction::<B, E>::PollFuture && post == Kind::Future(future),
        response_step(Kind::Future(future), ResponseEvent::Pending, post, action) <==> action
            == ResponseAction::<B, E>::Pending && post == Kind::Future(future),
        response_step(Kind::Future(future), ResponseEvent::Ready(result), post, action)
            <==> action == ResponseAction::Ready(result) && post == Kind::Future(future),
{
}

/// The response future of a status ends with the response that the status becomes, or hands out
/// that same status where its metadata has too many names, and has no status any more.
pub proof fn law_response_future_answers_with_its_status<F, B: Default, E>(
    status: Status,
    post: Kind<F>,
    action: ResponseAction<B, E>,
)
    requires
        response_step(Kind::<F>::Status(Some(status)), ResponseEvent::Polled, post, action),
    ensures
        post == Kind::<F>::Status(None),
        metadata_fields(status.metadata).dom().len() <= 6550 ==> {
            &&& action matches ResponseAction::Ready(Ok(response))
            &&& response.status == 200
            &&& header_fields(response.headers) == status_fields(status)
            &&& call_ensures(B::default, (), response.body)
            &&& is_the_default::<Version>(response.version)
            &&& is_the_default::<Extensions>(response.extensions)
        },
        metadata_fields(status.metadata).dom().len() > 6550 ==> action
            == ResponseAction::<B, E>::Refuse(status),
{
}

/// A response answers with a status where it has HTTP status 200, the fields of the status, the one
/// default version, the one default extensions, and a default body.
pub proof fn law_answer_by_parts<B: Default>(status: Status, res: HttpResponse<B>)
    ensures
        answers(status, res) <==> {
            &&& res.status == 200
            &&& header_fields(res.headers) == status_fields(status)
            &&& call_ensures(B::default, (), res.body)
            &&& is_the_default::<Version>(res.version)
            &&& is_the_default::<Extensions>(res.extensions)
        },
{
}

/// A status can be answered with up to 6550 names in its metadata.
pub proof fn law_answerable_up_to_the_limit(status: Status)
    ensures
        MAX_METADATA_NAMES == 6550,
        status.is_answerable() <==> metadata_fields(status.metadata).dom().len() <= 6550,
{
}

/// Which fields the answer to a refusal has, and with which values, name by name: the content type,
/// the code, a message and details that are not empty, and those of the metadata that are not
/// reserved and not replaced.
pub proof fn law_fields_of_an_answer(status: Status, name: Seq<char>)
    ensures
        ({
            let own = name == "content-type"@ || name == "grpc-status"@ || (name
                == "grpc-message"@ && status.message@.len() > 0) || (name
                == "grpc-status-details-bin"@ && status.details@.len() > 0);
            let reserved = name == "te"@ || name == "user-agent"@ || name == "content-type"@ || name
                == "grpc-message"@ || name == "grpc-message-type"@ || name == "grpc-status"@;
            &&& status_fields(status).contains_key(name) <==> own || (!reserved && metadata_fields(
                status.metadata,
            ).contains_key(name))
            &&& !own && status_fields(status).contains_key(name) ==> status_fields(status)[name]
                == metadata_fields(status.metadata)[name]
        }),
        status_fields(status)["content-type"@].len() == 1,
        status_fields(status)["content-type"@][0].0.len() == "application/grpc"@.len(),
        forall|k: int|
            0 <= k < "application/grpc"@.len() ==> #[trigger] status_fields(
                status,
            )["content-type"@][0].0[k] == "application/grpc"@[k] as u8,
        !status_fields(status)["content-type"@][0].1,
        status_fields(status)["grpc-status"@] == seq![
            (decimal(known_code(status.code as int)), false),
        ],
        status.message@.len() > 0 ==> status_fields(status)["grpc-message"@] == seq![
            (percent_encoded(vstd::utf8::encode_utf8(status.message@)), false),
        ],
        status.details@.len() > 0 ==> status_fields(status)["grpc-status-details-bin"@] == seq![
            (base64(status.details@), false),
        ],
{
    reveal_strlit("content-type");
    reveal_strlit("grpc-status");
    reveal_strlit("grpc-message");
    reveal_strlit("grpc-status-details-bin");
    assert("content-type"@.len() == 12 && "grpc-status"@.len() == 11);
    assert("content-type"@[0] != "grpc-message"@[0]);
    assert("grpc-message"@.len() == 12 && "grpc-status-details-bin"@.len() == 23);
    assert(reserved_names().contains(name) <==> (name == "te"@ || name == "user-agent"@ || name
        == "content-type"@ || name == "grpc-message"@ || name == "grpc-message-type"@ || name
        == "grpc-status"@));
}

/// A known code is written as it is, any other number as the code for an unknown error, and the
/// digits that are written read as that number, with no zero in front.
pub proof fn law_code_is_written_in_decimal(code: int)
    ensures
        0 <= code <= 16 ==> known_code(code) == code,
        code < 0 || code > 16 ==> known_code(code) == 2,
        0 <= code < 10 ==> decimal(code).len() == 1 && decimal(code)[0] - '0' as u8 == code,
        10 <= code <= 16 ==> {
            &&& decimal(code).len() == 2
            &&& decimal(code)[0] == '1' as u8
            &&& decimal(code)[1] - '0' as u8 == code - 10
        },
{
}

/// Percent-encoding goes byte by byte: what stands before or after a byte makes no difference.
pub proof fn law_percent_encoding_goes_byte_by_byte(a: Seq<u8>, b: Seq<u8>)
    ensures
        percent_encoded(a + b) == percent_encoded(a) + percent_encoded(b),
    decreases a.len(),
{
    if a.len() == 0 {
        assert(a + b =~= b);
        assert(percent_encoded(a) + percent_encoded(b) =~= percent_encoded(b));
    } else {
        law_percent_encoding_goes_byte_by_byte(a.skip(1), b);
        assert((a + b).skip(1) =~= a.skip(1) + b);
        assert(percent_encoded(a + b) =~= percent_encoded(a) + percent_encoded(b));
    }
}

/// A byte stays as it is where it is a printable ASCII character other than the space and eight
/// marks. Any other byte becomes a percent sign and two hexadecimal digits in upper case that read
/// as the byte.
pub proof fn law_percent_encoding_of_a_byte(byte: u8)
    ensures
        ({
            let code = percent_encoded(seq![byte]);
            if '!' as u8 <= byte <= '~' as u8 && byte != '"' as u8 && byte != '#' as u8 && byte
                != '<' as u8 && byte != '>' as u8 && byte != '?' as u8 && byte != '`' as u8 && byte
                != '{' as u8 && byte != '}' as u8 {
                code == seq![byte]
            } else {
                &&& code.len() == 3
                &&& code[0] == '%' as u8
                &&& '0' as u8 <= code[1] <= '9' as u8 || 'A' as u8 <= code[1] <= 'F' as u8
                &&& '0' as u8 <= code[2] <= '9' as u8 || 'A' as u8 <= code[2] <= 'F' as u8
                &&& 16 * (if code[1] <= '9' as u8 {
                    code[1] - '0' as u8
                } else {
                    code[1] - 'A' as u8 + 10
                }) + (if code[2] <= '9' as u8 {
                    code[2] - '0' as u8
                } else {
                    code[2] - 'A' as u8 + 10
                }) == byte
            }
        }),
        percent_encoded(seq![]) == Seq::<u8>::empty(),
{
    assert(seq![byte].skip(1) =~= seq![]);
    assert(percent_encoded(seq![]) =~= seq![]);
}

/// The digits of Base64 are those of the standard alphabet.
pub proof fn law_base64_has_the_standard_alphabet(n: int)
    requires
        0 <= n < 64,
    ensures
        base64_digit(n) as char == "ABCDEFGHIJKLMNOPQRSTUVWXYZabcdefghijklmnopqrstuvwxyz0123456789+/"@[n],
{
    reveal_strlit("ABCDEFGHIJKLMNOPQRSTUVWXYZabcdefghijklmnopqrstuvwxyz0123456789+/");
}

/// Base64 goes by three bytes: each whole number of such groups is written by itself.
pub proof fn law_base64_goes_by_three_bytes(a: Seq<u8>, b: Seq<u8>)
    requires
        a.len() % 3 == 0,
    ensures
        base64(a + b) == base64(a) + base64(b),
    decreases a.len(),
{
    if a.len() == 0 {
        assert(a + b =~= b);
        assert(base64(a) + base64(b) =~= base64(b));
    } else {
        law_base64_goes_by_three_bytes(a.skip(3), b);
        assert((a + b).skip(3) =~= a.skip(3) + b);
        assert(base64(a + b) =~= base64(a) + base64(b));
    }
}

/// The digits of a number of two digits in base 64.
proof fn lemma_two_digits(n: int, d: int, e: int)
    requires
        0 <= d < 64,
        0 <= e < 64,
        n == d * 64 + e,
    ensures
        n / 64 == d,
        n % 64 == e,
{
}

/// The digits of a number of three digits in base 64.
proof fn lemma_three_digits(n: int, d: int, e: int, f: int)
    requires
        0 <= d < 64,
        0 <= e < 64,
        0 <= f < 64,
        n == d * 4096 + e * 64 + f,
    ensures
        n / 4096 == d,
        n / 64 % 64 == e,
        n % 64 == f,
{
    assert(n / 64 == d * 64 + e);
    lemma_two_digits(n / 64, d, e);
}

/// The digits of a number of four digits in base 64.
proof fn lemma_four_digits(n: int, d: int, e: int, f: int, g: int)
    requires
        0 <= d < 64,
        0 <= e < 64,
        0 <= f < 64,
        0 <= g < 64,
        n == d * 262144 + e * 4096 + f * 64 + g,
    ensures
        n / 262144 == d,
        n / 4096 % 64 == e,
        n / 64 % 64 == f,
        n % 64 == g,
{
    assert(n / 4096 == d * 64 + e);
    lemma_two_digits(n / 4096, d, e);
    assert(n / 64 == d * 4096 + e * 64 + f);
    lemma_three_digits(n / 64, d, e, f);
}

/// One, two or three bytes become two, three or four digits: those, in base 64, of the number that
/// the bytes make, with zero bits after the last byte up to a multiple of six.
pub proof fn law_base64_digits_read_as_the_bytes(a: u8, b: u8, c: u8)
    ensures
        base64(seq![]) == Seq::<u8>::empty(),
        ({
            let n = a * 16;
            base64(seq![a]) == seq![base64_digit(n / 64), base64_digit(n % 64)]
        }),
        ({
            let n = (a * 256 + b) * 4;
            base64(seq![a, b]) == seq![
                base64_digit(n / 4096),
                base64_digit(n / 64 % 64),
                base64_digit(n % 64),
            ]
        }),
        ({
            let n = a * 65536 + b * 256 + c;
            base64(seq![a, b, c]) == seq![
                base64_digit(n / 262144),
                base64_digit(n / 4096 % 64),
                base64_digit(n / 64 % 64),
                base64_digit(n % 64),
            ]
        }),
{
    let (x, y, z) = (a as int, b as int, c as int);
    assert(seq![a, b, c].skip(3) =~= seq![]);
    assert(base64(seq![]) =~= seq![]);
    lemma_two_digits(x * 16, x / 4, x % 4 * 16);
    lemma_three_digits((x * 256 + y) * 4, x / 4, x % 4 * 16 + y / 16, y % 16 * 4);
    lemma_four_digits(
        x * 65536 + y * 256 + z,
        x / 4,
        x % 4 * 16 + y / 16,
        y % 16 * 4 + z / 64,
        z % 64,
    );
    assert(base64(seq![a]) =~= seq![base64_digit(x / 4), base64_digit(x % 4 * 16)]);
    assert(base64(seq![a, b]) =~= seq![
        base64_digit(x / 4),
        base64_digit(x % 4 * 16 + y / 16),
        base64_digit(y % 16 * 4),
    ]);
    assert(base64(seq![a, b, c]) =~= seq![
        base64_digit(x / 4),
        base64_digit(x % 4 * 16 + y / 16),
        base64_digit(y % 16 * 4 + z / 64),
        base64_digit(z % 64),
    ]);
}

/// A response future is new where the interceptor's future is there, undecided, with nothing to
/// respond with yet.
pub proof fn law_new_response_by_parts<S, I, F, ReqBody>(
    state: FutureView<S, I, F, ReqBody>,
    dreq: DecomposedRequest<ReqBody>,
)
    ensures
        fresh(state, dreq) <==> state.interceptor_fut is Some && !state.decided && state.inner_fut
            is None && state.dreq == dreq,
{
}

/// Between two events the futures and the wrapped service may change within, but none comes or
/// goes, and what was taken aside, a status that is held, and whether the interceptor has decided
/// stay as they are.
pub proof fn law_work_changes_nothing_else<S, I, F, ReqBody>(
    a: FutureView<S, I, F, ReqBody>,
    b: FutureView<S, I, F, ReqBody>,
)
    ensures
        worked(a, b) <==> {
            &&& a.dreq == b.dreq
            &&& a.decided == b.decided
            &&& a.interceptor_fut is Some <==> b.interceptor_fut is Some
            &&& a.inner_fut is Some <==> b.inner_fut is Some
            &&& a.inner_fut is Some && a.inner_fut->0 is Future ==> b.inner_fut->0 is Future
            &&& a.inner_fut is Some && a.inner_fut->0 is Status ==> b.inner_fut == a.inner_fut
        },
{
}

/// Any response future whose interceptor has not decided can be polled, and can hear that the
/// interceptor's future is not ready, or is ready with any decision, and nothing of the wrapped
/// service.
pub proof fn law_undecided_response_can_go_on<S, I, F, ReqBody, B, E>(
    state: FutureView<S, I, F, ReqBody>,
    event: Event<F, B, E>,
)
    requires
        state.interceptor_fut is Some,
        !state.decided,
    ensures
        enabled(state, event) <==> event is Polled || event is InterceptorPending || event
            is InterceptorReady,
{
}

/// While the wrapped service is being called, the one thing that can happen is that it returns its
/// future, and that may be any.
pub proof fn law_called_service_can_return<S, I, F, ReqBody, B, E>(
    state: FutureView<S, I, F, ReqBody>,
    event: Event<F, B, E>,
)
    requires
        state.interceptor_fut is Some,
        state.decided,
    ensures
        enabled(state, event) <==> event is InnerCalled,
{
}

/// A response future that waits for the wrapped service can be polled at any time, and can hear
/// that the service's future is not ready, or is ready with any result, and nothing of the
/// interceptor.
pub proof fn law_waiting_response_can_go_on<S, I, F, ReqBody, B, E>(
    state: FutureView<S, I, F, ReqBody>,
    event: Event<F, B, E>,
)
    requires
        state.interceptor_fut is None,
        state.inner_fut is Some,
        state.inner_fut->0 is Future,
    ensures
        enabled(state, event) <==> event is Polled || event is InnerPending || event is InnerReady,
{
}

/// A response future that holds a status can be polled, nothing else, and answers with that status.
pub proof fn law_held_status_is_answered_with<S, I, F, ReqBody: Default, B: Default, E>(
    state: FutureView<S, I, F, ReqBody>,
    status: Status,
    event: Event<F, B, E>,
    post: FutureView<S, I, F, ReqBody>,
    action: Action<ReqBody, B, E>,
)
    requires
        state.interceptor_fut is None,
        state.inner_fut == Some(Kind::<F>::Status(Some(status))),
    ensures
        enabled(state, event) <==> event is Polled,
        step(state, Event::<F, B, E>::Polled, post, action) ==> refuses(status, action)
            && post.inner_fut == Some(Kind::<F>::Status(None)),
{
}

/// A response future that holds neither future nor status any more has ended.
pub proof fn law_ended_response_stays_ended<S, I, F, ReqBody, B, E>(
    state: FutureView<S, I, F, ReqBody>,
    event: Event<F, B, E>,
)
    requires
        state.interceptor_fut is None,
        state.inner_fut is None || state.inner_fut == Some(Kind::<F>::Status(None)),
    ensures
        !enabled(state, event),
{
}

/// A poll ends without a response exactly where a future was reported not to be ready, and then
/// nothing has changed: nothing is given up and nothing is made up while waiting.
pub proof fn law_waiting_is_only_for_a_future<S, I, F, ReqBody: Default, B: Default, E>(
    pre: FutureView<S, I, F, ReqBody>,
    event: Event<F, B, E>,
    post: FutureView<S, I, F, ReqBody>,
    action: Action<ReqBody, B, E>,
)
    requires
        enabled(pre, event),
        step(pre, event, post, action),
    ensures
        action is Pending <==> event is InterceptorPending || event is InnerPending,
        action is Pending ==> post == pre,
{
}

/// A poll asks for a future to be polled, whichever is waited for, each time: the interceptor's
/// until it has decided, that of the wrapped service from then on.
pub proof fn law_each_poll_polls_what_is_waited_for<S, I, F, ReqBody: Default, B: Default, E>(
    pre: FutureView<S, I, F, ReqBody>,
    post: FutureView<S, I, F, ReqBody>,
    action: Action<ReqBody, B, E>,
)
    requires
        step(pre, Event::<F, B, E>::Polled, post, action),
    ensures
        pre.interceptor_fut is Some ==> action is PollInterceptor && post == pre,
        pre.interceptor_fut is None && pre.inner_fut is Some && pre.inner_fut->0 is Future ==> action
            is PollInner && post == pre,
{
}

/// What is asked for comes of what was reported: the interceptor's future is polled in a poll only,
/// the wrapped service is called for a request that was let through only, and the response is that
/// of the service or of a status that the interceptor gave.
pub proof fn law_every_action_has_its_cause<S, I, F, ReqBody: Default, B: Default, E>(
    pre: FutureView<S, I, F, ReqBody>,
    event: Event<F, B, E>,
    post: FutureView<S, I, F, ReqBody>,
    action: Action<ReqBody, B, E>,
)
    requires
        enabled(pre, event),
        step(pre, event, post, action),
    ensures
        action is PollInterceptor <==> event is Polled && pre.interceptor_fut is Some,
        action is CallInner <==> (event matches Event::InterceptorReady(Ok(_))),
        action is PollInner ==> event is Polled || event is InnerCalled,
        action matches Action::Ready(result) ==> event == Event::<F, B, E>::InnerReady(result) || (
        event matches Event::InterceptorReady(Err(_))) || (event is Polled
            && pre.interceptor_fut is None && pre.inner_fut->0 is Status),
        action matches Action::Refuse(status) ==> metadata_fields(status.metadata).dom().len()
            > 6550 && (event == Event::<F, B, E>::InterceptorReady(Err(status)) || (event is Polled
            && pre.inner_fut == Some(Kind::<F>::Status(Some(status))))),
{
}

/// The wrapped service goes through every event untouched, and of what was taken aside only the
/// body is ever used up, when the request is sent.
pub proof fn law_events_leave_the_service_and_the_rest_alone<
    S,
    I,
    F,
    ReqBody: Default,
    B: Default,
    E,
>(
    pre: FutureView<S, I, F, ReqBody>,
    event: Event<F, B, E>,
    post: FutureView<S, I, F, ReqBody>,
    action: Action<ReqBody, B, E>,
)
    requires
        enabled(pre, event),
        step(pre, event, post, action),
    ensures
        post.inner == pre.inner,
        post.dreq.uri == pre.dreq.uri,
        post.dreq.method == pre.dreq.method,
        post.dreq.http_version == pre.dreq.http_version,
        action !is CallInner ==> post.dreq.msg == pre.dreq.msg,
        action is CallInner ==> call_ensures(ReqBody::default, (), post.dreq.msg),
        pre.decided ==> post.decided,
        post.decided && !pre.decided ==> event is InterceptorReady,
        event is InterceptorReady ==> post.decided,
{
}

/// The request that is sent has every part that was taken aside, the body among them, and the
/// metadata and the extensions of the decision; the interceptor's future is kept for the time of
/// the call.
pub proof fn law_sent_request_has_all_parts<S, I, F, ReqBody: Default, B: Default, E>(
    pre: FutureView<S, I, F, ReqBody>,
    modified_req: Request<()>,
    post: FutureView<S, I, F, ReqBody>,
    action: Action<ReqBody, B, E>,
)
    requires
        step(pre, Event::<F, B, E>::InterceptorReady(Ok(modified_req)), post, action),
    ensures
        action matches Action::CallInner(request) && {
            &&& request.method == pre.dreq.method
            &&& request.uri == pre.dreq.uri
            &&& request.version == pre.dreq.http_version
            &&& request.body == pre.dreq.msg
            &&& request.extensions == modified_req.extensions
            &&& header_fields(request.headers) == metadata_fields(modified_req.metadata)
        },
        post.interceptor_fut == pre.interceptor_fut,
        post.inner_fut == pre.inner_fut,
{
}

/// The parts of letting a request through, by themselves.
pub proof fn law_letting_through_by_parts<S, I, F, ReqBody: Default>(
    pre: FutureView<S, I, F, ReqBody>,
    modified_req: Request<()>,
    post: FutureView<S, I, F, ReqBody>,
    request: HttpRequest<ReqBody>,
)
    requires
        let_through(pre, modified_req, post, request),
    ensures
        request.method == pre.dreq.method,
        request.uri == pre.dreq.uri,
        request.version == pre.dreq.http_version,
        request.body == pre.dreq.msg,
        request.extensions == modified_req.extensions,
        header_fields(request.headers) == metadata_fields(modified_req.metadata),
        call_ensures(ReqBody::default, (), post.dreq.msg),
        post.dreq.uri == pre.dreq.uri,
        post.dreq.method == pre.dreq.method,
        post.dreq.http_version == pre.dreq.http_version,
        post.interceptor_fut == pre.interceptor_fut,
        post.decided == pre.decided,
        post.inner_fut == pre.inner_fut,
        post.inner == pre.inner,
{
}

/// A refusal ends the poll at once with the status that the interceptor gave: with HTTP status 200,
/// the fields of that status and a default body, or by handing out that very status.
pub proof fn law_refusal_ends_with_the_given_status<S, I, F, ReqBody: Default, B: Default, E>(
    pre: FutureView<S, I, F, ReqBody>,
    status: Status,
    post: FutureView<S, I, F, ReqBody>,
    action: Action<ReqBody, B, E>,
)
    requires
        step(pre, Event::<F, B, E>::InterceptorReady(Err(status)), post, action),
    ensures
        metadata_fields(status.metadata).dom().len() <= 6550 ==> {
            &&& action matches Action::Ready(Ok(response))
            &&& response.status == 200
            &&& header_fields(response.headers) == status_fields(status)
            &&& call_ensures(B::default, (), response.body)
            &&& is_the_default::<Version>(response.version)
            &&& is_the_default::<Extensions>(response.extensions)
        },
        metadata_fields(status.metadata).dom().len() > 6550 ==> action
            == Action::<ReqBody, B, E>::Refuse(status),
        refuses(status, action),
        post.interceptor_fut is None,
        post.inner_fut == Some(Kind::<F>::Status(None)),
{
}

/// Once the wrapped service has been called, its future is what the response waits for, it is
/// polled at once, the interceptor's future is let go, and the result that it is reported to have is
/// the response.
pub proof fn law_service_is_followed_to_its_result<S, I, F, ReqBody: Default, B: Default, E>(
    pre: FutureView<S, I, F, ReqBody>,
    future: F,
    result: Result<HttpResponse<B>, E>,
    post: FutureView<S, I, F, ReqBody>,
    action: Action<ReqBody, B, E>,
)
    ensures
        step(pre, Event::<F, B, E>::InnerCalled(future), post, action) ==> {
            &&& action is PollInner
            &&& post.interceptor_fut is None
            &&& post.inner_fut == Some(Kind::Future(future))
        },
        pre.inner_fut is Some && pre.inner_fut->0 is Future && step(
            pre,
            Event::<F, B, E>::InnerReady(result),
            post,
            action,
        ) ==> action == Action::<ReqBody, B, E>::Ready(result) && post == pre,
        pre.inner_fut is Some && pre.inner_fut->0 is Future && step(
            pre,
            Event::<F, B, E>::InnerPending,
            post,
            action,
        ) ==> action is Pending && post == pre,
{
}

} // verus!
