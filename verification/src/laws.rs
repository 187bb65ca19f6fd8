//! What holds of intercepted requests as a whole.

use vstd::prelude::*;

use crate::external::{header_fields, is_default, metadata_fields, Fields};
use crate::future::{enabled, fresh, refuses, step, worked, Action, Event, FutureView};
use crate::interceptor::{intercepts, AsyncInterceptor};
use crate::request::{
    recomposed, same_request, taken_aside, without_body, DecomposedRequest, HttpRequest, Request,
};
use crate::response::Kind;
use crate::status::{
    answers, ascii, base64, decimal, known_code, percent_encoded, reserved_names, single,
    HttpResponse, Status,
};

verus! {

/// An interceptor that hands back what it was given changes nothing: the wrapped service gets the
/// request that came in, with all its headers, its extensions, its method, URI, version and body.
pub proof fn law_untouched_request_arrives_unchanged<B>(
    req: HttpRequest<B>,
    given: Request<()>,
    res: HttpRequest<B>,
)
    requires
        without_body(req, given),
        recomposed(taken_aside(req), given, res),
    ensures
        same_request(req, res),
{
}

/// Whatever the interceptor hands back, its metadata and extensions are those that the wrapped
/// service gets, and the method, the URI, the version and the body are those that came in.
pub proof fn law_interceptor_changes_only_metadata_and_extensions<B>(
    req: HttpRequest<B>,
    modified_req: Request<()>,
    res: HttpRequest<B>,
)
    requires
        recomposed(taken_aside(req), modified_req, res),
    ensures
        header_fields(res.headers) == metadata_fields(modified_req.metadata),
        res.extensions == modified_req.extensions,
        res.method == req.method,
        res.uri == req.uri,
        res.version == req.version,
        res.body == req.body,
{
}

/// Whether `name` occurs in both of `a` and `b`, with the same values, or in neither.
pub open spec fn same_field(a: Fields, b: Fields, name: Seq<char>) -> bool {
    &&& a.contains_key(name) <==> b.contains_key(name)
    &&& a.contains_key(name) ==> a[name] == b[name]
}

/// A refusal is a gRPC response that names the code of the status, whatever the metadata of the
/// status holds. It has a message only where the status has one, and the details where the status
/// has some. Every other field of the metadata is in it, unless its name is reserved.
pub proof fn law_refusal_tells_the_status<B: Default>(
    status: Status,
    res: HttpResponse<B>,
    name: Seq<char>,
)
    requires
        answers(status, res),
    ensures
        res.status == 200,
        header_fields(res.headers).contains_pair(
            "content-type"@,
            single(ascii("application/grpc"@)),
        ),
        header_fields(res.headers).contains_pair(
            "grpc-status"@,
            single(decimal(known_code(status.code as int))),
        ),
        status.message@.len() == 0 ==> !header_fields(res.headers).contains_key("grpc-message"@),
        status.message@.len() > 0 ==> header_fields(res.headers).contains_pair(
            "grpc-message"@,
            single(percent_encoded(vstd::utf8::encode_utf8(status.message@))),
        ),
        status.details@.len() > 0 ==> header_fields(res.headers).contains_pair(
            "grpc-status-details-bin"@,
            single(base64(status.details@)),
        ),
        status.details@.len() == 0 ==> same_field(
            header_fields(res.headers),
            metadata_fields(status.metadata),
            "grpc-status-details-bin"@,
        ),
        !reserved_names().contains(name) && name != "grpc-status-details-bin"@ ==> same_field(
            header_fields(res.headers),
            metadata_fields(status.metadata),
            name,
        ),
{
    reveal_strlit("content-type");
    reveal_strlit("grpc-status");
    reveal_strlit("grpc-message");
    reveal_strlit("grpc-status-details-bin");
    assert("content-type"@.len() == 12 && "grpc-status"@.len() == 11);
    assert("content-type"@[0] != "grpc-message"@[0]);
    assert("grpc-message"@.len() == 12 && "grpc-status-details-bin"@.len() == 23);
    assert(reserved_names().contains("content-type"@));
    assert(reserved_names().contains("grpc-status"@));
    assert(reserved_names().contains("grpc-message"@));
    assert(!reserved_names().contains("grpc-status-details-bin"@)) by {
        reveal_strlit("te");
        reveal_strlit("user-agent");
        reveal_strlit("grpc-message-type");
    }
}

/// A course of events at one response future: the states in which the events found it, the events,
/// the states that they left, and the actions that it wanted.
pub struct Course<S, I, F, ReqBody, B, E> {
    pub before: Seq<FutureView<S, I, F, ReqBody>>,
    pub events: Seq<Event<F, B, E>>,
    pub after: Seq<FutureView<S, I, F, ReqBody>>,
    pub actions: Seq<Action<ReqBody, B, E>>,
}

impl<S, I, F, ReqBody: Default, B: Default, E> Course<S, I, F, ReqBody, B, E> {
    /// Whether this is a course of events that a response future can go through from its creation,
    /// with `dreq` taken aside.
    pub open spec fn valid(self, dreq: DecomposedRequest<ReqBody>) -> bool {
        &&& self.before.len() == self.events.len()
        &&& self.after.len() == self.events.len()
        &&& self.actions.len() == self.events.len()
        &&& self.before.len() > 0 ==> fresh(self.before[0], dreq)
        &&& forall|i: int|
            #![trigger self.events[i]]
            0 <= i < self.events.len() ==> enabled(self.before[i], self.events[i]) && step(
                self.before[i],
                self.events[i],
                self.after[i],
                self.actions[i],
            )
        &&& forall|i: int|
            #![trigger self.before[i]]
            0 < i < self.events.len() ==> worked(self.after[i - 1], self.before[i])
    }

    /// Whether event `i` of the course is that the interceptor has let the request through, which
    /// made the response future want the wrapped service called.
    pub open spec fn calls(self, i: int) -> bool {
        &&& 0 <= i < self.events.len()
        &&& self.actions[i] is CallInner
    }
}

/// What holds in the state in which event `i` finds a response future: before the interceptor has
/// decided nothing has happened to what was taken aside; after that the wrapped service is to be
/// called or has been, since nothing can happen any more after a refusal.
proof fn lemma_phases<S, I, F, ReqBody: Default, B: Default, E>(
    course: Course<S, I, F, ReqBody, B, E>,
    dreq: DecomposedRequest<ReqBody>,
    i: int,
)
    requires
        course.valid(dreq),
        0 <= i < course.events.len(),
    ensures
        !course.before[i].decided ==> {
            &&& course.before[i].interceptor_fut is Some
            &&& course.before[i].inner_fut is None
            &&& course.before[i].dreq == dreq
            &&& forall|k: int| 0 <= k < i ==> !course.calls(k)
            &&& forall|k: int|
                0 <= k < i ==> (#[trigger] course.events[k]) !is InterceptorReady
        },
        course.before[i].decided ==> {
            &&& course.before[i].interceptor_fut is Some <==> course.before[i].inner_fut is None
            &&& course.before[i].inner_fut is Some ==> course.before[i].inner_fut->0 is Future
            &&& exists|k: int| 0 <= k < i && #[trigger] course.calls(k)
        },
    decreases i,
{
    let event = course.events[i];
    let state = course.before[i];
    if i > 0 {
        lemma_phases(course, dreq, i - 1);
        let last = course.events[i - 1];
        assert(worked(course.after[i - 1], state));
        assert(enabled(course.before[i - 1], last));
        assert(step(course.before[i - 1], last, course.after[i - 1], course.actions[i - 1]));
        assert(enabled(state, event));
        if !course.before[i - 1].decided {
            if state.decided {
                assert(last is InterceptorReady);
                assert(last->InterceptorReady_0 is Ok);
                assert(course.calls(i - 1));
            }
        } else {
            let k = choose|k: int| 0 <= k < i - 1 && #[trigger] course.calls(k);
            assert(course.calls(k));
        }
    }
}

/// The wrapped service is called at most once for a request.
pub proof fn law_service_is_called_at_most_once<S, I, F, ReqBody: Default, B: Default, E>(
    course: Course<S, I, F, ReqBody, B, E>,
    dreq: DecomposedRequest<ReqBody>,
    i: int,
    j: int,
)
    requires
        course.valid(dreq),
        course.calls(i),
        course.calls(j),
    ensures
        i == j,
{
    lemma_phases(course, dreq, i);
    lemma_phases(course, dreq, j);
    assert(enabled(course.before[i], course.events[i]));
    assert(enabled(course.before[j], course.events[j]));
}

/// The wrapped service is called when the interceptor has let the request through, and then only,
/// with the request made of what was taken aside and what the interceptor handed back.
pub proof fn law_service_gets_what_the_interceptor_let_through<S, I, F, ReqBody: Default, B: Default, E>(
    course: Course<S, I, F, ReqBody, B, E>,
    dreq: DecomposedRequest<ReqBody>,
    i: int,
)
    requires
        course.valid(dreq),
        0 <= i < course.events.len(),
    ensures
        course.calls(i) <==> (course.events[i] matches Event::InterceptorReady(Ok(_))),
        course.events[i] matches Event::InterceptorReady(Ok(modified_req)) ==> (
        course.actions[i] matches Action::CallInner(request) && recomposed(
            dreq,
            modified_req,
            request,
        )),
{
    lemma_phases(course, dreq, i);
    assert(enabled(course.before[i], course.events[i]));
}

/// From end to end: where the interceptor hands back the request that it was given, the wrapped
/// service gets the request that came in.
pub proof fn law_interceptor_that_changes_nothing_is_not_noticed<
    S,
    I,
    F,
    ReqBody: Default,
    B: Default,
    E,
>(
    course: Course<S, I, F, ReqBody, B, E>,
    req: HttpRequest<ReqBody>,
    given: Request<()>,
    i: int,
)
    requires
        course.valid(taken_aside(req)),
        without_body(req, given),
        0 <= i < course.events.len(),
        course.events[i] == Event::<F, B, E>::InterceptorReady(Ok(given)),
    ensures
        course.actions[i] matches Action::CallInner(request) && same_request(req, request),
{
    law_service_gets_what_the_interceptor_let_through(course, taken_aside(req), i);
}

/// A refused request is answered at once with the status, it never reaches the wrapped service, and
/// nothing more can happen to its response future.
pub proof fn law_refused_request_never_reaches_the_service<S, I, F, ReqBody: Default, B: Default, E>(
    course: Course<S, I, F, ReqBody, B, E>,
    dreq: DecomposedRequest<ReqBody>,
    i: int,
    status: Status,
)
    requires
        course.valid(dreq),
        0 <= i < course.events.len(),
        course.events[i] == Event::<F, B, E>::InterceptorReady(Err(status)),
    ensures
        refuses(status, course.actions[i]),
        forall|k: int| !course.calls(k),
        i == course.events.len() - 1,
{
    lemma_phases(course, dreq, i);
    assert(enabled(course.before[i], course.events[i]));
    if i + 1 < course.events.len() {
        assert(worked(course.after[i], course.before[i + 1]));
        assert(enabled(course.before[i + 1], course.events[i + 1]));
    }
}

/// A response is that of the wrapped service, unchanged, or the answer to a refusal.
pub proof fn law_response_is_passed_on_unchanged<S, I, F, ReqBody: Default, B: Default, E>(
    course: Course<S, I, F, ReqBody, B, E>,
    dreq: DecomposedRequest<ReqBody>,
    i: int,
    result: Result<HttpResponse<B>, E>,
)
    requires
        course.valid(dreq),
        0 <= i < course.events.len(),
        course.actions[i] == Action::<ReqBody, B, E>::Ready(result),
    ensures
        course.events[i] == Event::<F, B, E>::InnerReady(result) || (
        course.events[i] matches Event::InterceptorReady(Err(status)) && (result matches Ok(response)
            && answers(status, response))),
{
    lemma_phases(course, dreq, i);
    assert(enabled(course.before[i], course.events[i]));
}

/// The future of the wrapped service is polled only after the service was called, and then the
/// interceptor's future is not polled any more.
pub proof fn law_futures_are_polled_in_turn<S, I, F, ReqBody: Default, B: Default, E>(
    course: Course<S, I, F, ReqBody, B, E>,
    dreq: DecomposedRequest<ReqBody>,
    i: int,
)
    requires
        course.valid(dreq),
        0 <= i < course.events.len(),
    ensures
        course.actions[i] is PollInner ==> exists|k: int| 0 <= k < i && #[trigger] course.calls(k),
        course.actions[i] is PollInterceptor ==> forall|k: int|
            0 <= k < i ==> (#[trigger] course.events[k]) !is InterceptorReady && !course.calls(k),
{
    lemma_phases(course, dreq, i);
    assert(enabled(course.before[i], course.events[i]));
}

/// The interceptor's future lives until the wrapped service has been called, and no longer.
pub proof fn law_interceptor_future_outlives_the_call<S, I, F, ReqBody: Default, B: Default, E>(
    course: Course<S, I, F, ReqBody, B, E>,
    dreq: DecomposedRequest<ReqBody>,
    i: int,
)
    requires
        course.valid(dreq),
        0 <= i < course.events.len(),
    ensures
        course.calls(i) ==> course.after[i].interceptor_fut is Some
            && course.after[i].interceptor_fut == course.before[i].interceptor_fut,
        course.events[i] is InnerCalled ==> course.before[i].interceptor_fut is Some
            && course.after[i].interceptor_fut is None,
        course.actions[i] is PollInner || course.actions[i] is Ready
            || course.actions[i] is Refuse ==> course.after[i].interceptor_fut is None,
{
    lemma_phases(course, dreq, i);
    assert(enabled(course.before[i], course.events[i]));
}

/// The interceptor decides once.
pub proof fn law_interceptor_decides_once<S, I, F, ReqBody: Default, B: Default, E>(
    course: Course<S, I, F, ReqBody, B, E>,
    dreq: DecomposedRequest<ReqBody>,
    i: int,
    j: int,
)
    requires
        course.valid(dreq),
        0 <= i < course.events.len(),
        0 <= j < course.events.len(),
        course.events[i] is InterceptorReady,
        course.events[j] is InterceptorReady,
    ensures
        i == j,
{
    lemma_phases(course, dreq, i);
    lemma_phases(course, dreq, j);
    assert(enabled(course.before[i], course.events[i]));
    assert(enabled(course.before[j], course.events[j]));
}

/// A response future that was not ready can be polled again: there is always a future for it to
/// wait for.
pub proof fn law_pending_response_can_be_polled_again<S, I, F, ReqBody: Default, B: Default, E>(
    course: Course<S, I, F, ReqBody, B, E>,
    dreq: DecomposedRequest<ReqBody>,
    i: int,
    later: FutureView<S, I, F, ReqBody>,
)
    requires
        course.valid(dreq),
        0 <= i < course.events.len(),
        course.actions[i] is Pending,
        worked(course.after[i], later),
    ensures
        enabled(later, Event::<F, B, E>::Polled),
{
    lemma_phases(course, dreq, i);
    assert(enabled(course.before[i], course.events[i]));
}

/// Every action can be carried out and reported: a future that is to be polled is there and may be
/// ready or not, with any result, and a call of the wrapped service may return any future.
pub proof fn law_actions_can_be_reported<S, I, F, ReqBody: Default, B: Default, E>(
    course: Course<S, I, F, ReqBody, B, E>,
    dreq: DecomposedRequest<ReqBody>,
    i: int,
    later: FutureView<S, I, F, ReqBody>,
    decision: Result<Request<()>, Status>,
    future: F,
    result: Result<HttpResponse<B>, E>,
)
    requires
        course.valid(dreq),
        0 <= i < course.events.len(),
        worked(course.after[i], later),
    ensures
        course.actions[i] is PollInterceptor ==> {
            &&& enabled(later, Event::<F, B, E>::InterceptorPending)
            &&& enabled(later, Event::<F, B, E>::InterceptorReady(decision))
        },
        course.actions[i] is CallInner ==> enabled(later, Event::<F, B, E>::InnerCalled(future)),
        course.actions[i] is PollInner ==> {
            &&& enabled(later, Event::<F, B, E>::InnerPending)
            &&& enabled(later, Event::<F, B, E>::InnerReady(result))
        },
{
    lemma_phases(course, dreq, i);
    assert(enabled(course.before[i], course.events[i]));
}

/// How many reports a poll can still need after an action.
pub open spec fn reports_to_come<ReqBody, B, E>(action: Action<ReqBody, B, E>) -> nat {
    match action {
        Action::PollInterceptor => 3,
        Action::CallInner(_) => 2,
        Action::PollInner => 1,
        Action::Pending | Action::Ready(_) | Action::Refuse(_) => 0,
    }
}

/// Whether `event` reports that `action` was carried out.
pub open spec fn reports<F, ReqBody, B, E>(
    event: Event<F, B, E>,
    action: Action<ReqBody, B, E>,
) -> bool {
    match event {
        Event::Polled => false,
        Event::InterceptorPending | Event::InterceptorReady(_) => action is PollInterceptor,
        Event::InnerCalled(_) => action is CallInner,
        Event::InnerPending | Event::InnerReady(_) => action is PollInner,
    }
}

/// Every poll comes to an end: each report brings it nearer.
pub proof fn law_poll_ends<S, I, F, ReqBody: Default, B: Default, E>(
    course: Course<S, I, F, ReqBody, B, E>,
    dreq: DecomposedRequest<ReqBody>,
    i: int,
)
    requires
        course.valid(dreq),
        0 < i < course.events.len(),
        reports(course.events[i], course.actions[i - 1]),
    ensures
        reports_to_come(course.actions[i]) < reports_to_come(course.actions[i - 1]),
{
    lemma_phases(course, dreq, i);
    assert(enabled(course.before[i], course.events[i]));
}

/// The outcome for a request is that of an interceptor which is not async and decides on the spot,
/// however long the decision took. Where it lets the request through, the wrapped service gets the
/// request with the metadata and the extensions of the decision, and the response is the reply of
/// the service. Where it refuses, the response is that of the status, and the service gets nothing.
pub proof fn law_outcome_is_that_of_a_plain_interceptor<S, I, F, ReqBody: Default, B: Default, E>(
    course: Course<S, I, F, ReqBody, B, E>,
    req: HttpRequest<ReqBody>,
    decision: Result<Request<()>, Status>,
    i: int,
    j: int,
    result: Result<HttpResponse<B>, E>,
)
    requires
        course.valid(taken_aside(req)),
        0 <= i < course.events.len(),
        course.events[i] == Event::<F, B, E>::InterceptorReady(decision),
        0 <= j < course.events.len(),
        course.actions[j] == Action::<ReqBody, B, E>::Ready(result),
    ensures
        match decision {
            Ok(modified_req) => {
                &&& course.actions[i] matches Action::CallInner(request) && recomposed(
                    taken_aside(req),
                    modified_req,
                    request,
                )
                &&& course.events[j] == Event::<F, B, E>::InnerReady(result)
                &&& forall|k: int| course.calls(k) ==> k == i
            },
            Err(status) => {
                &&& j == i
                &&& result matches Ok(response) && answers(status, response)
                &&& forall|k: int| !course.calls(k)
            },
        },
{
    let dreq = taken_aside(req);
    law_response_is_passed_on_unchanged(course, dreq, j, result);
    law_service_gets_what_the_interceptor_let_through(course, dreq, i);
    if course.events[j] is InterceptorReady {
        law_interceptor_decides_once(course, dreq, i, j);
    }
    match decision {
        Ok(_) => {
            assert forall|k: int| course.calls(k) implies k == i by {
                law_service_is_called_at_most_once(course, dreq, k, i);
            }
        },
        Err(status) => {
            law_refused_request_never_reaches_the_service(course, dreq, i, status);
            lemma_phases(course, dreq, j);
            assert(enabled(course.before[j], course.events[j]));
        },
    }
}

/// Whether two HTTP responses agree in every part but the body.
pub open spec fn same_head<B>(a: HttpResponse<B>, b: HttpResponse<B>) -> bool {
    &&& a.status == b.status
    &&& a.version == b.version
    &&& header_fields(a.headers) == header_fields(b.headers)
    &&& a.extensions == b.extensions
}

/// When and how often anything was polled makes no difference: two courses of events with the same
/// request and the same decision send the same request to the wrapped service, or none, and where
/// they refuse, they answer with the same response, each with a default body.
pub proof fn law_delay_makes_no_difference<S, I, F, ReqBody: Default, B: Default, E>(
    course: Course<S, I, F, ReqBody, B, E>,
    other: Course<S, I, F, ReqBody, B, E>,
    req: HttpRequest<ReqBody>,
    decision: Result<Request<()>, Status>,
    i: int,
    j: int,
)
    requires
        course.valid(taken_aside(req)),
        other.valid(taken_aside(req)),
        0 <= i < course.events.len(),
        course.events[i] == Event::<F, B, E>::InterceptorReady(decision),
        0 <= j < other.events.len(),
        other.events[j] == Event::<F, B, E>::InterceptorReady(decision),
    ensures
        match (course.actions[i], other.actions[j]) {
            (Action::CallInner(a), Action::CallInner(b)) => decision is Ok && same_request(a, b),
            (Action::Ready(Ok(a)), Action::Ready(Ok(b))) => {
                &&& decision is Err
                &&& same_head(a, b)
                &&& is_default(a.body)
                &&& is_default(b.body)
            },
            (Action::Refuse(a), Action::Refuse(b)) => {
                &&& decision == Err::<Request<()>, Status>(a)
                &&& a == b
            },
            _ => false,
        },
{
    law_service_gets_what_the_interceptor_let_through(course, taken_aside(req), i);
    law_service_gets_what_the_interceptor_let_through(other, taken_aside(req), j);
    if let Err(status) = decision {
        law_refused_request_never_reaches_the_service(course, taken_aside(req), i, status);
        law_refused_request_never_reaches_the_service(other, taken_aside(req), j, status);
    }
}

/// Where the interceptor and the wrapped service are ready at once, one poll leads to the response.
pub proof fn law_one_poll_is_enough_where_all_is_ready<S, I, F, ReqBody: Default, B: Default, E>(
    course: Course<S, I, F, ReqBody, B, E>,
    req: HttpRequest<ReqBody>,
    decision: Result<Request<()>, Status>,
    future: F,
    reply: Result<HttpResponse<B>, E>,
)
    requires
        course.valid(taken_aside(req)),
        course.events == match decision {
            Ok(_) => seq![
                Event::Polled,
                Event::InterceptorReady(decision),
                Event::InnerCalled(future),
                Event::InnerReady(reply),
            ],
            Err(_) => seq![Event::Polled, Event::InterceptorReady(decision)],
        },
    ensures
        course.actions[0] == Action::<ReqBody, B, E>::PollInterceptor,
        match decision {
            Ok(modified_req) => {
                &&& course.actions[1] matches Action::CallInner(request) && recomposed(
                    taken_aside(req),
                    modified_req,
                    request,
                )
                &&& course.actions[2] == Action::<ReqBody, B, E>::PollInner
                &&& course.actions[3] == Action::<ReqBody, B, E>::Ready(reply)
            },
            Err(status) => refuses(status, course.actions[1]),
        },
{
    let dreq = taken_aside(req);
    assert(course.events[0] == Event::<F, B, E>::Polled);
    assert(course.events[1] == Event::<F, B, E>::InterceptorReady(decision));
    law_service_gets_what_the_interceptor_let_through(course, dreq, 1);
    match decision {
        Ok(_) => {
            assert(course.events[2] == Event::<F, B, E>::InnerCalled(future));
            assert(course.events[3] == Event::<F, B, E>::InnerReady(reply));
            lemma_phases(course, dreq, 3);
            assert(enabled(course.before[3], course.events[3]));
        },
        Err(status) => {
            law_refused_request_never_reaches_the_service(course, dreq, 1, status);
        },
    }
}

/// A response future from the call of an interceptor can be polled, whatever the request and
/// whatever its body, and the first thing that it wants is the interceptor's future polled.
pub proof fn law_new_response_can_be_polled<S, I, F, ReqBody: Default, B: Default, E>(
    state: FutureView<S, I, F, ReqBody>,
    req: HttpRequest<ReqBody>,
    post: FutureView<S, I, F, ReqBody>,
    action: Action<ReqBody, B, E>,
)
    requires
        state.interceptor_fut is Some,
        !state.decided,
        state.inner_fut is None,
        state.dreq.uri == req.uri,
        state.dreq.method == req.method,
        state.dreq.http_version == req.version,
        state.dreq.msg == req.body,
    ensures
        fresh(state, taken_aside(req)),
        enabled(state, Event::<F, B, E>::Polled),
        step(state, Event::<F, B, E>::Polled, post, action) ==> action is PollInterceptor && post
            == state,
{
}

/// Courses of events start with no event, at any new response future, and go on with any event that
/// can happen after any work in between: nothing else is asked of them.
pub proof fn law_courses_go_on<S, I, F, ReqBody: Default, B: Default, E>(
    course: Course<S, I, F, ReqBody, B, E>,
    dreq: DecomposedRequest<ReqBody>,
    state: FutureView<S, I, F, ReqBody>,
    event: Event<F, B, E>,
    post: FutureView<S, I, F, ReqBody>,
    action: Action<ReqBody, B, E>,
)
    requires
        course.valid(dreq),
        course.events.len() == 0 ==> fresh(state, dreq),
        course.events.len() > 0 ==> worked(course.after.last(), state),
        enabled(state, event),
        step(state, event, post, action),
    ensures
        (Course {
            before: course.before.push(state),
            events: course.events.push(event),
            after: course.after.push(post),
            actions: course.actions.push(action),
        }).valid(dreq),
        (Course::<S, I, F, ReqBody, B, E> {
            before: seq![],
            events: seq![],
            after: seq![],
            actions: seq![],
        }).valid(dreq),
{
    let longer = Course {
        before: course.before.push(state),
        events: course.events.push(event),
        after: course.after.push(post),
        actions: course.actions.push(action),
    };
    assert forall|i: int|
        #![trigger longer.events[i]]
        0 <= i < longer.events.len() implies enabled(longer.before[i], longer.events[i]) && step(
        longer.before[i],
        longer.events[i],
        longer.after[i],
        longer.actions[i],
    ) by {
        if i < course.events.len() {
            assert(longer.events[i] == course.events[i]);
        }
    }
    assert forall|i: int|
        #![trigger longer.before[i]]
        0 < i < longer.events.len() implies worked(longer.after[i - 1], longer.before[i]) by {
        if i < course.events.len() {
            assert(longer.before[i] == course.before[i]);
        }
    }
}

/// Each event of a course finds the response future as the one before left it, but for the work in
/// between, and does there what it does by itself.
pub proof fn law_courses_are_made_of_steps<S, I, F, ReqBody: Default, B: Default, E>(
    course: Course<S, I, F, ReqBody, B, E>,
    dreq: DecomposedRequest<ReqBody>,
    i: int,
)
    requires
        course.valid(dreq),
        0 <= i < course.events.len(),
    ensures
        enabled(course.before[i], course.events[i]),
        step(course.before[i], course.events[i], course.after[i], course.actions[i]),
        i > 0 ==> worked(course.after[i - 1], course.before[i]),
        i == 0 ==> course.before[i].interceptor_fut is Some && !course.before[i].decided
            && course.before[i].inner_fut is None && course.before[i].dreq == dreq,
        course.calls(i) <==> course.actions[i] is CallInner,
{
}

/// After the wrapped service has returned its future, that future is what the response waits for.
proof fn lemma_after_the_call<S, I, F, ReqBody: Default, B: Default, E>(
    course: Course<S, I, F, ReqBody, B, E>,
    dreq: DecomposedRequest<ReqBody>,
    k: int,
    i: int,
)
    requires
        course.valid(dreq),
        0 <= k < i < course.events.len(),
        course.events[k] is InnerCalled,
    ensures
        course.before[i].interceptor_fut is None,
        course.before[i].inner_fut is Some,
        course.before[i].inner_fut->0 is Future,
    decreases i,
{
    if i > k + 1 {
        lemma_after_the_call(course, dreq, k, i - 1);
    }
    assert(enabled(course.before[i - 1], course.events[i - 1]));
    assert(worked(course.after[i - 1], course.before[i]));
}

/// Every poll goes on with what is waited for, so that a response comes out in the end: until the
/// interceptor has decided, each polls the interceptor's future, and from the call of the wrapped
/// service on, each polls the future of the service. No poll is left undone.
pub proof fn law_every_poll_goes_on<S, I, F, ReqBody: Default, B: Default, E>(
    course: Course<S, I, F, ReqBody, B, E>,
    dreq: DecomposedRequest<ReqBody>,
    i: int,
)
    requires
        course.valid(dreq),
        0 <= i < course.events.len(),
        course.events[i] is Polled,
    ensures
        (forall|k: int| 0 <= k < i ==> (#[trigger] course.events[k]) !is InterceptorReady)
            ==> course.actions[i] is PollInterceptor,
        (exists|k: int| 0 <= k < i && (#[trigger] course.events[k]) is InnerCalled)
            ==> course.actions[i] is PollInner,
        course.before[i].interceptor_fut is None && course.before[i].inner_fut is Some
            && course.before[i].inner_fut->0 is Future ==> course.actions[i] is PollInner,
        course.actions[i] is PollInterceptor || course.actions[i] is PollInner,
        course.after[i] == course.before[i],
{
    lemma_phases(course, dreq, i);
    assert(enabled(course.before[i], course.events[i]));
    if exists|k: int| 0 <= k < i && (#[trigger] course.events[k]) is InnerCalled {
        let k = choose|k: int| 0 <= k < i && (#[trigger] course.events[k]) is InnerCalled;
        lemma_after_the_call(course, dreq, k, i);
    }
    if course.before[i].decided {
        let k = choose|k: int| 0 <= k < i && #[trigger] course.calls(k);
        assert(enabled(course.before[k], course.events[k]));
        assert(course.events[k] is InterceptorReady);
    }
}

/// Waiting goes on as long as it takes: a poll ends without a response exactly where the future that
/// is waited for was reported not to be ready, and then everything is kept for the next poll.
pub proof fn law_waiting_keeps_everything<S, I, F, ReqBody: Default, B: Default, E>(
    course: Course<S, I, F, ReqBody, B, E>,
    dreq: DecomposedRequest<ReqBody>,
    i: int,
)
    requires
        course.valid(dreq),
        0 <= i < course.events.len(),
    ensures
        course.events[i] is InterceptorPending || course.events[i] is InnerPending
            <==> course.actions[i] is Pending,
        course.actions[i] is Pending ==> course.after[i] == course.before[i],
        course.events[i] is InterceptorPending ==> course.after[i].interceptor_fut is Some
            && !course.after[i].decided,
        course.events[i] is InnerPending ==> course.after[i].inner_fut is Some
            && course.after[i].inner_fut->0 is Future,
{
    lemma_phases(course, dreq, i);
    assert(enabled(course.before[i], course.events[i]));
}

/// No refusal comes from anywhere but the interceptor: a status that is handed out is the one that
/// the interceptor gave, with more names than can be answered with here.
pub proof fn law_only_the_interceptor_refuses<S, I, F, ReqBody: Default, B: Default, E>(
    course: Course<S, I, F, ReqBody, B, E>,
    dreq: DecomposedRequest<ReqBody>,
    i: int,
    status: Status,
)
    requires
        course.valid(dreq),
        0 <= i < course.events.len(),
        course.actions[i] == Action::<ReqBody, B, E>::Refuse(status),
    ensures
        course.events[i] == Event::<F, B, E>::InterceptorReady(Err(status)),
        metadata_fields(status.metadata).dom().len() > 6550,
{
    lemma_phases(course, dreq, i);
    assert(enabled(course.before[i], course.events[i]));
}

/// A request that was let through is never refused: its polls end without a response, or with what
/// the wrapped service's future was reported to have given.
pub proof fn law_request_that_was_let_through_is_never_refused<S, I, F, ReqBody: Default, B: Default, E>(
    course: Course<S, I, F, ReqBody, B, E>,
    dreq: DecomposedRequest<ReqBody>,
    k: int,
    modified_req: Request<()>,
    i: int,
)
    requires
        course.valid(dreq),
        0 <= k < course.events.len(),
        course.events[k] == Event::<F, B, E>::InterceptorReady(Ok(modified_req)),
        0 <= i < course.events.len(),
    ensures
        course.actions[i] !is Refuse,
        course.actions[i] matches Action::Ready(result) ==> course.events[i]
            == Event::<F, B, E>::InnerReady(result),
        course.events[i] matches Event::InnerReady(result) ==> course.actions[i]
            == Action::<ReqBody, B, E>::Ready(result),
{
    lemma_phases(course, dreq, i);
    assert(enabled(course.before[i], course.events[i]));
    if course.events[i] is InterceptorReady {
        law_interceptor_decides_once(course, dreq, k, i);
    }
}

/// From end to end, part by part: where the interceptor was called with the headers of the request
/// as metadata and with its extensions, and its future resolves to what it was called with, the
/// wrapped service is called with the method, the URI, the version, the headers, the extensions and
/// the body that came in. Whatever else it resolves to, only metadata and extensions differ.
pub proof fn law_request_reaches_the_service_part_by_part<S, I, F, ReqBody: Default, B: Default, E>(
    course: Course<S, I, F, ReqBody, B, E>,
    req: HttpRequest<ReqBody>,
    decision: Request<()>,
    i: int,
)
    requires
        course.valid(taken_aside(req)),
        0 <= i < course.events.len(),
        course.events[i] == Event::<F, B, E>::InterceptorReady(Ok(decision)),
    ensures
        course.actions[i] matches Action::CallInner(request) && {
            &&& request.method == req.method
            &&& request.uri == req.uri
            &&& request.version == req.version
            &&& request.body == req.body
            &&& header_fields(request.headers) == metadata_fields(decision.metadata)
            &&& request.extensions == decision.extensions
            &&& metadata_fields(decision.metadata) == header_fields(req.headers)
                && decision.extensions == req.extensions ==> header_fields(request.headers)
                == header_fields(req.headers) && request.extensions == req.extensions
        },
{
    law_service_gets_what_the_interceptor_let_through(course, taken_aside(req), i);
}

/// From the call of the interceptor to the call of the service, for any interceptor: there is a
/// request that the interceptor was called with, and where the interceptor's future resolves to that
/// request, the wrapped service is called with the request that came in, all six parts of it.
pub proof fn law_request_handed_back_reaches_the_service<
    A: AsyncInterceptor,
    S,
    F,
    ReqBody: Default,
    B: Default,
    E,
>(
    before: A,
    req: HttpRequest<ReqBody>,
    after: A,
    course: Course<S, A::Future, F, ReqBody, B, E>,
    i: int,
)
    requires
        course.valid(taken_aside(req)),
        0 <= i < course.events.len(),
        intercepts(before, req, after, course.before[0].interceptor_fut->0),
    ensures
        exists|given: Request<()>|
            #![trigger metadata_fields(given.metadata)]
            metadata_fields(given.metadata) == header_fields(req.headers) && given.extensions
                == req.extensions && before.gives(
                given,
                &after,
                course.before[0].interceptor_fut->0,
            ) && (course.events[i]
                == Event::<F, B, E>::InterceptorReady(Ok(given)) ==> (
            course.actions[i] matches Action::CallInner(request) && request.method == req.method
                && request.uri == req.uri && request.version == req.version && request.body
                == req.body && request.extensions == req.extensions && header_fields(
                request.headers,
            ) == header_fields(req.headers))),
{
    let future = course.before[0].interceptor_fut->0;
    let given = choose|given: Request<()>| #[trigger]
        without_body(req, given) && before.gives(given, &after, future);
    assert(metadata_fields(given.metadata) == header_fields(req.headers));
    if course.events[i] == Event::<F, B, E>::InterceptorReady(Ok(given)) {
        law_request_reaches_the_service_part_by_part(course, req, given, i);
    }
}

} // verus!
