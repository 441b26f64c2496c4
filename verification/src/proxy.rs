//! The request flow of the proxy, as a state machine the HTTP server drives.
//!
//! Every request is forwarded to Meilisearch. When Meilisearch's answer
//! carries a `taskUid`, an asynchronous task was enqueued: the proxy waits
//! for it and answers with the finished task. Any other answer passes
//! through unchanged, but for its hop-by-hop headers. An `OPTIONS` request
//! gets an empty `200` for CORS preflight.

use vstd::prelude::*;

use crate::config::MEILISEARCH_HOST;
use crate::headers::{forwarded, is_hop_by_hop, strip_hop_by_hop, Header};
use crate::task::{valid_status, valid_wait_error, wait_error_text, WaitForTaskError};
use crate::text::{joined, same_text};

verus! {

/// Meilisearch's answer to a forwarded request.
#[derive(Debug)]
pub struct UpstreamResponse {
    pub status: u16,
    pub headers: Vec<Header>,
    pub body: Vec<u8>,
}

/// Why the body of an incoming request could not be used.
#[derive(Debug)]
pub enum BodyError {
    /// It is larger than the configured limit.
    TooLarge,
    /// It could not be read (for example, the client went away).
    Unreadable(String),
}

/// The answer the proxy gives to its client.
#[derive(Debug)]
pub enum Reply {
    /// `200` with no body, for a CORS preflight request.
    Preflight,
    /// `413`: the request body exceeds the limit.
    BodyTooLarge,
    /// `400`: the request body could not be read.
    BodyUnreadable(String),
    /// `502`: Meilisearch could not be reached, or its answer not read.
    UpstreamFailed(String),
    /// `200` with the finished task document.
    TaskCompleted(Vec<u8>),
    /// `500`: the task failed, was canceled, timed out, or could not be
    /// followed.
    TaskPollingFailed(WaitForTaskError),
    /// Meilisearch's own answer.
    Passthrough(UpstreamResponse),
}

/// An HTTP response ready to be sent.
#[derive(Debug)]
pub struct HttpResponse {
    pub status: u16,
    pub headers: Vec<Header>,
    pub body: Vec<u8>,
}

/// Header lines as (name, value) pairs.
pub open spec fn header_views(s: Seq<Header>) -> Seq<(Seq<char>, Seq<u8>)> {
    s.map_values(|h: Header| (h.name@, h.value@))
}

/// The status code of a reply.
pub open spec fn reply_status(r: Reply) -> u16 {
    match r {
        Reply::Preflight => 200,
        Reply::BodyTooLarge => 413,
        Reply::BodyUnreadable(_) => 400,
        Reply::UpstreamFailed(_) => 502,
        Reply::TaskCompleted(_) => 200,
        Reply::TaskPollingFailed(_) => 500,
        Reply::Passthrough(up) => up.status,
    }
}

/// The header lines of a reply.
pub open spec fn reply_headers(r: Reply) -> Seq<(Seq<char>, Seq<u8>)> {
    match r {
        Reply::Preflight => seq![("content-length"@, vstd::utf8::encode_utf8("0"@))],
        Reply::TaskCompleted(_) => seq![("content-type"@, vstd::utf8::encode_utf8("application/json"@))],
        Reply::Passthrough(up) => header_views(forwarded(up.headers@)),
        _ => seq![],
    }
}

/// The body of a reply.
pub open spec fn reply_body(r: Reply) -> Seq<u8> {
    match r {
        Reply::Preflight => seq![],
        Reply::BodyTooLarge => vstd::utf8::encode_utf8("request body too large"@),
        Reply::BodyUnreadable(m) => vstd::utf8::encode_utf8("failed to read request body: "@ + m@),
        Reply::UpstreamFailed(m) => vstd::utf8::encode_utf8("proxy error: "@ + m@),
        Reply::TaskCompleted(b) => b@,
        Reply::TaskPollingFailed(e) => vstd::utf8::encode_utf8("task polling error: "@ + wait_error_text(e)),
        Reply::Passthrough(up) => up.body@,
    }
}

/// A reply whose statuses are ones a status code can hold.
pub open spec fn valid_reply(r: Reply) -> bool {
    match r {
        Reply::TaskPollingFailed(e) => valid_wait_error(e),
        Reply::Passthrough(up) => valid_status(up.status),
        _ => true,
    }
}

fn header(name: &str, value: &str) -> (h: Header)
    ensures
        h.name@ == name@,
        h.value@ == vstd::utf8::encode_utf8(value@),
{
    Header { name: String::from_str(name), value: value.as_bytes_vec() }
}

fn text_body(prefix: &str, rest: &str) -> (b: Vec<u8>)
    ensures
        b@ == vstd::utf8::encode_utf8(prefix@ + rest@),
{
    joined(prefix, rest).as_str().as_bytes_vec()
}

/// Turns a reply into the response sent to the client.
pub fn render(reply: Reply) -> (r: HttpResponse)
    requires
        valid_reply(reply),
    ensures
        r.status == reply_status(reply),
        header_views(r.headers@) == reply_headers(reply),
        r.body@ == reply_body(reply),
{
    match reply {
        Reply::Preflight => {
            let h = header("content-length", "0");
            let headers = vec![h];
            assert(header_views(headers@) =~= reply_headers(Reply::Preflight));
            HttpResponse { status: 200, headers, body: Vec::new() }
        },
        Reply::BodyTooLarge => {
            let headers: Vec<Header> = Vec::new();
            assert(header_views(headers@) =~= seq![]);
            HttpResponse {
                status: 413,
                headers,
                body: "request body too large".as_bytes_vec(),
            }
        },
        Reply::BodyUnreadable(m) => {
            let headers: Vec<Header> = Vec::new();
            assert(header_views(headers@) =~= seq![]);
            HttpResponse {
                status: 400,
                headers,
                body: text_body("failed to read request body: ", m.as_str()),
            }
        },
        Reply::UpstreamFailed(m) => {
            let headers: Vec<Header> = Vec::new();
            assert(header_views(headers@) =~= seq![]);
            HttpResponse { status: 502, headers, body: text_body("proxy error: ", m.as_str()) }
        },
        Reply::TaskCompleted(b) => {
            let h = header("content-type", "application/json");
            let headers = vec![h];
            assert(header_views(headers@) =~= seq![
                ("content-type"@, vstd::utf8::encode_utf8("application/json"@)),
            ]);
            HttpResponse { status: 200, headers, body: b }
        },
        Reply::TaskPollingFailed(e) => {
            let headers: Vec<Header> = Vec::new();
            assert(header_views(headers@) =~= seq![]);
            let m = e.message();
            HttpResponse {
                status: 500,
                headers,
                body: text_body("task polling error: ", m.as_str()),
            }
        },
        Reply::Passthrough(up) => {
            let headers = strip_hop_by_hop(up.headers);
            HttpResponse { status: up.status, headers, body: up.body }
        },
    }
}


/// Where the handling of one request stands.
#[derive(Debug)]
pub enum HandlerState {
    /// Nothing received yet.
    Idle,
    /// The request head is known; its body is being read.
    ReadingBody { method: String, url: String, headers: Vec<Header> },
    /// The request went to Meilisearch with these headers.
    Forwarding { headers: Vec<Header> },
    /// Meilisearch enqueued a task; it is being polled with these headers.
    WaitingForTask { headers: Vec<Header>, response: UpstreamResponse },
    /// The reply has been decided.
    Finished,
}

/// What the server reports to the machine.
#[derive(Debug)]
pub enum HandlerEvent {
    /// A request arrived: its method, its path and query, its headers.
    Request { method: String, uri: String, headers: Vec<Header> },
    /// The request body was read, or could not be.
    BodyRead(Result<Vec<u8>, BodyError>),
    /// Meilisearch answered (with the `taskUid` of the task its body
    /// announces, if any), or could not be reached or read.
    Answered(Result<(UpstreamResponse, Option<u64>), String>),
    /// Waiting for the task ended.
    TaskWaited(Result<Vec<u8>, WaitForTaskError>),
}

/// What the server does next.
#[derive(Debug)]
pub enum HandlerAction {
    /// Read the request body.
    ReadBody,
    /// Send the request to `url` with the headers of the new state.
    Forward { method: String, url: String, body: Vec<u8> },
    /// Poll the task with the headers of the new state.
    WaitForTask { task_uid: u64 },
    /// Send this reply; the request is done.
    Respond(Reply),
}

/// Whether the machine takes `event` in `state`, with statuses a status
/// code can hold.
pub open spec fn accepts(state: HandlerState, event: HandlerEvent) -> bool {
    match state {
        HandlerState::Idle => event is Request,
        HandlerState::ReadingBody { .. } => event is BodyRead,
        HandlerState::Forwarding { .. } => match event {
            HandlerEvent::Answered(Ok((up, _))) => valid_status(up.status),
            HandlerEvent::Answered(Err(_)) => true,
            _ => false,
        },
        HandlerState::WaitingForTask { response, .. } => match event {
            HandlerEvent::TaskWaited(Err(e)) => valid_status(response.status) && valid_wait_error(e),
            HandlerEvent::TaskWaited(Ok(_)) => valid_status(response.status),
            _ => false,
        },
        HandlerState::Finished => false,
    }
}

/// The state a request is in after it ended.
pub open spec fn finished_with(next: HandlerState, action: HandlerAction, reply: Reply) -> bool {
    next is Finished && action == HandlerAction::Respond(reply)
}

/// One step of the request flow: from `state`, `event` leads to `next`,
/// and the server does `action`.
pub open spec fn steps_to(
    state: HandlerState,
    event: HandlerEvent,
    next: HandlerState,
    action: HandlerAction,
) -> bool {
    match state {
        HandlerState::Idle => match event {
            HandlerEvent::Request { method, uri, headers } => if method@ == "OPTIONS"@ {
                finished_with(next, action, Reply::Preflight)
            } else {
                &&& next matches HandlerState::ReadingBody { method: m, url, headers: h }
                &&& m == method
                &&& url@ == MEILISEARCH_HOST@ + uri@
                &&& h@ == forwarded(headers@)
                &&& action is ReadBody
            },
            _ => false,
        },
        HandlerState::ReadingBody { method, url, headers } => match event {
            HandlerEvent::BodyRead(Ok(body)) => {
                &&& next == HandlerState::Forwarding { headers }
                &&& action == HandlerAction::Forward { method, url, body }
            },
            HandlerEvent::BodyRead(Err(BodyError::TooLarge)) => finished_with(
                next,
                action,
                Reply::BodyTooLarge,
            ),
            HandlerEvent::BodyRead(Err(BodyError::Unreadable(m))) => finished_with(
                next,
                action,
                Reply::BodyUnreadable(m),
            ),
            _ => false,
        },
        HandlerState::Forwarding { headers } => match event {
            HandlerEvent::Answered(Ok((response, Some(task_uid)))) => {
                &&& next == HandlerState::WaitingForTask { headers, response }
                &&& action == HandlerAction::WaitForTask { task_uid }
            },
            HandlerEvent::Answered(Ok((response, None))) => finished_with(
                next,
                action,
                Reply::Passthrough(response),
            ),
            HandlerEvent::Answered(Err(m)) => finished_with(next, action, Reply::UpstreamFailed(m)),
            _ => false,
        },
        HandlerState::WaitingForTask { headers, response } => match event {
            HandlerEvent::TaskWaited(Ok(task)) => finished_with(
                next,
                action,
                Reply::TaskCompleted(task),
            ),
            HandlerEvent::TaskWaited(Err(WaitForTaskError::PermissionDenied { .. })) => finished_with(
                next,
                action,
                Reply::Passthrough(response),
            ),
            HandlerEvent::TaskWaited(Err(e)) => finished_with(
                next,
                action,
                Reply::TaskPollingFailed(e),
            ),
            _ => false,
        },
        HandlerState::Finished => false,
    }
}

/// The replies the machine gives are ones [`render`] takes.
pub open spec fn action_valid(action: HandlerAction) -> bool {
    action matches HandlerAction::Respond(r) ==> valid_reply(r)
}

/// Takes one step of the request flow.
pub fn step(state: HandlerState, event: HandlerEvent) -> (r: (HandlerState, HandlerAction))
    requires
        accepts(state, event),
    ensures
        steps_to(state, event, r.0, r.1),
        action_valid(r.1),
{
    match state {
        HandlerState::Idle => match event {
            HandlerEvent::Request { method, uri, headers } => {
                if same_text(method.as_str(), "OPTIONS") {
                    (HandlerState::Finished, HandlerAction::Respond(Reply::Preflight))
                } else {
                    let url = joined(MEILISEARCH_HOST, uri.as_str());
                    let headers = strip_hop_by_hop(headers);
                    (HandlerState::ReadingBody { method, url, headers }, HandlerAction::ReadBody)
                }
            },
            _ => vstd::pervasive::unreached(),
        },
        HandlerState::ReadingBody { method, url, headers } => match event {
            HandlerEvent::BodyRead(Ok(body)) => (
                (HandlerState::Forwarding { headers }),
                HandlerAction::Forward { method, url, body },
            ),
            HandlerEvent::BodyRead(Err(BodyError::TooLarge)) => (
                HandlerState::Finished,
                HandlerAction::Respond(Reply::BodyTooLarge),
            ),
            HandlerEvent::BodyRead(Err(BodyError::Unreadable(m))) => (
                HandlerState::Finished,
                HandlerAction::Respond(Reply::BodyUnreadable(m)),
            ),
            _ => vstd::pervasive::unreached(),
        },
        HandlerState::Forwarding { headers } => match event {
            HandlerEvent::Answered(Ok((response, Some(task_uid)))) => (
                HandlerState::WaitingForTask { headers, response },
                HandlerAction::WaitForTask { task_uid },
            ),
            HandlerEvent::Answered(Ok((response, None))) => (
                HandlerState::Finished,
                HandlerAction::Respond(Reply::Passthrough(response)),
            ),
            HandlerEvent::Answered(Err(m)) => (
                HandlerState::Finished,
                HandlerAction::Respond(Reply::UpstreamFailed(m)),
            ),
            _ => vstd::pervasive::unreached(),
        },
        HandlerState::WaitingForTask { headers, response } => match event {
            HandlerEvent::TaskWaited(Ok(task)) => (
                HandlerState::Finished,
                HandlerAction::Respond(Reply::TaskCompleted(task)),
            ),
            HandlerEvent::TaskWaited(Err(e)) => match e {
                WaitForTaskError::PermissionDenied { .. } => (
                    HandlerState::Finished,
                    HandlerAction::Respond(Reply::Passthrough(response)),
                ),
                e => (HandlerState::Finished, HandlerAction::Respond(Reply::TaskPollingFailed(e))),
            },
            _ => vstd::pervasive::unreached(),
        },
        HandlerState::Finished => vstd::pervasive::unreached(),
    }
}

impl HandlerState {
    /// The headers sent to Meilisearch, once they are decided.
    pub fn upstream_headers(&self) -> (r: Option<&Vec<Header>>)
        ensures
            match *self {
                HandlerState::ReadingBody { headers, .. } => r == Some(&headers),
                HandlerState::Forwarding { headers } => r == Some(&headers),
                HandlerState::WaitingForTask { headers, .. } => r == Some(&headers),
                _ => r is None,
            },
    {
        match self {
            HandlerState::ReadingBody { headers, .. } => Some(headers),
            HandlerState::Forwarding { headers } => Some(headers),
            HandlerState::WaitingForTask { headers, .. } => Some(headers),
            _ => None,
        }
    }
}


/// An `OPTIONS` request is answered at once with an empty `200` and never
/// reaches Meilisearch.
pub proof fn lemma_preflight(
    uri: String,
    headers: Vec<Header>,
    method: String,
    next: HandlerState,
    action: HandlerAction,
)
    requires
        method@ == "OPTIONS"@,
        steps_to(HandlerState::Idle, (HandlerEvent::Request { method, uri, headers }), next, action),
    ensures
        next is Finished,
        action matches HandlerAction::Respond(r) && reply_status(r) == 200 && reply_body(r)
            =~= Seq::<u8>::empty(),
{
}

/// Every request whose method is not `OPTIONS`, whatever its headers, is
/// read and then forwarded: its method is kept, its path and query are put
/// on the Meilisearch host, and its headers are kept but for the hop-by-hop
/// ones. Only `OPTIONS` is answered at once.
pub proof fn lemma_request_is_read_unless_preflight(
    method: String,
    uri: String,
    headers: Vec<Header>,
    next: HandlerState,
    action: HandlerAction,
)
    requires
        steps_to(HandlerState::Idle, (HandlerEvent::Request { method, uri, headers }), next, action),
    ensures
        method@ != "OPTIONS"@ ==> (next matches HandlerState::ReadingBody {
            method: m,
            url,
            headers: h,
        } && m == method && url@ == MEILISEARCH_HOST@ + uri@ && h@ == forwarded(headers@)),
        method@ != "OPTIONS"@ ==> action is ReadBody,
        method@ == "OPTIONS"@ ==> (next is Finished && action == HandlerAction::Respond(
            Reply::Preflight,
        )),
{
}

/// Once the body is read, the request goes to Meilisearch with its method,
/// url and body unchanged, and the headers decided before; a body over the
/// limit is refused with `413`, an unreadable one with `400` and the reason.
pub proof fn lemma_body_outcome(
    method: String,
    url: String,
    headers: Vec<Header>,
    outcome: Result<Vec<u8>, BodyError>,
    next: HandlerState,
    action: HandlerAction,
)
    requires
        steps_to(
            (HandlerState::ReadingBody { method, url, headers }),
            HandlerEvent::BodyRead(outcome),
            next,
            action,
        ),
    ensures
        match outcome {
            Ok(body) => {
                &&& next == (HandlerState::Forwarding { headers })
                &&& action == (HandlerAction::Forward { method, url, body })
            },
            Err(BodyError::TooLarge) => next is Finished && (action matches HandlerAction::Respond(r)
                && reply_status(r) == 413 && reply_body(r) == vstd::utf8::encode_utf8(
                "request body too large"@,
            )),
            Err(BodyError::Unreadable(m)) => next is Finished && (action matches HandlerAction::Respond(
                r,
            ) && reply_status(r) == 400 && reply_body(r) == vstd::utf8::encode_utf8(
                "failed to read request body: "@ + m@,
            )),
        },
{
}

/// When Meilisearch cannot be reached or its answer cannot be read, the
/// client gets `502` with the reason.
pub proof fn lemma_upstream_failure(
    headers: Vec<Header>,
    m: String,
    next: HandlerState,
    action: HandlerAction,
)
    requires
        steps_to(
            (HandlerState::Forwarding { headers }),
            HandlerEvent::Answered(Err(m)),
            next,
            action,
        ),
    ensures
        next is Finished,
        action matches HandlerAction::Respond(r) && reply_status(r) == 502 && reply_body(r)
            == vstd::utf8::encode_utf8("proxy error: "@ + m@) && reply_headers(r).len() == 0,
{
}

/// Any other request is forwarded as it came: same method, the same path
/// and query on the Meilisearch host, the same body, and the same headers
/// but for the hop-by-hop ones.
pub proof fn lemma_forwarded_as_is(
    method: String,
    uri: String,
    headers: Vec<Header>,
    body: Vec<u8>,
    s1: HandlerState,
    a1: HandlerAction,
    s2: HandlerState,
    a2: HandlerAction,
)
    requires
        method@ != "OPTIONS"@,
        steps_to(HandlerState::Idle, (HandlerEvent::Request { method, uri, headers }), s1, a1),
        steps_to(s1, HandlerEvent::BodyRead(Ok(body)), s2, a2),
    ensures
        a2 matches HandlerAction::Forward { method: m, url, body: b } && m == method && url@
            == MEILISEARCH_HOST@ + uri@ && b == body,
        s2 matches HandlerState::Forwarding { headers: h } && h@ == forwarded(headers@),
{
}

/// An answer without a `taskUid` (a search, a read, an error) passes through
/// unchanged: same status, same body, same headers but for the hop-by-hop
/// ones.
pub proof fn lemma_passthrough_without_task(
    headers: Vec<Header>,
    response: UpstreamResponse,
    next: HandlerState,
    action: HandlerAction,
)
    requires
        steps_to(
            (HandlerState::Forwarding { headers }),
            HandlerEvent::Answered(Ok((response, None))),
            next,
            action,
        ),
    ensures
        next is Finished,
        action matches HandlerAction::Respond(r) && reply_status(r) == response.status
            && reply_body(r) == response.body@ && reply_headers(r) == header_views(
            forwarded(response.headers@),
        ),
{
}

/// An answer with a `taskUid`, whatever its status (`202` or `200`), makes
/// the proxy wait for that task, polling with the caller's own headers.
pub proof fn lemma_task_is_awaited(
    headers: Vec<Header>,
    response: UpstreamResponse,
    task_uid: u64,
    next: HandlerState,
    action: HandlerAction,
)
    requires
        steps_to(
            (HandlerState::Forwarding { headers }),
            HandlerEvent::Answered(Ok((response, Some(task_uid)))),
            next,
            action,
        ),
    ensures
        action == (HandlerAction::WaitForTask { task_uid }),
        next == (HandlerState::WaitingForTask { headers, response }),
{
}

/// Once the task is waited for: success gives `200` with the final task
/// document as JSON; a denied permission gives Meilisearch's enqueued-task
/// answer unchanged; any other outcome gives `500`.
pub proof fn lemma_task_outcome(
    headers: Vec<Header>,
    response: UpstreamResponse,
    outcome: Result<Vec<u8>, WaitForTaskError>,
    next: HandlerState,
    action: HandlerAction,
)
    requires
        steps_to(
            (HandlerState::WaitingForTask { headers, response }),
            HandlerEvent::TaskWaited(outcome),
            next,
            action,
        ),
    ensures
        next is Finished,
        action matches HandlerAction::Respond(r) && match outcome {
            Ok(task) => {
                &&& reply_status(r) == 200
                &&& reply_body(r) == task@
                &&& reply_headers(r) == seq![
                    ("content-type"@, vstd::utf8::encode_utf8("application/json"@)),
                ]
            },
            Err(WaitForTaskError::PermissionDenied { .. }) => r == Reply::Passthrough(response),
            Err(e) => reply_status(r) == 500 && reply_body(r) == vstd::utf8::encode_utf8(
                "task polling error: "@ + wait_error_text(e),
            ) && reply_headers(r).len() == 0,
        },
{
}

/// How far the handling of a request has got.
pub open spec fn stage(state: HandlerState) -> nat {
    match state {
        HandlerState::Idle => 0,
        HandlerState::ReadingBody { .. } => 1,
        HandlerState::Forwarding { .. } => 2,
        HandlerState::WaitingForTask { .. } => 3,
        HandlerState::Finished => 4,
    }
}

/// Every step moves the request forward, and the step that sends a reply is
/// the one that finishes it: each request is answered exactly once, after at
/// most four steps.
pub proof fn lemma_one_reply_per_request(
    state: HandlerState,
    event: HandlerEvent,
    next: HandlerState,
    action: HandlerAction,
)
    requires
        steps_to(state, event, next, action),
    ensures
        stage(next) > stage(state),
        (next is Finished) <==> (action is Respond),
{
}

/// No response the proxy passes through carries a hop-by-hop header.
pub proof fn lemma_no_hop_by_hop_passed_through(response: UpstreamResponse, i: int)
    requires
        0 <= i < reply_headers(Reply::Passthrough(response)).len(),
    ensures
        !is_hop_by_hop(reply_headers(Reply::Passthrough(response))[i].0),
{
    let pred = |h: Header| !is_hop_by_hop(h.name@);
    assert(pred(response.headers@.filter(pred)[i]));
}

} // verus!
