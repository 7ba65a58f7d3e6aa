//! Requests: the job a submission produces, and the decisions of a request in
//! flight (redirect policy, body cap, error classification). The network work
//! itself is done by the caller, which feeds each outcome back in.

use vstd::prelude::*;
use crate::ops::{op_step, StateOp};
use crate::encoding::{lossy_utf8, utf8_lossy};
use crate::errors::{code_value, io_error_code, map_io_error, map_reqwest_error, request_error_code,
    ErrorCode, IoErrorKind, RequestErrorInfo};
use crate::headers::{clone_pairs, pairs_view, HeaderTable};
use crate::payload::{MultipartPayload, MultipartView};
use crate::state::{clear_temp_headers, end_in_flight, enqueue_response, queue_after_push, remove_one, PluginState, ResponseView,
    StateView};
use crate::text::{ascii_lower, eq_ignore_ascii_case, str_eq, to_ascii_lowercase};
use crate::urls::{join_url, joined_url, parse_url, parsed_url, same_host, UrlInfo, UrlView};

verus! {

/// The number of redirects a request follows at most.
pub const MAX_REDIRECTS: usize = 5;

/// The body a request is sent with.
pub enum BodyPayload {
    NoBody,
    Raw(String),
    Multipart(MultipartPayload),
}

pub enum BodyView {
    NoBody,
    Raw(Seq<char>),
    Multipart(MultipartView),
}

impl View for BodyPayload {
    type V = BodyView;

    open spec fn view(&self) -> BodyView {
        match self {
            BodyPayload::NoBody => BodyView::NoBody,
            BodyPayload::Raw(s) => BodyView::Raw(s@),
            BodyPayload::Multipart(m) => BodyView::Multipart(m@),
        }
    }
}

/// A request as submitted: everything the worker needs to run it.
pub struct Job {
    pub index: i32,
    pub method: String,
    pub url: String,
    pub body: BodyPayload,
    pub callback: String,
    pub headers: Vec<(String, String)>,
    pub allow_cross_host: bool,
    /// Total timeout in milliseconds, `None` for the default.
    pub total_timeout: Option<u64>,
}

/// The HTTP methods a request can use.
#[derive(Clone, Copy, Debug, PartialEq, Eq, Structural)]
pub enum HttpMethod {
    Get,
    Post,
    Head,
    Put,
    Delete,
    Patch,
}

/// The method a method name selects; any name not listed selects `GET`.
pub open spec fn method_of_name(m: Seq<char>) -> HttpMethod {
    if m == "POST"@ {
        HttpMethod::Post
    } else if m == "PUT"@ {
        HttpMethod::Put
    } else if m == "PATCH"@ {
        HttpMethod::Patch
    } else if m == "DELETE"@ {
        HttpMethod::Delete
    } else if m == "HEAD"@ {
        HttpMethod::Head
    } else {
        HttpMethod::Get
    }
}

/// The method a method name selects.
pub fn method_kind(m: &str) -> (r: HttpMethod)
    ensures
        r == method_of_name(m@),
{
    if str_eq(m, "POST") {
        HttpMethod::Post
    } else if str_eq(m, "PUT") {
        HttpMethod::Put
    } else if str_eq(m, "PATCH") {
        HttpMethod::Patch
    } else if str_eq(m, "DELETE") {
        HttpMethod::Delete
    } else if str_eq(m, "HEAD") {
        HttpMethod::Head
    } else {
        HttpMethod::Get
    }
}

/// The result of a request, as delivered to the script.
pub enum Outcome {
    Delivered { body: String, status: i32, headers: HeaderTable },
    Failed { status: i32, error: ErrorCode },
}

pub enum OutcomeView {
    Delivered { body: Seq<char>, status: i32, headers: Map<Seq<char>, Seq<char>> },
    Failed { status: i32, error: ErrorCode },
}

impl View for Outcome {
    type V = OutcomeView;

    open spec fn view(&self) -> OutcomeView {
        match self {
            Outcome::Delivered { body, status, headers } => OutcomeView::Delivered {
                body: body@,
                status: *status,
                headers: headers@,
            },
            Outcome::Failed { status, error } => OutcomeView::Failed { status: *status, error: *error },
        }
    }
}

/// A finished request: the index and callback it was submitted with, and its outcome.
pub struct Completion {
    pub index: i32,
    pub callback: String,
    pub outcome: Outcome,
}

pub struct CompletionView {
    pub index: i32,
    pub callback: Seq<char>,
    pub outcome: OutcomeView,
}

impl View for Completion {
    type V = CompletionView;

    open spec fn view(&self) -> CompletionView {
        CompletionView { index: self.index, callback: self.callback@, outcome: self.outcome@ }
    }
}

impl Completion {
    /// The headers of a delivered outcome form a well-formed table.
    pub open spec fn wf(&self) -> bool {
        match self.outcome {
            Outcome::Delivered { headers, .. } => headers.wf(),
            Outcome::Failed { .. } => true,
        }
    }
}

/// A failed completion.
pub open spec fn failed(index: i32, callback: Seq<char>, status: i32, error: ErrorCode) -> CompletionView {
    CompletionView { index, callback, outcome: OutcomeView::Failed { status, error } }
}

/// A delivered completion.
pub open spec fn delivered(
    index: i32,
    callback: Seq<char>,
    body: Seq<char>,
    status: i32,
    headers: Map<Seq<char>, Seq<char>>,
) -> CompletionView {
    CompletionView { index, callback, outcome: OutcomeView::Delivered { body, status, headers } }
}

/// The state after a request finished: the response is queued (unless its
/// index was cancelled), the request is no longer in flight, and the
/// temporary headers are cleared.
pub open spec fn after_finish(v: StateView, c: CompletionView) -> StateView {
    let (response, status, error, headers) = match c.outcome {
        OutcomeView::Delivered { body, status, headers } => (body, status, 0i32, headers),
        OutcomeView::Failed { status, error } => (
            Seq::<char>::empty(),
            status,
            code_value(error),
            Map::<Seq<char>, Seq<char>>::empty(),
        ),
    };
    StateView {
        cancelled: v.cancelled.remove(c.index),
        queue: if v.cancelled.contains(c.index) {
            v.queue
        } else {
            queue_after_push(
                v.queue,
                ResponseView { index: c.index, callback: c.callback, response, status, error, headers },
            )
        },
        in_flight: remove_one(v.in_flight, c.index),
        temp_headers: Map::empty(),
        ..v
    }
}

/// Ends a request with an error: an empty body and no headers are queued.
pub fn finish_with_error(st: &mut PluginState, index: i32, callback: &str, status: i32, error: ErrorCode)
    requires
        old(st).wf(),
    ensures
        final(st).wf(),
        final(st)@ == op_step(old(st)@, StateOp::Finish(failed(index, callback@, status, error))),
        final(st)@ == after_finish(old(st)@, failed(index, callback@, status, error)),
{
    enqueue_response(st, index, callback.to_owned(), String::new(), status, error.as_i32(), HeaderTable::new());
    end_in_flight(st, index);
    clear_temp_headers(st);
}

/// Ends a request with the response's body, status and headers.
pub fn finish_ok(st: &mut PluginState, index: i32, callback: &str, body: String, status: i32, headers: HeaderTable)
    requires
        old(st).wf(),
        headers.wf(),
    ensures
        final(st).wf(),
        final(st)@ == op_step(old(st)@, StateOp::Finish(delivered(index, callback@, body@, status, headers@))),
        final(st)@ == after_finish(old(st)@, delivered(index, callback@, body@, status, headers@)),
{
    enqueue_response(st, index, callback.to_owned(), body, status, ErrorCode::NoError.as_i32(), headers);
    end_in_flight(st, index);
    clear_temp_headers(st);
}

/// Ends a request with its completion.
pub fn finish_job(st: &mut PluginState, c: Completion)
    requires
        old(st).wf(),
        c.wf(),
    ensures
        final(st).wf(),
        final(st)@ == op_step(old(st)@, StateOp::Finish(c@)),
        final(st)@ == after_finish(old(st)@, c@),
{
    match c.outcome {
        Outcome::Delivered { body, status, headers } => {
            finish_ok(st, c.index, c.callback.as_str(), body, status, headers);
        },
        Outcome::Failed { status, error } => {
            finish_with_error(st, c.index, c.callback.as_str(), status, error);
        },
    }
}

// ---------------------------------------------------------------------------
// A request in flight
// ---------------------------------------------------------------------------

/// A request being run: where it stands in its redirect chain.
pub struct RequestFlow {
    index: i32,
    callback: String,
    method: String,
    current: UrlInfo,
    headers: Vec<(String, String)>,
    body: BodyPayload,
    redirects: usize,
    saw_https_ever: bool,
    allow_cross_host: bool,
    total_timeout: Option<u64>,
}

pub struct FlowView {
    pub index: i32,
    pub callback: Seq<char>,
    pub method: Seq<char>,
    pub current: UrlView,
    pub headers: Seq<(Seq<char>, Seq<char>)>,
    pub body: BodyView,
    pub redirects: usize,
    pub saw_https_ever: bool,
    pub allow_cross_host: bool,
    pub total_timeout: Option<u64>,
}

impl View for RequestFlow {
    type V = FlowView;

    closed spec fn view(&self) -> FlowView {
        FlowView {
            index: self.index,
            callback: self.callback@,
            method: self.method@,
            current: self.current@,
            headers: pairs_view(self.headers@),
            body: self.body@,
            redirects: self.redirects,
            saw_https_ever: self.saw_https_ever,
            allow_cross_host: self.allow_cross_host,
            total_timeout: self.total_timeout,
        }
    }
}

/// What holds at every step of a request: at most five redirects were
/// followed, and once any URL of the chain used HTTPS the current one does
/// not use plain HTTP.
pub open spec fn flow_invariant(f: FlowView) -> bool {
    &&& f.redirects <= MAX_REDIRECTS
    &&& f.saw_https_ever ==> f.current.scheme != "http"@
    &&& f.current.scheme == "https"@ ==> f.saw_https_ever
}

impl RequestFlow {
    pub open spec fn wf(&self) -> bool {
        flow_invariant(self@)
    }
}

/// The two schemes a request may use are different texts.
pub proof fn lemma_schemes_differ()
    ensures
        "http"@ != "https"@,
{
    reveal_strlit("http");
    reveal_strlit("https");
    assert("http"@.len() != "https"@.len());
}

/// A URL a request may start from: one that parses with scheme `http` or `https`.
pub open spec fn accepted_start(u: Option<UrlView>) -> bool {
    match u {
        Some(x) => x.scheme == "http"@ || x.scheme == "https"@,
        None => false,
    }
}

/// Starts running a job: its URL must parse with scheme `http` or `https`,
/// else it ends with `BadUrl` and status 0.
pub fn begin_job(job: Job) -> (r: Result<RequestFlow, Completion>)
    ensures
        r is Ok <==> accepted_start(parsed_url(job.url@)),
        r is Ok <==> (parsed_url(job.url@) is Some && (parsed_url(job.url@)->0.scheme == "http"@
            || parsed_url(job.url@)->0.scheme == "https"@)),
        match r {
            Ok(f) => {
                &&& f.wf()
                &&& f@ == FlowView {
                    index: job.index,
                    callback: job.callback@,
                    method: job.method@,
                    current: parsed_url(job.url@)->0,
                    headers: pairs_view(job.headers@),
                    body: job.body@,
                    redirects: 0,
                    saw_https_ever: parsed_url(job.url@)->0.scheme == "https"@,
                    allow_cross_host: job.allow_cross_host,
                    total_timeout: job.total_timeout,
                }
            },
            Err(c) => c.wf() && c@ == failed(job.index, job.callback@, 0, ErrorCode::BadUrl),
        },
{
    let current = match parse_url(job.url.as_str()) {
        Some(u) => u,
        None => {
            return Err(
                Completion {
                    index: job.index,
                    callback: job.callback,
                    outcome: Outcome::Failed { status: 0, error: ErrorCode::BadUrl },
                },
            );
        },
    };
    proof {
        lemma_schemes_differ();
    }
    let is_http = str_eq(current.scheme.as_str(), "http");
    let is_https = str_eq(current.scheme.as_str(), "https");
    if !is_http && !is_https {
        return Err(
            Completion {
                index: job.index,
                callback: job.callback,
                outcome: Outcome::Failed { status: 0, error: ErrorCode::BadUrl },
            },
        );
    }
    Ok(
        RequestFlow {
            index: job.index,
            callback: job.callback,
            method: job.method,
            current,
            headers: job.headers,
            body: job.body,
            redirects: 0,
            saw_https_ever: is_https,
            allow_cross_host: job.allow_cross_host,
            total_timeout: job.total_timeout,
        },
    )
}

/// One attempt of a request, for the caller to send.
pub struct Outgoing {
    pub method: HttpMethod,
    pub url: String,
    pub headers: Vec<(String, String)>,
    pub body: BodyPayload,
    /// Total timeout in milliseconds, `None` for the default.
    pub timeout_ms: Option<u64>,
}

/// The body kept for a later attempt once `b` was sent: a raw body again;
/// multipart parts cannot be sent twice, so nothing in their place.
pub open spec fn kept_body(b: BodyView) -> BodyView {
    match b {
        BodyView::Raw(s) => BodyView::Raw(s),
        _ => BodyView::NoBody,
    }
}

/// The next attempt of the request: its method, current URL, headers, body
/// and timeout. The request keeps a raw body for a redirect that replays it.
pub fn next_attempt(flow: &mut RequestFlow) -> (r: Outgoing)
    requires
        old(flow).wf(),
    ensures
        final(flow).wf(),
        r.method == method_of_name(old(flow)@.method),
        r.url@ == old(flow)@.current.href,
        pairs_view(r.headers@) == old(flow)@.headers,
        r.body@ == old(flow)@.body,
        r.timeout_ms == old(flow)@.total_timeout,
        final(flow)@ == (FlowView { body: kept_body(old(flow)@.body), ..old(flow)@ }),
{
    let mut body = BodyPayload::NoBody;
    std::mem::swap(&mut body, &mut flow.body);
    let keep = match &body {
        BodyPayload::Raw(s) => BodyPayload::Raw(s.clone()),
        _ => BodyPayload::NoBody,
    };
    flow.body = keep;
    Outgoing {
        method: method_kind(flow.method.as_str()),
        url: flow.current.href.clone(),
        headers: clone_pairs(&flow.headers),
        body,
        timeout_ms: flow.total_timeout,
    }
}

/// The request ends with `Unknown`: its body could not be attached
/// (a multipart file could not be opened).
pub fn on_attach_failed(flow: &RequestFlow) -> (c: Completion)
    ensures
        c.wf(),
        c@ == failed(flow@.index, flow@.callback, 0, ErrorCode::Unknown),
{
    Completion {
        index: flow.index,
        callback: flow.callback.clone(),
        outcome: Outcome::Failed { status: 0, error: ErrorCode::Unknown },
    }
}

/// The request ends with the code of a failed send, and status 0.
pub fn on_send_failed(flow: &RequestFlow, info: &RequestErrorInfo) -> (c: Completion)
    ensures
        c.wf(),
        c@ == failed(flow@.index, flow@.callback, 0, request_error_code(*info)),
{
    Completion {
        index: flow.index,
        callback: flow.callback.clone(),
        outcome: Outcome::Failed { status: 0, error: map_reqwest_error(info) },
    }
}

/// The plain view of response headers as read: names, and values where
/// they are visible ASCII.
pub open spec fn raw_headers_view(v: Seq<(String, Option<String>)>) -> Seq<(Seq<char>, Option<Seq<char>>)> {
    v.map_values(|p: (String, Option<String>)| (p.0@, match p.1 {
        Some(x) => Some(x@),
        None => None,
    }))
}

/// The response header map: names in ASCII lower case, values that are not
/// visible ASCII skipped, and a later value for a name replacing an earlier.
pub open spec fn response_header_map(h: Seq<(Seq<char>, Option<Seq<char>>)>) -> Map<Seq<char>, Seq<char>>
    decreases h.len(),
{
    if h.len() == 0 {
        Map::empty()
    } else {
        let m = response_header_map(h.drop_last());
        match h.last().1 {
            Some(v) => m.insert(ascii_lower(h.last().0), v),
            None => m,
        }
    }
}

/// The response header map of headers as read.
pub fn collect_response_headers(raw: &Vec<(String, Option<String>)>) -> (t: HeaderTable)
    ensures
        t.wf(),
        t@ == response_header_map(raw_headers_view(raw@)),
        forall|i: int|
            0 <= i < raw@.len() && #[trigger] raw@[i].1 is Some && (forall|j: int|
                i < j < raw@.len() && raw@[j].1 is Some ==> ascii_lower(raw@[j].0@) != ascii_lower(
                    raw@[i].0@,
                )) ==> t@.contains_key(ascii_lower(raw@[i].0@)) && t@[ascii_lower(raw@[i].0@)]
                == raw@[i].1->0@,
{
    let ghost h = raw_headers_view(raw@);
    let mut t = HeaderTable::new();
    let n = raw.len();
    let mut i: usize = 0;
    proof {
        assert(h.take(0) =~= Seq::<(Seq<char>, Option<Seq<char>>)>::empty());
    }
    while i < n
        invariant
            n == raw@.len(),
            h == raw_headers_view(raw@),
            i <= n,
            t.wf(),
            t@ == response_header_map(h.take(i as int)),
        decreases n - i,
    {
        proof {
            assert(h.take(i + 1).drop_last() =~= h.take(i as int));
        }
        match &raw[i].1 {
            Some(v) => {
                let name = to_ascii_lowercase(raw[i].0.as_str());
                t.insert(name, v.clone());
            },
            None => {},
        }
        i = i + 1;
    }
    proof {
        assert(h.take(n as int) =~= h);
        assert forall|i: int|
            0 <= i < raw@.len() && #[trigger] raw@[i].1 is Some && (forall|j: int|
                i < j < raw@.len() && raw@[j].1 is Some ==> ascii_lower(raw@[j].0@) != ascii_lower(
                    raw@[i].0@,
                )) implies t@.contains_key(ascii_lower(raw@[i].0@)) && t@[ascii_lower(raw@[i].0@)]
                == raw@[i].1->0@ by {
            assert(h[i] == (raw@[i].0@, Some(raw@[i].1->0@)));
            assert forall|j: int| i < j < h.len() && (#[trigger] h[j]).1 is Some implies ascii_lower(h[j].0)
                != ascii_lower(h[i].0) by {
                assert(raw@[j].1 is Some);
            }
            crate::laws::header_value_kept_as_received(h, i);
        }
    }
    t
}

/// The `Location` of a response: the value of the first header named
/// `location` (in any case), empty when that value is not visible ASCII or
/// there is no such header.
pub open spec fn location_value(h: Seq<(Seq<char>, Option<Seq<char>>)>) -> Seq<char>
    decreases h.len(),
{
    if h.len() == 0 {
        Seq::empty()
    } else if ascii_lower(h[0].0) == "location"@ {
        match h[0].1 {
            Some(v) => v,
            None => Seq::empty(),
        }
    } else {
        location_value(h.drop_first())
    }
}

fn find_location(raw: &Vec<(String, Option<String>)>) -> (r: String)
    ensures
        r@ == location_value(raw_headers_view(raw@)),
{
    let ghost h = raw_headers_view(raw@);
    let n = raw.len();
    let mut i: usize = 0;
    proof {
        assert(h.skip(0) =~= h);
    }
    while i < n
        invariant
            n == raw@.len(),
            h == raw_headers_view(raw@),
            i <= n,
            location_value(h) == location_value(h.skip(i as int)),
        decreases n - i,
    {
        let name = to_ascii_lowercase(raw[i].0.as_str());
        if str_eq(name.as_str(), "location") {
            return match &raw[i].1 {
                Some(v) => v.clone(),
                None => String::new(),
            };
        }
        proof {
            assert(h.skip(i as int).drop_first() =~= h.skip(i + 1));
        }
        i = i + 1;
    }
    proof {
        assert(h.skip(n as int) =~= Seq::<(Seq<char>, Option<Seq<char>>)>::empty());
    }
    String::new()
}

/// The headers without those named `Authorization` (in any case), in order.
pub open spec fn without_authorization(s: Seq<(Seq<char>, Seq<char>)>) -> Seq<(Seq<char>, Seq<char>)>
    decreases s.len(),
{
    if s.len() == 0 {
        s
    } else {
        let r = without_authorization(s.drop_last());
        if ascii_lower(s.last().0) == "authorization"@ {
            r
        } else {
            r.push(s.last())
        }
    }
}

fn strip_authorization(headers: &Vec<(String, String)>) -> (r: Vec<(String, String)>)
    ensures
        pairs_view(r@) == without_authorization(pairs_view(headers@)),
{
    let ghost h = pairs_view(headers@);
    proof {
        reveal_strlit("authorization");
        assert(ascii_lower("authorization"@) =~= "authorization"@);
        assert(h.take(0) =~= Seq::<(Seq<char>, Seq<char>)>::empty());
    }
    let mut out: Vec<(String, String)> = Vec::new();
    let n = headers.len();
    let mut i: usize = 0;
    while i < n
        invariant
            n == headers@.len(),
            h == pairs_view(headers@),
            i <= n,
            ascii_lower("authorization"@) == "authorization"@,
            pairs_view(out@) == without_authorization(h.take(i as int)),
        decreases n - i,
    {
        proof {
            assert(h.take(i + 1).drop_last() =~= h.take(i as int));
        }
        if !eq_ignore_ascii_case(headers[i].0.as_str(), "authorization") {
            let k = headers[i].0.clone();
            let v = headers[i].1.clone();
            let ghost before = out@;
            out.push((k, v));
            proof {
                assert(pairs_view(out@) =~= pairs_view(before).push((k@, v@)));
            }
        }
        i = i + 1;
    }
    proof {
        assert(h.take(n as int) =~= h);
    }
    out
}

/// A status in the redirection class.
pub open spec fn is_redirection(status: u16) -> bool {
    300 <= status < 400
}

/// A redirect may be followed: the response names a `Location`, fewer than
/// five redirects were followed, the `Location` resolves against the current
/// URL, the target does not fall back to plain HTTP after HTTPS, and it stays
/// on the same host unless crossing hosts was allowed.
pub open spec fn redirect_allowed(f: FlowView, h: Seq<(Seq<char>, Option<Seq<char>>)>) -> bool {
    let loc = location_value(h);
    &&& loc.len() > 0
    &&& f.redirects < MAX_REDIRECTS
    &&& joined_url(f.current.href, loc) is Some
    &&& !(f.saw_https_ever && joined_url(f.current.href, loc)->0.scheme == "http"@)
    &&& (joined_url(f.current.href, loc)->0.host == f.current.host || f.allow_cross_host)
}

/// A redirect turns the request into a `GET` without a body: a 303, or a 301
/// or 302 answering a `POST`.
pub open spec fn method_downgraded(f: FlowView, status: u16) -> bool {
    status == 303 || ((status == 301 || status == 302) && f.method == "POST"@)
}

/// The request after following a redirect to `next`.
pub open spec fn redirected(f: FlowView, status: u16, next: UrlView) -> FlowView {
    FlowView {
        current: next,
        redirects: (f.redirects + 1) as usize,
        saw_https_ever: f.saw_https_ever || next.scheme == "https"@,
        headers: if next.host != f.current.host {
            without_authorization(f.headers)
        } else {
            f.headers
        },
        method: if method_downgraded(f, status) {
            "GET"@
        } else {
            f.method
        },
        body: if method_downgraded(f, status) {
            BodyView::NoBody
        } else {
            f.body
        },
        ..f
    }
}

/// What follows a response.
pub enum AfterResponse {
    /// The request is over.
    Finished(Completion),
    /// The request follows a redirect: send its next attempt.
    Redirected,
    /// The body is to be read (up to the cap) and handed to `on_body`.
    ReadBody { status: i32, headers: HeaderTable },
}

pub enum AfterView {
    Finished(CompletionView),
    Redirected,
    ReadBody { status: i32, headers: Map<Seq<char>, Seq<char>> },
}

impl View for AfterResponse {
    type V = AfterView;

    open spec fn view(&self) -> AfterView {
        match self {
            AfterResponse::Finished(c) => AfterView::Finished(c@),
            AfterResponse::Redirected => AfterView::Redirected,
            AfterResponse::ReadBody { status, headers } => AfterView::ReadBody {
                status: *status,
                headers: headers@,
            },
        }
    }
}

impl AfterResponse {
    pub open spec fn wf(&self) -> bool {
        match self {
            AfterResponse::Finished(c) => c.wf(),
            AfterResponse::Redirected => true,
            AfterResponse::ReadBody { headers, .. } => headers.wf(),
        }
    }
}

/// Decides what follows a response with `status` and the headers as read.
/// A `HEAD` ends with the status and headers and an empty body, redirect or
/// not. A redirect is followed when `redirect_allowed` holds, and otherwise
/// ends the request with `PolicyBlocked` and status 0. Any other status
/// leads to reading the body.
pub fn on_response(flow: &mut RequestFlow, status: u16, raw: &Vec<(String, Option<String>)>) -> (r: AfterResponse)
    requires
        old(flow).wf(),
    ensures
        final(flow).wf(),
        r.wf(),
        ({
            let f = old(flow)@;
            let h = raw_headers_view(raw@);
            if f.method == "HEAD"@ {
                &&& r@ == AfterView::Finished(
                    delivered(f.index, f.callback, Seq::empty(), status as i32, response_header_map(h)),
                )
                &&& final(flow)@ == f
            } else if !is_redirection(status) {
                &&& r@ == (AfterView::ReadBody { status: status as i32, headers: response_header_map(h) })
                &&& final(flow)@ == f
            } else if redirect_allowed(f, h) {
                &&& r@ == AfterView::Redirected
                &&& final(flow)@ == redirected(f, status, joined_url(f.current.href, location_value(h))->0)
            } else {
                &&& r@ == AfterView::Finished(failed(f.index, f.callback, 0, ErrorCode::PolicyBlocked))
                &&& final(flow)@ == f
            }
        }),
        old(flow)@.method != "HEAD"@ && (status < 300 || status > 399) ==> r@ == (AfterView::ReadBody {
            status: status as i32,
            headers: response_header_map(raw_headers_view(raw@)),
        }),
        r@ is Redirected && status != 303 && old(flow)@.method != "POST"@ ==> final(flow)@.method
            == old(flow)@.method && final(flow)@.body == old(flow)@.body,
        r@ is Redirected && (status == 307 || status == 308) ==> final(flow)@.method
            == old(flow)@.method && final(flow)@.body == old(flow)@.body,
{
    let ghost f = flow@;
    proof {
        lemma_schemes_differ();
    }
    if str_eq(flow.method.as_str(), "HEAD") {
        let headers = collect_response_headers(raw);
        return AfterResponse::Finished(
            Completion {
                index: flow.index,
                callback: flow.callback.clone(),
                outcome: Outcome::Delivered { body: String::new(), status: status as i32, headers },
            },
        );
    }
    if status < 300 || status >= 400 {
        let headers = collect_response_headers(raw);
        return AfterResponse::ReadBody { status: status as i32, headers };
    }
    let blocked = Completion {
        index: flow.index,
        callback: flow.callback.clone(),
        outcome: Outcome::Failed { status: 0, error: ErrorCode::PolicyBlocked },
    };
    let location = find_location(raw);
    if location.as_str().is_empty() || flow.redirects >= MAX_REDIRECTS {
        return AfterResponse::Finished(blocked);
    }
    let next = match join_url(flow.current.href.as_str(), location.as_str()) {
        Some(u) => u,
        None => {
            return AfterResponse::Finished(blocked);
        },
    };
    let next_is_http = str_eq(next.scheme.as_str(), "http");
    if flow.saw_https_ever && next_is_http {
        return AfterResponse::Finished(blocked);
    }
    let next_is_https = str_eq(next.scheme.as_str(), "https");
    let host_changed = !same_host(&next.host, &flow.current.host);
    if host_changed && !flow.allow_cross_host {
        return AfterResponse::Finished(blocked);
    }
    if next_is_https {
        flow.saw_https_ever = true;
    }
    if host_changed {
        flow.headers = strip_authorization(&flow.headers);
    }
    let is_post = str_eq(flow.method.as_str(), "POST");
    if status == 303 || ((status == 301 || status == 302) && is_post) {
        flow.method = "GET".to_owned();
        flow.body = BodyPayload::NoBody;
    }
    flow.current = next;
    flow.redirects = flow.redirects + 1;
    AfterResponse::Redirected
}

/// The result of reading a body: the bytes read (at most one more than the
/// cap), or the kind of I/O failure.
pub enum BodyRead {
    Bytes(Vec<u8>),
    IoError(IoErrorKind),
}

/// Ends the request after reading its body: more bytes than the cap end it
/// with `ContentTooBig` and the status kept; otherwise the body is decoded
/// as UTF-8 (invalid sequences replaced) and delivered; a read failure ends
/// it with its I/O code and status 0.
pub fn on_body(flow: &RequestFlow, status: i32, headers: HeaderTable, read: BodyRead, limit: usize) -> (c: Completion)
    requires
        headers.wf(),
    ensures
        c.wf(),
        c@ == match read {
            BodyRead::Bytes(b) => if b@.len() > limit {
                failed(flow@.index, flow@.callback, status, ErrorCode::ContentTooBig)
            } else {
                delivered(flow@.index, flow@.callback, lossy_utf8(b@), status, headers@)
            },
            BodyRead::IoError(k) => failed(flow@.index, flow@.callback, 0, io_error_code(k)),
        },
{
    let callback = flow.callback.clone();
    match read {
        BodyRead::Bytes(buf) => {
            if buf.len() > limit {
                Completion {
                    index: flow.index,
                    callback,
                    outcome: Outcome::Failed { status, error: ErrorCode::ContentTooBig },
                }
            } else {
                let text = utf8_lossy(buf.as_slice());
                Completion {
                    index: flow.index,
                    callback,
                    outcome: Outcome::Delivered { body: text, status, headers },
                }
            }
        },
        BodyRead::IoError(k) => Completion {
            index: flow.index,
            callback,
            outcome: Outcome::Failed { status: 0, error: map_io_error(k) },
        },
    }
}

} // verus!
