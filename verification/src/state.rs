//! The plugin's shared state: header tables, the response queue, one-shot
//! request options, cancellations, the staged body slot and the client
//! settings.

use std::collections::{HashSet, VecDeque};
use vstd::prelude::*;
use crate::ops::{op_step, StateOp};
use vstd::utf8::encode_utf8;
use crate::encoding::{form_append_pair, form_body, json_accepted, json_parses,
    pem_identity_accepted, pem_identity_parses};
use crate::headers::{has_name_ignore_case, pairs_view, HeaderTable};
use crate::payload::{PreparedView, json_content_type, form_content_type, multipart_empty, MultipartPayload, MultipartView, PreparedBody, serialize_form, json_content_type_string, form_content_type_string, lemma_form_body_push, lemma_form_body_nonempty};

verus! {

broadcast use {vstd::std_specs::hash::group_hash_axioms, vstd::std_specs::vecdeque::group_vec_dequeue_axioms};

/// The number of responses the queue holds at most.
pub const MAX_QUEUE: usize = 1024;

/// The smallest response body cap that can be set.
pub const MIN_BODY_BYTES: usize = 4 * 1024;

/// The largest response body cap that can be set.
pub const MAX_BODY_BYTES_CAP: usize = 1024 * 1024;

/// The response body cap until one is set.
pub const DEFAULT_BODY_BYTES: usize = 64 * 1024;

/// The `User-Agent` every request starts with.
pub open spec fn user_agent_name() -> Seq<char> {
    "User-Agent"@
}

pub open spec fn user_agent_value() -> Seq<char> {
    "SA-MP HTTPS/1.0"@
}

/// The length in bytes of a text's UTF-8 encoding, as `str::len` reports it.
pub open spec fn byte_len(s: Seq<char>) -> usize {
    encode_utf8(s).len() as usize
}

/// A response waiting to be delivered to its script callback.
pub struct HttpsResponse {
    pub index: i32,
    pub callback: String,
    pub response: String,
    pub status: i32,
    pub error: i32,
    pub headers: HeaderTable,
}

pub struct ResponseView {
    pub index: i32,
    pub callback: Seq<char>,
    pub response: Seq<char>,
    pub status: i32,
    pub error: i32,
    pub headers: Map<Seq<char>, Seq<char>>,
}

impl View for HttpsResponse {
    type V = ResponseView;

    open spec fn view(&self) -> ResponseView {
        ResponseView {
            index: self.index,
            callback: self.callback@,
            response: self.response@,
            status: self.status,
            error: self.error,
            headers: self.headers@,
        }
    }
}

/// The staged body slot: a raw body, a JSON body, form pairs, or multipart parts.
struct PendingPayload {
    raw: Option<String>,
    json: Option<String>,
    form: Vec<(String, String)>,
    multipart: MultipartPayload,
}

pub struct PendingView {
    pub raw: Option<Seq<char>>,
    pub json: Option<Seq<char>>,
    pub form: Seq<(Seq<char>, Seq<char>)>,
    pub multipart: MultipartView,
}

pub open spec fn opt_view(o: Option<String>) -> Option<Seq<char>> {
    match o {
        Some(s) => Some(s@),
        None => None,
    }
}

impl View for PendingPayload {
    type V = PendingView;

    closed spec fn view(&self) -> PendingView {
        PendingView {
            raw: opt_view(self.raw),
            json: opt_view(self.json),
            form: pairs_view(self.form@),
            multipart: self.multipart@,
        }
    }
}

/// An empty staged slot.
pub open spec fn empty_pending() -> PendingView {
    PendingView {
        raw: None,
        json: None,
        form: Seq::empty(),
        multipart: MultipartView { text: Seq::empty(), files: Seq::empty() },
    }
}

/// How many kinds of body are staged (a raw or JSON body counts when set,
/// form pairs and multipart parts when there is at least one).
pub open spec fn staged_kinds(p: PendingView) -> nat {
    (if p.raw is Some { 1nat } else { 0nat }) + (if p.json is Some { 1nat } else { 0nat }) + (
    if p.form.len() > 0 { 1nat } else { 0nat }) + (if multipart_empty(p.multipart) {
        0nat
    } else {
        1nat
    })
}

/// What the client is built with: the cookie store switch and the PEM
/// identity, if one is installed.
pub struct ClientSettings {
    pub cookies: bool,
    pub mtls_pem: Option<Vec<u8>>,
}

pub open spec fn opt_bytes_view(o: Option<Vec<u8>>) -> Option<Seq<u8>> {
    match o {
        Some(v) => Some(v@),
        None => None,
    }
}

/// The shared state of the plugin.
pub struct PluginState {
    global_headers: HeaderTable,
    temp_headers: HeaderTable,
    queue: VecDeque<HttpsResponse>,
    max_body_bytes: usize,
    allow_cross_host_once: bool,
    pending_timeout_ms: u64,
    cookies_enabled: bool,
    cancelled: HashSet<i32>,
    in_flight: Vec<i32>,
    delivering: Vec<i32>,
    payload: PendingPayload,
    mtls_pem: Option<Vec<u8>>,
    current_headers: Option<HeaderTable>,
}

pub struct StateView {
    pub global_headers: Map<Seq<char>, Seq<char>>,
    pub temp_headers: Map<Seq<char>, Seq<char>>,
    pub queue: Seq<ResponseView>,
    pub max_body_bytes: usize,
    pub allow_cross_host_once: bool,
    pub pending_timeout_ms: u64,
    pub cookies_enabled: bool,
    pub cancelled: Set<i32>,
    /// The indices of the requests submitted and not yet finished, in
    /// submission order.
    pub in_flight: Seq<i32>,
    /// The indices of the responses taken from the queue for delivery and not
    /// yet delivered, in the order they were taken.
    pub delivering: Seq<i32>,
    pub payload: PendingView,
    pub mtls_pem: Option<Seq<u8>>,
    pub current_headers: Option<Map<Seq<char>, Seq<char>>>,
}

impl View for PluginState {
    type V = StateView;

    closed spec fn view(&self) -> StateView {
        StateView {
            global_headers: self.global_headers@,
            temp_headers: self.temp_headers@,
            queue: self.queue@.map_values(|r: HttpsResponse| r@),
            max_body_bytes: self.max_body_bytes,
            allow_cross_host_once: self.allow_cross_host_once,
            pending_timeout_ms: self.pending_timeout_ms,
            cookies_enabled: self.cookies_enabled,
            cancelled: self.cancelled@,
            in_flight: self.in_flight@,
            delivering: self.delivering@,
            payload: self.payload@,
            mtls_pem: opt_bytes_view(self.mtls_pem),
            current_headers: match self.current_headers {
                Some(t) => Some(t@),
                None => None,
            },
        }
    }
}

/// What holds of the state's view at every step: the queue is bounded, the
/// body cap is in range, and at most one kind of body is staged.
pub open spec fn view_invariant(v: StateView) -> bool {
    &&& v.queue.len() <= MAX_QUEUE
    &&& MIN_BODY_BYTES <= v.max_body_bytes <= MAX_BODY_BYTES_CAP
    &&& staged_kinds(v.payload) <= 1
}

impl PluginState {
    /// The state is well formed.
    pub closed spec fn wf(&self) -> bool {
        &&& self.global_headers.wf()
        &&& self.temp_headers.wf()
        &&& forall|i: int| 0 <= i < self.queue@.len() ==> (#[trigger] self.queue@[i]).headers.wf()
        &&& match self.current_headers {
            Some(t) => t.wf(),
            None => true,
        }
        &&& view_invariant(self@)
    }

    /// The state of a freshly loaded plugin.
    pub fn new() -> (st: PluginState)
        ensures
            st.wf(),
            st@ == crate::ops::initial_view(),
            st@ == (StateView {
                global_headers: Map::empty(),
                temp_headers: Map::empty(),
                queue: Seq::empty(),
                max_body_bytes: DEFAULT_BODY_BYTES,
                allow_cross_host_once: false,
                pending_timeout_ms: 0,
                cookies_enabled: false,
                cancelled: Set::empty(),
                in_flight: Seq::empty(),
                delivering: Seq::empty(),
                payload: empty_pending(),
                mtls_pem: None,
                current_headers: None,
            }),
    {
        let st = PluginState {
            global_headers: HeaderTable::new(),
            temp_headers: HeaderTable::new(),
            queue: VecDeque::new(),
            max_body_bytes: DEFAULT_BODY_BYTES,
            allow_cross_host_once: false,
            pending_timeout_ms: 0,
            cookies_enabled: false,
            cancelled: HashSet::new(),
            in_flight: Vec::new(),
            delivering: Vec::new(),
            payload: PendingPayload {
                raw: None,
                json: None,
                form: Vec::new(),
                multipart: MultipartPayload::new(),
            },
            mtls_pem: None,
            current_headers: None,
        };
        assert(st@.queue =~= Seq::<ResponseView>::empty());
        assert(st@.in_flight =~= Seq::<i32>::empty());
        assert(st@.delivering =~= Seq::<i32>::empty());
        assert(st@.payload.form =~= Seq::<(Seq<char>, Seq<char>)>::empty());
        assert(st@.payload.multipart.text =~= Seq::<(Seq<char>, Seq<char>)>::empty());
        assert(st@.payload.multipart.files =~= Seq::<(Seq<char>, Seq<char>, Seq<char>)>::empty());
        st
    }
}

/// Every well-formed state keeps the queue within 1024 entries, the body cap
/// within 4 KiB ..= 1 MiB, and at most one kind of body staged; every
/// operation keeps the state well formed.
pub proof fn lemma_state_invariant(st: &PluginState)
    requires
        st.wf(),
    ensures
        view_invariant(st@),
{
}

// ---------------------------------------------------------------------------
// Request headers
// ---------------------------------------------------------------------------

/// Sets a global header, kept for every request until cleared.
pub fn set_global_header(st: &mut PluginState, key: String, value: String)
    requires
        old(st).wf(),
    ensures
        final(st).wf(),
        final(st)@ == op_step(old(st)@, StateOp::SetGlobalHeader(key@, value@)),
        final(st)@ == (StateView {
            global_headers: old(st)@.global_headers.insert(key@, value@),
            ..old(st)@
        }),
{
    st.global_headers.insert(key, value);
}

/// Empties the global header table.
pub fn clear_global_headers(st: &mut PluginState)
    requires
        old(st).wf(),
    ensures
        final(st).wf(),
        final(st)@ == op_step(old(st)@, StateOp::ClearGlobalHeaders),
        final(st)@ == (StateView { global_headers: Map::empty(), ..old(st)@ }),
{
    st.global_headers.clear();
}

/// Sets a temporary header, for the next request only.
pub fn set_temp_header(st: &mut PluginState, key: String, value: String)
    requires
        old(st).wf(),
    ensures
        final(st).wf(),
        final(st)@ == op_step(old(st)@, StateOp::SetTempHeader(key@, value@)),
        final(st)@ == (StateView {
            temp_headers: old(st)@.temp_headers.insert(key@, value@),
            ..old(st)@
        }),
{
    st.temp_headers.insert(key, value);
}

/// Empties the temporary header table.
pub fn clear_temp_headers(st: &mut PluginState)
    requires
        old(st).wf(),
    ensures
        final(st).wf(),
        final(st)@ == op_step(old(st)@, StateOp::ClearTempHeaders),
        final(st)@ == (StateView { temp_headers: Map::empty(), ..old(st)@ }),
{
    st.temp_headers.clear();
}

/// Whether a temporary header is set under `name`, ignoring ASCII case.
pub fn has_temp_header(st: &PluginState, name: &str) -> (r: bool)
    requires
        st.wf(),
    ensures
        r == has_name_ignore_case(st@.temp_headers, name@),
{
    st.temp_headers.contains_ignore_case(name)
}

/// The headers a request is sent with: the built-in `User-Agent`, then the
/// global headers, then the temporary ones; a later layer wins on a name.
pub open spec fn layered_headers(
    global: Map<Seq<char>, Seq<char>>,
    temp: Map<Seq<char>, Seq<char>>,
) -> Map<Seq<char>, Seq<char>> {
    map![user_agent_name() => user_agent_value()].union_prefer_right(global).union_prefer_right(temp)
}

/// The header set the next request is sent with.
pub fn snapshot_headers(st: &PluginState) -> (r: HeaderTable)
    requires
        st.wf(),
    ensures
        r.wf(),
        r@ == layered_headers(st@.global_headers, st@.temp_headers),
{
    let mut headers = HeaderTable::new();
    headers.insert("User-Agent".to_owned(), "SA-MP HTTPS/1.0".to_owned());
    proof {
        assert(headers@ =~= map![user_agent_name() => user_agent_value()]);
    }
    headers.extend(&st.global_headers);
    headers.extend(&st.temp_headers);
    headers
}

// ---------------------------------------------------------------------------
// Response queue
// ---------------------------------------------------------------------------

/// The queue after a response arrives for an index that is not cancelled:
/// when full, the oldest entry leaves to make room.
pub open spec fn queue_after_push(q: Seq<ResponseView>, item: ResponseView) -> Seq<ResponseView> {
    if q.len() >= MAX_QUEUE {
        q.drop_first().push(item)
    } else {
        q.push(item)
    }
}

/// Queues a response for delivery, unless its index was cancelled: then the
/// cancellation is used up and nothing is queued.
pub fn enqueue_response(
    st: &mut PluginState,
    index: i32,
    callback: String,
    response: String,
    status: i32,
    error: i32,
    headers: HeaderTable,
)
    requires
        old(st).wf(),
        headers.wf(),
    ensures
        final(st).wf(),
        final(st)@ == op_step(old(st)@, StateOp::Enqueue(
            ResponseView { index, callback: callback@, response: response@, status, error, headers: headers@ },
        )),
        final(st)@ == (StateView {
            cancelled: old(st)@.cancelled.remove(index),
            queue: if old(st)@.cancelled.contains(index) {
                old(st)@.queue
            } else {
                queue_after_push(
                    old(st)@.queue,
                    ResponseView {
                        index,
                        callback: callback@,
                        response: response@,
                        status,
                        error,
                        headers: headers@,
                    },
                )
            },
            ..old(st)@
        }),
{
    if take_cancelled(st, index) {
        return;
    }
    let ghost q0 = st.queue@;
    if st.queue.len() >= MAX_QUEUE {
        st.queue.pop_front();
    }
    let item = HttpsResponse { index, callback, response, status, error, headers };
    st.queue.push_back(item);
    proof {
        let q1 = if q0.len() >= MAX_QUEUE { q0.drop_first() } else { q0 };
        assert(st.queue@ =~= q1.push(item));
        assert(st@.queue =~= queue_after_push(q0.map_values(|r: HttpsResponse| r@), item@));
        assert forall|i: int| 0 <= i < st.queue@.len() implies (#[trigger] st.queue@[i]).headers.wf() by {
            if i < q1.len() {
                if q0.len() >= MAX_QUEUE {
                    assert(st.queue@[i] == q0[i + 1]);
                } else {
                    assert(st.queue@[i] == q0[i]);
                }
            }
        }
    }
}

/// The indices of a run of responses.
pub open spec fn response_indices(q: Seq<ResponseView>) -> Seq<i32> {
    q.map_values(|r: ResponseView| r.index)
}

/// Takes up to `limit` responses from the front of the queue, oldest first;
/// their indices stay pending, as deliveries under way, until each one's
/// delivery begins.
pub fn drain_responses(st: &mut PluginState, limit: usize) -> (out: Vec<HttpsResponse>)
    requires
        old(st).wf(),
    ensures
        final(st).wf(),
        final(st)@ == op_step(old(st)@, StateOp::Drain(limit)),
        ({
            let take = if limit < old(st)@.queue.len() { limit as int } else { old(st)@.queue.len() as int };
            &&& out@.map_values(|r: HttpsResponse| r@) == old(st)@.queue.take(take)
            &&& final(st)@ == (StateView {
                queue: old(st)@.queue.skip(take),
                delivering: old(st)@.delivering + response_indices(old(st)@.queue.take(take)),
                ..old(st)@
            })
        }),
        forall|i: int| 0 <= i < out@.len() ==> (#[trigger] out@[i]).headers.wf(),
{
    let ghost q0 = st.queue@;
    let ghost v0 = st@;
    let take = if limit < st.queue.len() { limit } else { st.queue.len() };
    let mut out: Vec<HttpsResponse> = Vec::new();
    let mut i: usize = 0;
    proof {
        assert(v0.queue.skip(0) =~= v0.queue);
        assert(q0.skip(0) =~= q0);
        assert(out@ =~= q0.take(0));
        assert(v0.delivering + response_indices(v0.queue.take(0)) =~= v0.delivering);
    }
    while i < take
        invariant
            take <= q0.len(),
            i <= take,
            st.queue@ == q0.skip(i as int),
            out@ == q0.take(i as int),
            st.wf(),
            v0.queue == q0.map_values(|r: HttpsResponse| r@),
            st@ == (StateView {
                queue: v0.queue.skip(i as int),
                delivering: v0.delivering + response_indices(v0.queue.take(i as int)),
                ..v0
            }),
            forall|j: int| 0 <= j < q0.len() ==> (#[trigger] q0[j]).headers.wf(),
        decreases take - i,
    {
        let item = st.queue.pop_front();
        match item {
            Some(r) => {
                st.delivering.push(r.index);
                out.push(r);
            },
            None => {
                assert(false);
            },
        }
        proof {
            assert(st.queue@ =~= q0.skip(i + 1));
            assert(out@ =~= q0.take(i + 1));
            assert(st@.queue =~= v0.queue.skip(i + 1));
            assert(response_indices(v0.queue.take(i + 1)) =~= response_indices(v0.queue.take(i as int)).push(q0[i as int].index));
            assert(st@.delivering =~= v0.delivering + response_indices(v0.queue.take(i + 1)));
            assert forall|j: int| 0 <= j < st.queue@.len() implies (#[trigger] st.queue@[j]).headers.wf() by {
                assert(st.queue@[j] == q0[j + i + 1]);
            }
        }
        i = i + 1;
    }
    proof {
        assert(out@.map_values(|r: HttpsResponse| r@) =~= q0.map_values(|r: HttpsResponse| r@).take(take as int));
        assert forall|j: int| 0 <= j < out@.len() implies (#[trigger] out@[j]).headers.wf() by {
            assert(out@[j] == q0[j]);
        }
    }
    out
}

/// The number of responses waiting for delivery.
pub fn queue_len(st: &PluginState) -> (n: usize)
    requires
        st.wf(),
    ensures
        n == st@.queue.len(),
{
    st.queue.len()
}

// ---------------------------------------------------------------------------
// Response body cap
// ---------------------------------------------------------------------------

/// `bytes` clamped to the allowed range of the body cap.
pub open spec fn clamp_body_bytes(bytes: int) -> int {
    if bytes < MIN_BODY_BYTES {
        MIN_BODY_BYTES as int
    } else if bytes > MAX_BODY_BYTES_CAP {
        MAX_BODY_BYTES_CAP as int
    } else {
        bytes
    }
}

/// Sets the response body cap to `bytes` clamped to 4 KiB ..= 1 MiB, and
/// returns the value applied.
pub fn set_max_body_bytes(st: &mut PluginState, bytes: usize) -> (applied: usize)
    requires
        old(st).wf(),
    ensures
        final(st).wf(),
        final(st)@ == op_step(old(st)@, StateOp::SetMaxBodyBytes(bytes as int)),
        applied == clamp_body_bytes(bytes as int),
        final(st)@ == (StateView { max_body_bytes: applied, ..old(st)@ }),
{
    let clamped = if bytes < MIN_BODY_BYTES {
        MIN_BODY_BYTES
    } else if bytes > MAX_BODY_BYTES_CAP {
        MAX_BODY_BYTES_CAP
    } else {
        bytes
    };
    st.max_body_bytes = clamped;
    clamped
}

/// The response body cap in effect.
pub fn max_body_bytes(st: &PluginState) -> (n: usize)
    requires
        st.wf(),
    ensures
        n == st@.max_body_bytes,
        MIN_BODY_BYTES <= n <= MAX_BODY_BYTES_CAP,
{
    st.max_body_bytes
}

// ---------------------------------------------------------------------------
// One-shot request options
// ---------------------------------------------------------------------------

/// Sets whether the next request may follow redirects across hosts.
pub fn set_allow_cross_host_once(st: &mut PluginState, enable: bool)
    requires
        old(st).wf(),
    ensures
        final(st).wf(),
        final(st)@ == op_step(old(st)@, StateOp::SetAllowCrossHost(enable)),
        final(st)@ == (StateView { allow_cross_host_once: enable, ..old(st)@ }),
{
    st.allow_cross_host_once = enable;
}

/// Takes the cross-host permission for a request, resetting it.
pub fn take_allow_cross_host_once(st: &mut PluginState) -> (r: bool)
    requires
        old(st).wf(),
    ensures
        final(st).wf(),
        final(st)@ == op_step(old(st)@, StateOp::TakeAllowCrossHost),
        r == old(st)@.allow_cross_host_once,
        final(st)@ == (StateView { allow_cross_host_once: false, ..old(st)@ }),
{
    let r = st.allow_cross_host_once;
    st.allow_cross_host_once = false;
    r
}

/// Sets the total timeout of the next request, in milliseconds (0: the default).
pub fn set_timeout_once(st: &mut PluginState, total_ms: u64)
    requires
        old(st).wf(),
    ensures
        final(st).wf(),
        final(st)@ == op_step(old(st)@, StateOp::SetTimeout(total_ms)),
        final(st)@ == (StateView { pending_timeout_ms: total_ms, ..old(st)@ }),
{
    st.pending_timeout_ms = total_ms;
}

/// Takes the timeout for a request, resetting it: `None` means the default.
pub fn take_timeout_once(st: &mut PluginState) -> (r: Option<u64>)
    requires
        old(st).wf(),
    ensures
        final(st).wf(),
        final(st)@ == op_step(old(st)@, StateOp::TakeTimeout),
        r == (if old(st)@.pending_timeout_ms == 0 {
            None
        } else {
            Some(old(st)@.pending_timeout_ms)
        }),
        final(st)@ == (StateView { pending_timeout_ms: 0, ..old(st)@ }),
{
    let ms = st.pending_timeout_ms;
    st.pending_timeout_ms = 0;
    if ms == 0 {
        None
    } else {
        Some(ms)
    }
}

// ---------------------------------------------------------------------------
// Cancellation
// ---------------------------------------------------------------------------

/// A request with this index is in flight, a response with this index is
/// waiting in the queue, or one was taken from the queue and its delivery has
/// not begun.
pub open spec fn pending_index(v: StateView, index: i32) -> bool {
    ||| v.in_flight.contains(index)
    ||| (exists|i: int| 0 <= i < v.queue.len() && #[trigger] v.queue[i].index == index)
    ||| v.delivering.contains(index)
}

/// Whether `x` occurs in `v`.
fn vec_contains(v: &Vec<i32>, x: i32) -> (r: bool)
    ensures
        r == v@.contains(x),
{
    let n = v.len();
    let mut i: usize = 0;
    while i < n
        invariant
            n == v@.len(),
            i <= n,
            forall|j: int| 0 <= j < i ==> v@[j] != x,
        decreases n - i,
    {
        if v[i] == x {
            proof { assert(v@[i as int] == x); }
            return true;
        }
        i = i + 1;
    }
    false
}

/// Removes the first occurrence of `x` from `v`, if there is one.
fn vec_remove_one(v: &mut Vec<i32>, x: i32)
    ensures
        final(v)@ == remove_one(old(v)@, x),
{
    let ghost s = v@;
    let n = v.len();
    let mut i: usize = 0;
    while i < n
        invariant
            n == v@.len(),
            s == v@,
            s == old(v)@,
            i <= n,
            forall|j: int| 0 <= j < i ==> s[j] != x,
        decreases n - i,
    {
        if v[i] == x {
            proof {
                assert(s.contains(x));
                assert(exists|k: int| 0 <= k < s.len() && s[k] == x && forall|j: int| 0 <= j < k ==> s[j] != x) by {
                    assert(0 <= i < s.len() && s[i as int] == x && forall|j: int| 0 <= j < i ==> s[j] != x);
                }
                let k = first_index_of(s, x);
                if k < i {
                    assert(s[k] != x);
                } else if k > i {
                    assert(s[i as int] != x);
                }
            }
            v.remove(i);
            return;
        }
        i = i + 1;
    }
    proof {
        assert(!s.contains(x));
    }
}

/// Whether a response with this index waits in the queue.
fn queue_holds_index(st: &PluginState, index: i32) -> (r: bool)
    ensures
        r == exists|i: int| 0 <= i < st@.queue.len() && #[trigger] st@.queue[i].index == index,
{
    let n = st.queue.len();
    let mut i: usize = 0;
    while i < n
        invariant
            n == st.queue@.len(),
            i <= n,
            forall|j: int| 0 <= j < i ==> st.queue@[j].index != index,
        decreases n - i,
    {
        if st.queue[i].index == index {
            proof { assert(st@.queue[i as int].index == index); }
            return true;
        }
        i = i + 1;
    }
    proof {
        assert forall|j: int| 0 <= j < st@.queue.len() implies #[trigger] st@.queue[j].index != index by {
            assert(st@.queue[j] == st.queue@[j]@);
        }
    }
    false
}

/// Marks an index as cancelled, so that its response is not delivered; an
/// index with no request in flight and no response queued is left alone.
pub fn cancel(st: &mut PluginState, index: i32)
    requires
        old(st).wf(),
    ensures
        final(st).wf(),
        final(st)@ == op_step(old(st)@, StateOp::Cancel(index)),
        pending_index(old(st)@, index) ==> final(st)@ == (StateView {
            cancelled: old(st)@.cancelled.insert(index),
            ..old(st)@
        }),
        !pending_index(old(st)@, index) ==> final(st)@ == old(st)@,
{
    if vec_contains(&st.in_flight, index) || queue_holds_index(st, index) || vec_contains(
        &st.delivering,
        index,
    ) {
        st.cancelled.insert(index);
    }
}

/// The position of the first occurrence of `x` in `s`.
pub open spec fn first_index_of(s: Seq<i32>, x: i32) -> int {
    choose|i: int| 0 <= i < s.len() && s[i] == x && forall|j: int| 0 <= j < i ==> s[j] != x
}

/// `s` without its first occurrence of `x` (unchanged when `x` does not occur).
pub open spec fn remove_one(s: Seq<i32>, x: i32) -> Seq<i32> {
    if s.contains(x) {
        s.remove(first_index_of(s, x))
    } else {
        s
    }
}

/// Records a submitted request as in flight.
pub fn mark_in_flight(st: &mut PluginState, index: i32)
    requires
        old(st).wf(),
    ensures
        final(st).wf(),
        final(st)@ == op_step(old(st)@, StateOp::MarkInFlight(index)),
        final(st)@ == (StateView { in_flight: old(st)@.in_flight.push(index), ..old(st)@ }),
{
    st.in_flight.push(index);
}

/// Records that one request with this index is no longer in flight.
pub fn end_in_flight(st: &mut PluginState, index: i32)
    requires
        old(st).wf(),
    ensures
        final(st).wf(),
        final(st)@ == op_step(old(st)@, StateOp::EndInFlight(index)),
        final(st)@ == (StateView { in_flight: remove_one(old(st)@.in_flight, index), ..old(st)@ }),
{
    vec_remove_one(&mut st.in_flight, index);
}

/// Whether the index was cancelled; the cancellation is used up.
pub fn take_cancelled(st: &mut PluginState, index: i32) -> (r: bool)
    requires
        old(st).wf(),
    ensures
        final(st).wf(),
        final(st)@ == op_step(old(st)@, StateOp::TakeCancelled(index)),
        r == old(st)@.cancelled.contains(index),
        final(st)@ == (StateView { cancelled: old(st)@.cancelled.remove(index), ..old(st)@ }),
{
    st.cancelled.remove(&index)
}

// ---------------------------------------------------------------------------
// Staged request body (one slot; multipart > raw > json > form)
// ---------------------------------------------------------------------------

/// The slot holding only a raw body.
pub open spec fn only_raw(s: Seq<char>) -> PendingView {
    PendingView { raw: Some(s), ..empty_pending() }
}

/// The slot holding only a JSON body.
pub open spec fn only_json(s: Seq<char>) -> PendingView {
    PendingView { json: Some(s), ..empty_pending() }
}

/// The slot holding only form pairs.
pub open spec fn only_form(f: Seq<(Seq<char>, Seq<char>)>) -> PendingView {
    PendingView { form: f, ..empty_pending() }
}

/// The slot holding only multipart parts.
pub open spec fn only_multipart(m: MultipartView) -> PendingView {
    PendingView { multipart: m, ..empty_pending() }
}

fn clear_other_payloads(p: &mut PendingPayload)
    ensures
        final(p)@ == empty_pending(),
{
    p.raw = None;
    p.json = None;
    p.form.clear();
    p.multipart.text.clear();
    p.multipart.files.clear();
    assert(p@.form =~= Seq::<(Seq<char>, Seq<char>)>::empty());
    assert(p@.multipart.text =~= Seq::<(Seq<char>, Seq<char>)>::empty());
    assert(p@.multipart.files =~= Seq::<(Seq<char>, Seq<char>, Seq<char>)>::empty());
}

/// Stages a raw body, replacing whatever was staged; refused when it is
/// longer, in bytes, than the body cap.
pub fn set_body_raw(st: &mut PluginState, s: String) -> (ok: bool)
    requires
        old(st).wf(),
    ensures
        final(st).wf(),
        final(st)@ == op_step(old(st)@, StateOp::StageRaw(s@)),
        ok == (byte_len(s@) <= old(st)@.max_body_bytes),
        ok ==> final(st)@ == (StateView { payload: only_raw(s@), ..old(st)@ }),
        !ok ==> final(st)@ == old(st)@,
{
    if s.as_str().len() > st.max_body_bytes {
        return false;
    }
    clear_other_payloads(&mut st.payload);
    st.payload.raw = Some(s);
    true
}

/// Stages a JSON body, replacing whatever was staged; refused when it is
/// longer, in bytes, than the body cap, or when `serde_json` does not parse it.
pub fn set_body_json(st: &mut PluginState, s: String) -> (ok: bool)
    requires
        old(st).wf(),
    ensures
        final(st).wf(),
        final(st)@ == op_step(old(st)@, StateOp::StageJson(s@)),
        ok == (byte_len(s@) <= old(st)@.max_body_bytes && json_accepted(s@)),
        ok ==> final(st)@ == (StateView { payload: only_json(s@), ..old(st)@ }),
        !ok ==> final(st)@ == old(st)@,
{
    if s.as_str().len() > st.max_body_bytes {
        return false;
    }
    if !json_parses(s.as_str()) {
        return false;
    }
    clear_other_payloads(&mut st.payload);
    st.payload.json = Some(s);
    true
}

/// Appends a pair to the staged form, dropping any other kind of staged body;
/// refused, with nothing changed, when the encoded form with the new pair
/// would be longer, in bytes, than the body cap.
pub fn add_form_pair(st: &mut PluginState, key: String, value: String) -> (ok: bool)
    requires
        old(st).wf(),
    ensures
        final(st).wf(),
        final(st)@ == op_step(old(st)@, StateOp::AddFormPair(key@, value@)),
        ok == (byte_len(form_body(old(st)@.payload.form.push((key@, value@))))
            <= old(st)@.max_body_bytes),
        ok ==> final(st)@ == (StateView {
            payload: only_form(old(st)@.payload.form.push((key@, value@))),
            ..old(st)@
        }),
        !ok ==> final(st)@ == old(st)@,
{
    let ghost f0 = st@.payload.form;
    let mut body = serialize_form(&st.payload.form);
    proof {
        lemma_form_body_nonempty(f0);
        lemma_form_body_push(f0, key@, value@);
    }
    form_append_pair(&mut body, key.as_str(), value.as_str());
    if body.as_str().len() > st.max_body_bytes {
        return false;
    }
    st.payload.raw = None;
    st.payload.json = None;
    st.payload.multipart.text.clear();
    st.payload.multipart.files.clear();
    st.payload.form.push((key, value));
    proof {
        assert(st@.payload.form =~= f0.push((key@, value@)));
        assert(st@.payload.multipart.text =~= Seq::<(Seq<char>, Seq<char>)>::empty());
        assert(st@.payload.multipart.files =~= Seq::<(Seq<char>, Seq<char>, Seq<char>)>::empty());
    }
    true
}

/// Appends a text field to the staged multipart body, dropping any other kind
/// of staged body.
pub fn add_multipart_text(st: &mut PluginState, key: String, value: String) -> (ok: bool)
    requires
        old(st).wf(),
    ensures
        final(st).wf(),
        final(st)@ == op_step(old(st)@, StateOp::AddMultipartText(key@, value@)),
        ok,
        final(st)@ == (StateView {
            payload: only_multipart(
                MultipartView {
                    text: old(st)@.payload.multipart.text.push((key@, value@)),
                    ..old(st)@.payload.multipart
                },
            ),
            ..old(st)@
        }),
{
    let ghost m0 = st@.payload.multipart;
    st.payload.raw = None;
    st.payload.json = None;
    st.payload.form.clear();
    st.payload.multipart.text.push((key, value));
    proof {
        assert(st@.payload.form =~= Seq::<(Seq<char>, Seq<char>)>::empty());
        assert(st@.payload.multipart.text =~= m0.text.push((key@, value@)));
    }
    true
}

/// Appends a file field to the staged multipart body, dropping any other kind
/// of staged body; refused, with nothing changed, when the path does not
/// exist (`path_exists` is that check, made by the caller on the file system).
pub fn add_multipart_file(
    st: &mut PluginState,
    field: String,
    filename: String,
    path: String,
    path_exists: bool,
) -> (ok: bool)
    requires
        old(st).wf(),
    ensures
        final(st).wf(),
        final(st)@ == op_step(old(st)@, StateOp::AddMultipartFile(field@, filename@, path@, path_exists)),
        ok == path_exists,
        ok ==> final(st)@ == (StateView {
            payload: only_multipart(
                MultipartView {
                    files: old(st)@.payload.multipart.files.push((field@, filename@, path@)),
                    ..old(st)@.payload.multipart
                },
            ),
            ..old(st)@
        }),
        !ok ==> final(st)@ == old(st)@,
{
    if !path_exists {
        return false;
    }
    let ghost m0 = st@.payload.multipart;
    st.payload.raw = None;
    st.payload.json = None;
    st.payload.form.clear();
    st.payload.multipart.files.push((field, filename, path));
    proof {
        assert(st@.payload.form =~= Seq::<(Seq<char>, Seq<char>)>::empty());
        assert(st@.payload.multipart.files =~= m0.files.push((field@, filename@, path@)));
    }
    true
}

/// The body a request takes from the slot, by priority: multipart parts,
/// then a raw body, then a JSON body (with its `Content-Type`), then the
/// encoded form (with its `Content-Type`).
pub open spec fn prepared_of(p: PendingView) -> PreparedView {
    if !multipart_empty(p.multipart) {
        PreparedView::Multipart(p.multipart)
    } else if p.raw is Some {
        PreparedView::Raw(p.raw->0, None)
    } else if p.json is Some {
        PreparedView::Raw(p.json->0, Some(json_content_type()))
    } else if p.form.len() > 0 {
        PreparedView::Raw(form_body(p.form), Some(form_content_type()))
    } else {
        PreparedView::NoBody
    }
}

/// The slot after a request took its body: the kind taken is emptied.
pub open spec fn pending_after_take(p: PendingView) -> PendingView {
    if !multipart_empty(p.multipart) {
        PendingView { multipart: MultipartView { text: Seq::empty(), files: Seq::empty() }, ..p }
    } else if p.raw is Some {
        PendingView { raw: None, ..p }
    } else if p.json is Some {
        PendingView { json: None, ..p }
    } else if p.form.len() > 0 {
        PendingView { form: Seq::empty(), ..p }
    } else {
        p
    }
}

/// Takes the staged body for a request.
pub fn take_prepared_body(st: &mut PluginState) -> (r: PreparedBody)
    requires
        old(st).wf(),
    ensures
        final(st).wf(),
        final(st)@ == op_step(old(st)@, StateOp::TakeBody),
        r@ == prepared_of(old(st)@.payload),
        final(st)@ == (StateView { payload: pending_after_take(old(st)@.payload), ..old(st)@ }),
{
    if !st.payload.multipart.is_empty() {
        let mut m = MultipartPayload::new();
        std::mem::swap(&mut m, &mut st.payload.multipart);
        proof {
            assert(st@.payload.multipart.text =~= Seq::<(Seq<char>, Seq<char>)>::empty());
            assert(st@.payload.multipart.files =~= Seq::<(Seq<char>, Seq<char>, Seq<char>)>::empty());
        }
        return PreparedBody::Multipart(m);
    }
    if st.payload.raw.is_some() {
        let s = st.payload.raw.take();
        match s {
            Some(s) => {
                return PreparedBody::Raw(s, None);
            },
            None => {
                assert(false);
                return PreparedBody::NoBody;
            },
        }
    }
    if st.payload.json.is_some() {
        let s = st.payload.json.take();
        match s {
            Some(s) => {
                return PreparedBody::Raw(s, Some(json_content_type_string()));
            },
            None => {
                assert(false);
                return PreparedBody::NoBody;
            },
        }
    }
    if st.payload.form.len() > 0 {
        let body = serialize_form(&st.payload.form);
        st.payload.form.clear();
        proof {
            assert(st@.payload.form =~= Seq::<(Seq<char>, Seq<char>)>::empty());
        }
        return PreparedBody::Raw(body, Some(form_content_type_string()));
    }
    PreparedBody::NoBody
}

// ---------------------------------------------------------------------------
// Client settings: cookie store and mutual-TLS identity
// ---------------------------------------------------------------------------

/// Switches the cookie store on or off for the client built next.
pub fn set_cookies_enabled(st: &mut PluginState, enabled: bool)
    requires
        old(st).wf(),
    ensures
        final(st).wf(),
        final(st)@ == op_step(old(st)@, StateOp::SetCookies(enabled)),
        final(st)@ == (StateView { cookies_enabled: enabled, ..old(st)@ }),
{
    st.cookies_enabled = enabled;
}

/// Installs a PEM client identity; refused, with nothing changed, when
/// `reqwest` does not accept it.
pub fn set_mtls_identity_pem(st: &mut PluginState, pem: &[u8]) -> (ok: bool)
    requires
        old(st).wf(),
    ensures
        final(st).wf(),
        final(st)@ == op_step(old(st)@, StateOp::SetPem(pem@)),
        ok == pem_identity_accepted(pem@),
        ok ==> final(st)@ == (StateView { mtls_pem: Some(pem@), ..old(st)@ }),
        !ok ==> final(st)@ == old(st)@,
{
    if !pem_identity_parses(pem) {
        return false;
    }
    st.mtls_pem = Some(vstd::slice::slice_to_vec(pem));
    true
}

/// Removes the PEM client identity.
pub fn clear_mtls_identity(st: &mut PluginState)
    requires
        old(st).wf(),
    ensures
        final(st).wf(),
        final(st)@ == op_step(old(st)@, StateOp::ClearPem),
        final(st)@ == (StateView { mtls_pem: None, ..old(st)@ }),
{
    st.mtls_pem = None;
}

/// The settings the active client is (re)built with.
pub fn client_settings(st: &PluginState) -> (r: ClientSettings)
    requires
        st.wf(),
    ensures
        r.cookies == st@.cookies_enabled,
        opt_bytes_view(r.mtls_pem) == st@.mtls_pem,
{
    let pem = match &st.mtls_pem {
        Some(v) => Some(vstd::slice::slice_to_vec(v.as_slice())),
        None => None,
    };
    ClientSettings { cookies: st.cookies_enabled, mtls_pem: pem }
}

// ---------------------------------------------------------------------------
// Delivery of a response to its script callback
// ---------------------------------------------------------------------------

/// Starts delivering a response: refused (and the cancellation used up) when
/// its index was cancelled; otherwise its headers become readable through
/// `current_header` until `end_delivery`.
pub fn begin_delivery(st: &mut PluginState, item: &HttpsResponse) -> (deliver: bool)
    requires
        old(st).wf(),
        item.headers.wf(),
    ensures
        final(st).wf(),
        final(st)@ == op_step(old(st)@, StateOp::BeginDelivery(item@)),
        deliver == !old(st)@.cancelled.contains(item.index),
        final(st)@ == (StateView {
            cancelled: old(st)@.cancelled.remove(item.index),
            delivering: remove_one(old(st)@.delivering, item.index),
            current_headers: if deliver {
                Some(item.headers@)
            } else {
                old(st)@.current_headers
            },
            ..old(st)@
        }),
{
    vec_remove_one(&mut st.delivering, item.index);
    if take_cancelled(st, item.index) {
        return false;
    }
    st.current_headers = Some(item.headers.duplicate());
    true
}

/// Ends the delivery of a response: its headers are no longer readable.
pub fn end_delivery(st: &mut PluginState)
    requires
        old(st).wf(),
    ensures
        final(st).wf(),
        final(st)@ == op_step(old(st)@, StateOp::EndDelivery),
        final(st)@ == (StateView { current_headers: None, ..old(st)@ }),
{
    st.current_headers = None;
}

/// A header of the response being delivered, looked up by its name in ASCII
/// lower case; `None` outside a delivery or when the header is absent.
pub fn current_header(st: &PluginState, key: &str) -> (r: Option<String>)
    requires
        st.wf(),
    ensures
        match r {
            Some(v) => st@.current_headers is Some
                && st@.current_headers->0.contains_key(crate::text::ascii_lower(key@))
                && st@.current_headers->0[crate::text::ascii_lower(key@)] == v@,
            None => st@.current_headers is None
                || !st@.current_headers->0.contains_key(crate::text::ascii_lower(key@)),
        },
{
    let lookup = crate::text::to_ascii_lowercase(key);
    match &st.current_headers {
        Some(t) => match t.get(lookup.as_str()) {
            Some(v) => Some(v.clone()),
            None => None,
        },
        None => None,
    }
}

} // verus!
