//! What the script-facing natives decide, apart from reading their arguments
//! from the script and writing results back.

use vstd::prelude::*;
use crate::ops::{op_step, StateOp};
use vstd::string::StringExecFns;
use vstd::utf8::encode_utf8;
use crate::encoding::{base64_encode, base64_standard, json_accepted};
use crate::headers::{has_name_ignore_case, names_distinct, pairs_map, pairs_view};
use crate::https::{BodyPayload, BodyView, Job};
use crate::payload::{form_content_type, form_content_type_string, json_content_type,
    json_content_type_string, PreparedBody, PreparedView};
use crate::state::{byte_len, clamp_body_bytes, layered_headers, max_body_bytes, pending_after_take,
    prepared_of, queue_len, set_body_json, set_max_body_bytes, set_temp_header, set_timeout_once,
    snapshot_headers, take_allow_cross_host_once, take_prepared_body, take_timeout_once,
    add_form_pair, clear_temp_headers, has_temp_header, mark_in_flight, PluginState, StateView};
use crate::encoding::form_body;

verus! {

/// Request type numbers of the Pawn include.
pub const POST: i32 = 2;
pub const HEAD: i32 = 3;
pub const PUT: i32 = 4;
pub const DELETE: i32 = 5;
pub const PATCH: i32 = 6;

/// The largest PEM file the identity loader reads, in bytes.
pub const PEM_FILE_MAX_BYTES: u64 = 256 * 1024;

/// The method name a request type selects; any other number selects `GET`.
pub open spec fn method_name_of(request_type: i32) -> Seq<char> {
    if request_type == POST {
        "POST"@
    } else if request_type == HEAD {
        "HEAD"@
    } else if request_type == PUT {
        "PUT"@
    } else if request_type == DELETE {
        "DELETE"@
    } else if request_type == PATCH {
        "PATCH"@
    } else {
        "GET"@
    }
}

/// The method name of a request type.
pub fn method_name(request_type: i32) -> (r: &'static str)
    ensures
        r@ == method_name_of(request_type),
{
    if request_type == POST {
        "POST"
    } else if request_type == HEAD {
        "HEAD"
    } else if request_type == PUT {
        "PUT"
    } else if request_type == DELETE {
        "DELETE"
    } else if request_type == PATCH {
        "PATCH"
    } else {
        "GET"
    }
}

/// Request types that carry a body: POST, PUT and PATCH.
pub open spec fn accepts_body(request_type: i32) -> bool {
    request_type == POST || request_type == PUT || request_type == PATCH
}

pub fn method_accepts_body(request_type: i32) -> (r: bool)
    ensures
        r == accepts_body(request_type),
{
    request_type == POST || request_type == PUT || request_type == PATCH
}

/// The state after a request was submitted: it took the temporary headers and
/// the one-shot options, and its index is in flight.
pub open spec fn after_submitted(v: StateView, index: i32) -> StateView {
    StateView {
        temp_headers: Map::empty(),
        allow_cross_host_once: false,
        pending_timeout_ms: 0,
        in_flight: v.in_flight.push(index),
        ..v
    }
}

/// The job of a request: its headers are the layered header set; it takes
/// the temporary headers, which apply to this request only, and the one-shot
/// cross-host permission and timeout.
pub fn start_request(
    st: &mut PluginState,
    index: i32,
    method: String,
    url: String,
    body: BodyPayload,
    callback: String,
) -> (job: Job)
    requires
        old(st).wf(),
    ensures
        final(st).wf(),
        final(st)@ == op_step(old(st)@, StateOp::StartRequest(index)),
        final(st)@ == after_submitted(old(st)@, index),
        job.index == index,
        job.method == method,
        job.url == url,
        job.body == body,
        job.callback == callback,
        names_distinct(pairs_view(job.headers@)),
        pairs_map(pairs_view(job.headers@)) == layered_headers(
            old(st)@.global_headers,
            old(st)@.temp_headers,
        ),
        job.allow_cross_host == old(st)@.allow_cross_host_once,
        job.total_timeout == (if old(st)@.pending_timeout_ms == 0 {
            None
        } else {
            Some(old(st)@.pending_timeout_ms)
        }),
{
    let table = snapshot_headers(st);
    let headers = table.to_pairs();
    clear_temp_headers(st);
    let allow_cross_host = take_allow_cross_host_once(st);
    let total_timeout = take_timeout_once(st);
    mark_in_flight(st, index);
    Job { index, method, url, body, callback, headers, allow_cross_host, total_timeout }
}

/// A request takes the staged body: it carries a body and its inline data is empty.
pub open spec fn takes_staged(request_type: i32, data: Seq<char>) -> bool {
    accepts_body(request_type) && data.len() == 0
}

/// The body a submitted request is sent with: none unless the type carries a
/// body; then the inline data when it is not empty, else the staged body.
pub open spec fn submitted_body(request_type: i32, data: Seq<char>, v: StateView) -> BodyView {
    if !accepts_body(request_type) {
        BodyView::NoBody
    } else if data.len() > 0 {
        BodyView::Raw(data)
    } else {
        match prepared_of(v.payload) {
            PreparedView::NoBody => BodyView::NoBody,
            PreparedView::Raw(s, _) => BodyView::Raw(s),
            PreparedView::Multipart(m) => BodyView::Multipart(m),
        }
    }
}

/// The state once a request took the staged body: the kind taken is emptied,
/// and the `Content-Type` it implies, if any, becomes a temporary header
/// unless one was set by hand (under any ASCII case).
pub open spec fn after_staged_taken(request_type: i32, data: Seq<char>, v: StateView) -> StateView {
    if !takes_staged(request_type, data) {
        v
    } else {
        StateView {
            payload: pending_after_take(v.payload),
            temp_headers: match prepared_of(v.payload) {
                PreparedView::Raw(_, Some(ct)) => if has_name_ignore_case(v.temp_headers, "Content-Type"@) {
                    v.temp_headers
                } else {
                    v.temp_headers.insert("Content-Type"@, ct)
                },
                _ => v.temp_headers,
            },
            ..v
        }
    }
}

/// Submits a request (the `https` native): chooses its method and body and
/// makes its job.
pub fn https(
    st: &mut PluginState,
    index: i32,
    request_type: i32,
    url: String,
    data: String,
    callback: String,
) -> (job: Job)
    requires
        old(st).wf(),
    ensures
        final(st).wf(),
        final(st)@ == op_step(old(st)@, StateOp::Submit(index, request_type, data@)),
        ({
            let mid = after_staged_taken(request_type, data@, old(st)@);
            &&& final(st)@ == after_submitted(mid, index)
            &&& job.index == index
            &&& job.method@ == method_name_of(request_type)
            &&& job.url == url
            &&& job.callback == callback
            &&& job.body@ == submitted_body(request_type, data@, old(st)@)
            &&& accepts_body(request_type) && data@.len() == 0 && (old(st)@.payload.multipart.text.len() > 0
                || old(st)@.payload.multipart.files.len() > 0) ==> job.body@ == BodyView::Multipart(
                old(st)@.payload.multipart,
            )
            &&& names_distinct(pairs_view(job.headers@))
            &&& pairs_map(pairs_view(job.headers@)) == layered_headers(
                mid.global_headers,
                mid.temp_headers,
            )
            &&& job.allow_cross_host == old(st)@.allow_cross_host_once
            &&& job.total_timeout == (if old(st)@.pending_timeout_ms == 0 {
                None
            } else {
                Some(old(st)@.pending_timeout_ms)
            })
        }),
{
    let method = method_name(request_type).to_owned();
    let body = if method_accepts_body(request_type) {
        if !data.as_str().is_empty() {
            BodyPayload::Raw(data)
        } else {
            match take_prepared_body(st) {
                PreparedBody::NoBody => BodyPayload::NoBody,
                PreparedBody::Raw(s, ct) => {
                    match ct {
                        Some(ct) => {
                            if !has_temp_header(st, "Content-Type") {
                                set_temp_header(st, "Content-Type".to_owned(), ct);
                            }
                        },
                        None => {},
                    }
                    BodyPayload::Raw(s)
                },
                PreparedBody::Multipart(parts) => BodyPayload::Multipart(parts),
            }
        }
    } else {
        BodyPayload::NoBody
    };
    start_request(st, index, method, url, body, callback)
}

/// Stages a JSON body (the `https_jsonf` native); on success its
/// `Content-Type` becomes a temporary header.
pub fn https_jsonf(st: &mut PluginState, data: String) -> (ok: bool)
    requires
        old(st).wf(),
    ensures
        final(st).wf(),
        final(st)@ == op_step(old(st)@, StateOp::JsonBuilder(data@)),
        ok == (byte_len(data@) <= old(st)@.max_body_bytes && json_accepted(data@)),
        ok ==> final(st)@ == (StateView {
            payload: crate::state::only_json(data@),
            temp_headers: old(st)@.temp_headers.insert("Content-Type"@, json_content_type()),
            ..old(st)@
        }),
        !ok ==> final(st)@ == old(st)@,
{
    if !set_body_json(st, data) {
        return false;
    }
    set_temp_header(st, "Content-Type".to_owned(), json_content_type_string());
    true
}

/// Appends a form pair (the `https_form_add` native); on success the form's
/// `Content-Type` becomes a temporary header.
pub fn https_form_add(st: &mut PluginState, key: String, value: String) -> (ok: bool)
    requires
        old(st).wf(),
    ensures
        final(st).wf(),
        final(st)@ == op_step(old(st)@, StateOp::FormBuilder(key@, value@)),
        ok == (byte_len(form_body(old(st)@.payload.form.push((key@, value@))))
            <= old(st)@.max_body_bytes),
        ok ==> final(st)@ == (StateView {
            payload: crate::state::only_form(old(st)@.payload.form.push((key@, value@))),
            temp_headers: old(st)@.temp_headers.insert("Content-Type"@, form_content_type()),
            ..old(st)@
        }),
        !ok ==> final(st)@ == old(st)@,
{
    if !add_form_pair(st, key, value) {
        return false;
    }
    set_temp_header(st, "Content-Type".to_owned(), form_content_type_string());
    true
}

/// The `Authorization` value for HTTP Basic authentication:
/// `Basic ` and the Base64 of the UTF-8 of `user:password`.
pub open spec fn basic_auth_value(user: Seq<char>, password: Seq<char>) -> Seq<char> {
    "Basic "@ + base64_standard(encode_utf8(user + ":"@ + password))
}

/// Stages an `Authorization: Basic` header for the next request.
pub fn https_set_basic_auth_once(st: &mut PluginState, user: &str, password: &str)
    requires
        old(st).wf(),
    ensures
        final(st).wf(),
        final(st)@ == op_step(old(st)@, StateOp::SetTempHeader("Authorization"@, basic_auth_value(user@, password@))),
        final(st)@ == (StateView {
            temp_headers: old(st)@.temp_headers.insert(
                "Authorization"@,
                basic_auth_value(user@, password@),
            ),
            ..old(st)@
        }),
{
    let mut credentials = user.to_owned();
    credentials.append(":");
    credentials.append(password);
    let token = base64_encode(credentials.as_str().as_bytes());
    let mut value = "Basic ".to_owned();
    value.append(token.as_str());
    set_temp_header(st, "Authorization".to_owned(), value);
}

/// Stages an `Authorization: Bearer` header for the next request.
pub fn https_set_bearer_once(st: &mut PluginState, token: &str)
    requires
        old(st).wf(),
    ensures
        final(st).wf(),
        final(st)@ == op_step(old(st)@, StateOp::SetTempHeader("Authorization"@, "Bearer "@ + token@)),
        final(st)@ == (StateView {
            temp_headers: old(st)@.temp_headers.insert("Authorization"@, "Bearer "@ + token@),
            ..old(st)@
        }),
{
    let mut value = "Bearer ".to_owned();
    value.append(token);
    set_temp_header(st, "Authorization".to_owned(), value);
}

/// Sets the body cap from a script number: negative numbers count as 0;
/// returns the value applied.
pub fn https_set_max_body_bytes(st: &mut PluginState, bytes: i32) -> (applied: i32)
    requires
        old(st).wf(),
    ensures
        final(st).wf(),
        final(st)@ == op_step(old(st)@, StateOp::SetMaxBodyBytes(if bytes < 0 { 0 } else { bytes as int })),
        applied == clamp_body_bytes(if bytes < 0 { 0 } else { bytes as int }),
        final(st)@ == (StateView { max_body_bytes: applied as usize, ..old(st)@ }),
{
    let requested: usize = if bytes < 0 { 0 } else { bytes as usize };
    let applied = set_max_body_bytes(st, requested);
    applied as i32
}

/// The body cap, as a script number.
pub fn https_get_max_body_bytes(st: &PluginState) -> (r: i32)
    requires
        st.wf(),
    ensures
        r == st@.max_body_bytes,
{
    let n = max_body_bytes(st);
    n as i32
}

/// The number of responses waiting, as a script number.
pub fn https_queue_len(st: &PluginState) -> (r: i32)
    requires
        st.wf(),
    ensures
        r == st@.queue.len(),
{
    proof {
        crate::state::lemma_state_invariant(st);
    }
    let n = queue_len(st);
    n as i32
}

/// Sets the next request's total timeout from a script number of
/// milliseconds: negative numbers count as 0, the default.
pub fn https_set_timeout_once(st: &mut PluginState, total_ms: i32)
    requires
        old(st).wf(),
    ensures
        final(st).wf(),
        final(st)@ == op_step(old(st)@, StateOp::SetTimeout(if total_ms < 0 { 0 } else { total_ms as u64 })),
        final(st)@ == (StateView {
            pending_timeout_ms: if total_ms < 0 { 0 } else { total_ms as u64 },
            ..old(st)@
        }),
{
    let ms: u64 = if total_ms < 0 { 0 } else { total_ms as u64 };
    set_timeout_once(st, ms);
}

/// Whether a PEM file of `len` bytes may be loaded: at most 256 KiB.
pub fn pem_file_size_allowed(len: u64) -> (r: bool)
    ensures
        r == (len <= PEM_FILE_MAX_BYTES),
{
    len <= PEM_FILE_MAX_BYTES
}

} // verus!
