//! The operations on the plugin's state, as one transition function over the
//! state's view. Every function that changes the state says, in its contract,
//! which step it takes; the properties of whole runs are stated over it.

use vstd::prelude::*;
use crate::encoding::{form_body, json_accepted, pem_identity_accepted};
use crate::https::{after_finish, CompletionView};
use crate::natives::{after_staged_taken, after_submitted};
use crate::payload::{form_content_type, json_content_type, MultipartView};
use crate::state::{byte_len, clamp_body_bytes, empty_pending, only_form, only_json, only_multipart,
    only_raw, pending_after_take, pending_index, queue_after_push, remove_one, response_indices, ResponseView,
    StateView, DEFAULT_BODY_BYTES};

verus! {

/// One operation on the state, with the plain values it is given.
pub enum StateOp {
    SetGlobalHeader(Seq<char>, Seq<char>),
    ClearGlobalHeaders,
    SetTempHeader(Seq<char>, Seq<char>),
    ClearTempHeaders,
    Enqueue(ResponseView),
    Drain(usize),
    /// Sets the body cap to the given number of bytes, clamped.
    SetMaxBodyBytes(int),
    SetAllowCrossHost(bool),
    TakeAllowCrossHost,
    SetTimeout(u64),
    TakeTimeout,
    Cancel(i32),
    TakeCancelled(i32),
    MarkInFlight(i32),
    EndInFlight(i32),
    StageRaw(Seq<char>),
    StageJson(Seq<char>),
    AddFormPair(Seq<char>, Seq<char>),
    AddMultipartText(Seq<char>, Seq<char>),
    /// A file field: its field name, file name and path, and whether the path exists.
    AddMultipartFile(Seq<char>, Seq<char>, Seq<char>, bool),
    TakeBody,
    SetCookies(bool),
    SetPem(Seq<u8>),
    ClearPem,
    BeginDelivery(ResponseView),
    EndDelivery,
    /// A request submitted with the given index and its one-shot options.
    StartRequest(i32),
    /// The `https` native: index, request type and inline data.
    Submit(i32, i32, Seq<char>),
    /// The `https_jsonf` native.
    JsonBuilder(Seq<char>),
    /// The `https_form_add` native.
    FormBuilder(Seq<char>, Seq<char>),
    /// A request finished with its completion.
    Finish(CompletionView),
}

/// The state of a freshly loaded plugin.
pub open spec fn initial_view() -> StateView {
    StateView {
        global_headers: Map::empty(),
        temp_headers: Map::empty(),
        queue: Seq::empty(),
        max_body_bytes: DEFAULT_BODY_BYTES,
        allow_cross_host_once: false,
        pending_timeout_ms: 0,
        cookies_enabled: false,
        cancelled: Set::empty(),
        in_flight: Seq::empty(),
        delivering: Seq::empty(),
        payload: empty_pending(),
        mtls_pem: None,
        current_headers: None,
    }
}

/// The state after one operation.
pub open spec fn op_step(v: StateView, op: StateOp) -> StateView {
    match op {
        StateOp::SetGlobalHeader(k, x) => StateView { global_headers: v.global_headers.insert(k, x), ..v },
        StateOp::ClearGlobalHeaders => StateView { global_headers: Map::empty(), ..v },
        StateOp::SetTempHeader(k, x) => StateView { temp_headers: v.temp_headers.insert(k, x), ..v },
        StateOp::ClearTempHeaders => StateView { temp_headers: Map::empty(), ..v },
        StateOp::Enqueue(r) => StateView {
            cancelled: v.cancelled.remove(r.index),
            queue: if v.cancelled.contains(r.index) {
                v.queue
            } else {
                queue_after_push(v.queue, r)
            },
            ..v
        },
        StateOp::Drain(limit) => {
            let take = if limit < v.queue.len() { limit as int } else { v.queue.len() as int };
            StateView {
                queue: v.queue.skip(take),
                delivering: v.delivering + response_indices(v.queue.take(take)),
                ..v
            }
        },
        StateOp::SetMaxBodyBytes(bytes) => StateView {
            max_body_bytes: clamp_body_bytes(bytes) as usize,
            ..v
        },
        StateOp::SetAllowCrossHost(b) => StateView { allow_cross_host_once: b, ..v },
        StateOp::TakeAllowCrossHost => StateView { allow_cross_host_once: false, ..v },
        StateOp::SetTimeout(ms) => StateView { pending_timeout_ms: ms, ..v },
        StateOp::TakeTimeout => StateView { pending_timeout_ms: 0, ..v },
        StateOp::Cancel(index) => if pending_index(v, index) {
            StateView { cancelled: v.cancelled.insert(index), ..v }
        } else {
            v
        },
        StateOp::TakeCancelled(index) => StateView { cancelled: v.cancelled.remove(index), ..v },
        StateOp::MarkInFlight(index) => StateView { in_flight: v.in_flight.push(index), ..v },
        StateOp::EndInFlight(index) => StateView { in_flight: remove_one(v.in_flight, index), ..v },
        StateOp::StageRaw(s) => if byte_len(s) <= v.max_body_bytes {
            StateView { payload: only_raw(s), ..v }
        } else {
            v
        },
        StateOp::StageJson(s) => if byte_len(s) <= v.max_body_bytes && json_accepted(s) {
            StateView { payload: only_json(s), ..v }
        } else {
            v
        },
        StateOp::AddFormPair(k, x) => if byte_len(form_body(v.payload.form.push((k, x))))
            <= v.max_body_bytes {
            StateView { payload: only_form(v.payload.form.push((k, x))), ..v }
        } else {
            v
        },
        StateOp::AddMultipartText(k, x) => StateView {
            payload: only_multipart(
                MultipartView { text: v.payload.multipart.text.push((k, x)), ..v.payload.multipart },
            ),
            ..v
        },
        StateOp::AddMultipartFile(field, filename, path, exists) => if exists {
            StateView {
                payload: only_multipart(
                    MultipartView {
                        files: v.payload.multipart.files.push((field, filename, path)),
                        ..v.payload.multipart
                    },
                ),
                ..v
            }
        } else {
            v
        },
        StateOp::TakeBody => StateView { payload: pending_after_take(v.payload), ..v },
        StateOp::SetCookies(b) => StateView { cookies_enabled: b, ..v },
        StateOp::SetPem(pem) => if pem_identity_accepted(pem) {
            StateView { mtls_pem: Some(pem), ..v }
        } else {
            v
        },
        StateOp::ClearPem => StateView { mtls_pem: None, ..v },
        StateOp::BeginDelivery(r) => StateView {
            cancelled: v.cancelled.remove(r.index),
            delivering: remove_one(v.delivering, r.index),
            current_headers: if v.cancelled.contains(r.index) {
                v.current_headers
            } else {
                Some(r.headers)
            },
            ..v
        },
        StateOp::EndDelivery => StateView { current_headers: None, ..v },
        StateOp::StartRequest(index) => after_submitted(v, index),
        StateOp::Submit(index, request_type, data) => after_submitted(
            after_staged_taken(request_type, data, v),
            index,
        ),
        StateOp::JsonBuilder(s) => if byte_len(s) <= v.max_body_bytes && json_accepted(s) {
            StateView {
                payload: only_json(s),
                temp_headers: v.temp_headers.insert("Content-Type"@, json_content_type()),
                ..v
            }
        } else {
            v
        },
        StateOp::FormBuilder(k, x) => if byte_len(form_body(v.payload.form.push((k, x))))
            <= v.max_body_bytes {
            StateView {
                payload: only_form(v.payload.form.push((k, x))),
                temp_headers: v.temp_headers.insert("Content-Type"@, form_content_type()),
                ..v
            }
        } else {
            v
        },
        StateOp::Finish(c) => after_finish(v, c),
    }
}

/// The state after a sequence of operations, the first applied first.
pub open spec fn run_ops(v: StateView, ops: Seq<StateOp>) -> StateView
    decreases ops.len(),
{
    if ops.len() == 0 {
        v
    } else {
        op_step(run_ops(v, ops.drop_last()), ops.last())
    }
}

} // verus!
