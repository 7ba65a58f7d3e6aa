//! Properties of the library as a whole, stated over the views and spec
//! functions that the operations' contracts use.

use vstd::prelude::*;
use crate::encoding::{form_body, form_pair};
use crate::errors::{code_value, ErrorCode};
use crate::https::{after_finish, failed, flow_invariant,
    location_value, redirect_allowed, redirected, without_authorization,
    BodyView, FlowView};
use crate::natives::{accepts_body, after_staged_taken, submitted_body, takes_staged};
use crate::payload::lemma_form_body_push;
use crate::state::{clamp_body_bytes, empty_pending, layered_headers, pending_after_take,
    queue_after_push, staged_kinds, user_agent_name, user_agent_value,
    PendingView, ResponseView, StateView, MAX_BODY_BYTES_CAP, MAX_QUEUE, MIN_BODY_BYTES};
use crate::text::ascii_lower;
use crate::ops::{initial_view, op_step, run_ops, StateOp};
use crate::https::{delivered, CompletionView};
use crate::state::{pending_index, response_indices, DEFAULT_BODY_BYTES};
use crate::headers::has_name_ignore_case;
use crate::urls::joined_url;

verus! {

/// Header layers: a temporary header wins over a global one of the same name,
/// a global one over the built-in `User-Agent`, and the built-in
/// `User-Agent` is sent when neither layer names it.
pub proof fn header_layer_precedence(
    global: Map<Seq<char>, Seq<char>>,
    temp: Map<Seq<char>, Seq<char>>,
    name: Seq<char>,
)
    ensures
        temp.contains_key(name) ==> layered_headers(global, temp)[name] == temp[name],
        !temp.contains_key(name) && global.contains_key(name) ==> layered_headers(global, temp)[name]
            == global[name],
        !temp.contains_key(name) && !global.contains_key(name) ==> (layered_headers(
            global,
            temp,
        ).contains_key(name) <==> name == user_agent_name()),
        layered_headers(global, temp).contains_key(user_agent_name()),
        !temp.contains_key(user_agent_name()) && !global.contains_key(user_agent_name())
            ==> layered_headers(global, temp)[user_agent_name()] == user_agent_value(),
{
}

/// The response queue never holds more than 1024 entries, and a new response
/// is always kept: on overflow the oldest entry is the one dropped.
pub proof fn queue_keeps_newest(q: Seq<ResponseView>, item: ResponseView)
    requires
        q.len() <= MAX_QUEUE,
    ensures
        queue_after_push(q, item).len() <= MAX_QUEUE,
        queue_after_push(q, item).last() == item,
        q.len() < MAX_QUEUE ==> queue_after_push(q, item) == q.push(item),
        q.len() == MAX_QUEUE ==> queue_after_push(q, item) == q.subrange(1, q.len() as int).push(
            item,
        ),
{
    if q.len() == MAX_QUEUE {
        assert(q.drop_first() =~= q.subrange(1, q.len() as int));
    }
}

/// A response whose index was cancelled is never queued, and the
/// cancellation is used up by it; the temporary headers are cleared all the same.
pub proof fn cancelled_response_is_dropped(v: StateView, index: i32, callback: Seq<char>, status: i32, error: ErrorCode)
    requires
        v.cancelled.contains(index),
    ensures
        after_finish(v, failed(index, callback, status, error)).queue == v.queue,
        !after_finish(v, failed(index, callback, status, error)).cancelled.contains(index),
        after_finish(v, failed(index, callback, status, error)).temp_headers == Map::<Seq<char>, Seq<char>>::empty(),
{
}

/// A request that is not cancelled queues exactly one response, at the back,
/// carrying the index and callback it was submitted with. A failure is
/// queued with an empty body, no headers and its error code. Every finished
/// request clears the temporary headers.
pub proof fn finish_queues_one_response(
    v: StateView,
    index: i32,
    callback: Seq<char>,
    status: i32,
    error: ErrorCode,
)
    requires
        !v.cancelled.contains(index),
        v.queue.len() <= MAX_QUEUE,
    ensures
        ({
            let w = after_finish(v, failed(index, callback, status, error));
            &&& w.temp_headers == Map::<Seq<char>, Seq<char>>::empty()
            &&& w.queue.last() == ResponseView {
                index,
                callback,
                response: Seq::empty(),
                status,
                error: code_value(error),
                headers: Map::empty(),
            }
            &&& w.queue.len() <= MAX_QUEUE
        }),
{
}

/// The body cap applied is always within 4 KiB ..= 1 MiB, a value in that
/// range is applied as given, and applying the result again changes nothing.
pub proof fn body_cap_clamped(bytes: int)
    ensures
        MIN_BODY_BYTES <= clamp_body_bytes(bytes) <= MAX_BODY_BYTES_CAP,
        MIN_BODY_BYTES <= bytes <= MAX_BODY_BYTES_CAP ==> clamp_body_bytes(bytes) == bytes,
        clamp_body_bytes(clamp_body_bytes(bytes)) == clamp_body_bytes(bytes),
{
}

/// With at most one kind of body staged, as every state keeps it, a request
/// that takes the staged body leaves nothing staged.
pub proof fn taking_staged_body_empties_slot(p: PendingView)
    requires
        staged_kinds(p) <= 1,
    ensures
        pending_after_take(p) == empty_pending(),
{
    assert(pending_after_take(p).form =~= empty_pending().form);
    assert(pending_after_take(p).multipart.text =~= empty_pending().multipart.text);
    assert(pending_after_take(p).multipart.files =~= empty_pending().multipart.files);
}

/// A request with inline data, or of a type without a body (GET, HEAD,
/// DELETE), leaves the staged body where it is; inline data is sent as it is.
pub proof fn inline_or_bodiless_request_keeps_staged_body(request_type: i32, data: Seq<char>, v: StateView)
    requires
        !takes_staged(request_type, data),
    ensures
        after_staged_taken(request_type, data, v) == v,
        accepts_body(request_type) ==> submitted_body(request_type, data, v) == BodyView::Raw(data),
        !accepts_body(request_type) ==> submitted_body(request_type, data, v) == BodyView::NoBody,
{
}

/// Form pairs accumulate: one more pair appends `&` and its encoding to the
/// encoding of those before, so a repeated name is sent twice.
pub proof fn form_pairs_accumulate(pairs: Seq<(Seq<char>, Seq<char>)>, name: Seq<char>, value: Seq<char>)
    requires
        pairs.len() > 0,
    ensures
        form_body(pairs.push((name, value))) == form_body(pairs) + seq!['&'] + form_pair(name, value),
{
    lemma_form_body_push(pairs, name, value);
}

/// Redirects never downgrade: once any URL of the chain used HTTPS, a
/// followed redirect does not lead to plain HTTP, and the request's
/// invariant (at most five redirects, once secure always secure) is kept.
pub proof fn redirect_never_downgrades(
    f: FlowView,
    status: u16,
    h: Seq<(Seq<char>, Option<Seq<char>>)>,
)
    requires
        flow_invariant(f),
        redirect_allowed(f, h),
    ensures
        ({
            let next = joined_url(f.current.href, location_value(h))->0;
            &&& f.saw_https_ever ==> next.scheme != "http"@
            &&& flow_invariant(redirected(f, status, next))
            &&& next.scheme == "https"@ ==> redirected(f, status, next).saw_https_ever
        }),
{
    crate::https::lemma_schemes_differ();
}

/// At most five redirects are followed: a redirect is followed only when
/// fewer than five were, and each one followed counts one more.
pub proof fn redirect_hop_limit(f: FlowView, status: u16, h: Seq<(Seq<char>, Option<Seq<char>>)>)
    requires
        redirect_allowed(f, h),
    ensures
        f.redirects < 5,
        redirected(f, status, joined_url(f.current.href, location_value(h))->0).redirects == f.redirects + 1,
{
}

/// A redirect to another host is followed only with the one-shot cross-host
/// permission, and then no header named `Authorization` (in any case) is
/// sent on.
pub proof fn cross_host_redirect_strips_authorization(
    f: FlowView,
    status: u16,
    h: Seq<(Seq<char>, Option<Seq<char>>)>,
)
    requires
        redirect_allowed(f, h),
        joined_url(f.current.href, location_value(h))->0.host != f.current.host,
    ensures
        f.allow_cross_host,
        forall|i: int|
            0 <= i < redirected(f, status, joined_url(f.current.href, location_value(h))->0).headers.len()
                ==> ascii_lower(
                #[trigger] redirected(f, status, joined_url(f.current.href, location_value(h))->0).headers[i].0,
            ) != "authorization"@,
{
    lemma_without_authorization(f.headers);
}

/// No pair of the filtered headers is named `Authorization` in any case.
pub proof fn lemma_without_authorization(s: Seq<(Seq<char>, Seq<char>)>)
    ensures
        forall|i: int| 0 <= i < without_authorization(s).len() ==> ascii_lower(
            #[trigger] without_authorization(s)[i].0,
        ) != "authorization"@,
    decreases s.len(),
{
    if s.len() > 0 {
        lemma_without_authorization(s.drop_last());
        let r = without_authorization(s.drop_last());
        if ascii_lower(s.last().0) != "authorization"@ {
            assert forall|i: int| 0 <= i < r.push(s.last()).len() implies ascii_lower(
                #[trigger] r.push(s.last())[i].0,
            ) != "authorization"@ by {
                if i < r.len() {
                    assert(r.push(s.last())[i] == r[i]);
                }
            }
        }
    }
}

/// Method semantics across redirects: a 303 always, and a 301 or 302 after a
/// POST, continue as a body-less GET; 307 and 308 keep method and body.
pub proof fn redirect_method_semantics(f: FlowView, status: u16, next: crate::urls::UrlView)
    ensures
        status == 303 ==> redirected(f, status, next).method == "GET"@ && redirected(f, status, next).body
            == BodyView::NoBody,
        (status == 301 || status == 302) && f.method == "POST"@ ==> redirected(f, status, next).method
            == "GET"@ && redirected(f, status, next).body == BodyView::NoBody,
        (status == 307 || status == 308) ==> redirected(f, status, next).method == f.method
            && redirected(f, status, next).body == f.body,
{
}

/// No operation but setting the body cap changes it.
pub proof fn lemma_op_keeps_body_cap(v: StateView, op: StateOp)
    requires
        !(op is SetMaxBodyBytes),
    ensures
        op_step(v, op).max_body_bytes == v.max_body_bytes,
{
}

/// The body cap is 64 KiB until it is set: from a freshly loaded plugin, any
/// sequence of operations none of which sets the cap leaves it at 64 KiB.
pub proof fn body_cap_default_until_set(ops: Seq<StateOp>)
    requires
        forall|i: int| 0 <= i < ops.len() ==> !(#[trigger] ops[i] is SetMaxBodyBytes),
    ensures
        run_ops(initial_view(), ops).max_body_bytes == DEFAULT_BODY_BYTES,
    decreases ops.len(),
{
    if ops.len() > 0 {
        let rest = ops.drop_last();
        assert forall|i: int| 0 <= i < rest.len() implies !(#[trigger] rest[i] is SetMaxBodyBytes) by {
            assert(rest[i] == ops[i]);
        }
        body_cap_default_until_set(rest);
        assert(!(ops[ops.len() - 1] is SetMaxBodyBytes));
        lemma_op_keeps_body_cap(run_ops(initial_view(), rest), ops.last());
    }
}

/// A `Content-Type` set by hand after a body builder wins: a request that
/// takes the staged body keeps the temporary `Content-Type` as it was set,
/// whatever the builder implied.
pub proof fn manual_content_type_overrides_builder(
    v: StateView,
    request_type: i32,
    data: Seq<char>,
    value: Seq<char>,
)
    ensures
        ({
            let w = StateView { temp_headers: v.temp_headers.insert("Content-Type"@, value), ..v };
            after_staged_taken(request_type, data, w).temp_headers["Content-Type"@] == value
        }),
{
    let w = StateView { temp_headers: v.temp_headers.insert("Content-Type"@, value), ..v };
    assert(w.temp_headers.contains_key("Content-Type"@));
    assert(has_name_ignore_case(w.temp_headers, "Content-Type"@));
}

/// Temporary headers apply to one request only: a submitted request takes
/// them, and the request after it is sent with the built-in `User-Agent` and
/// the global headers, plus whatever temporary headers were set in between.
pub proof fn temporary_headers_apply_once(
    v: StateView,
    index: i32,
    request_type: i32,
    data: Seq<char>,
    next: i32,
)
    ensures
        op_step(v, StateOp::Submit(index, request_type, data)).temp_headers == Map::<Seq<char>, Seq<char>>::empty(),
        op_step(v, StateOp::StartRequest(index)).temp_headers == Map::<Seq<char>, Seq<char>>::empty(),
        ({
            let w = op_step(v, StateOp::StartRequest(index));
            layered_headers(w.global_headers, w.temp_headers) == layered_headers(
                v.global_headers,
                Map::empty(),
            )
        }),
{
}

/// Cancelling a request in flight suppresses its response: whatever it
/// finishes with, nothing is queued for it.
pub proof fn cancel_in_flight_drops_response(v: StateView, c: CompletionView)
    requires
        v.in_flight.contains(c.index),
    ensures
        run_ops(v, seq![StateOp::Cancel(c.index), StateOp::Finish(c)]).queue == v.queue,
{
    let e = Seq::<StateOp>::empty();
    let s1 = seq![StateOp::Cancel(c.index)];
    let ops = s1.push(StateOp::Finish(c));
    assert(ops =~= seq![StateOp::Cancel(c.index), StateOp::Finish(c)]);
    assert(s1.drop_last() =~= e);
    assert(ops.drop_last() =~= s1);
    assert(run_ops(v, e) == v);
    assert(pending_index(v, c.index));
    let w = op_step(v, StateOp::Cancel(c.index));
    assert(run_ops(v, s1) == w);
    assert(w.cancelled.contains(c.index));
    assert(run_ops(v, ops) == after_finish(w, c));
}

/// Cancelling an index with no request in flight and no response queued
/// (never used, or already delivered) changes nothing, so a later request
/// reusing the index has its response queued as usual.
pub proof fn cancel_of_settled_index_is_ignored(
    v: StateView,
    index: i32,
    callback: Seq<char>,
    body: Seq<char>,
    status: i32,
    headers: Map<Seq<char>, Seq<char>>,
)
    requires
        !pending_index(v, index),
        !v.cancelled.contains(index),
    ensures
        op_step(v, StateOp::Cancel(index)) == v,
        ({
            let ops = seq![
                StateOp::Cancel(index),
                StateOp::StartRequest(index),
                StateOp::Finish(delivered(index, callback, body, status, headers)),
            ];
            run_ops(v, ops).queue == queue_after_push(
                v.queue,
                ResponseView { index, callback, response: body, status, error: 0, headers },
            )
        }),
{
    let ops = seq![
        StateOp::Cancel(index),
        StateOp::StartRequest(index),
        StateOp::Finish(delivered(index, callback, body, status, headers)),
    ];
    let e = Seq::<StateOp>::empty();
    let s1 = seq![StateOp::Cancel(index)];
    let s2 = s1.push(StateOp::StartRequest(index));
    let c = delivered(index, callback, body, status, headers);
    assert(ops =~= s2.push(StateOp::Finish(c)));
    assert(s1.drop_last() =~= e);
    assert(s2.drop_last() =~= s1);
    assert(ops.drop_last() =~= s2);
    assert(run_ops(v, e) == v);
    assert(run_ops(v, s1) == v);
    let w = op_step(v, StateOp::StartRequest(index));
    assert(run_ops(v, s2) == w);
    assert(run_ops(v, ops) == after_finish(w, c));
}

/// The response at the front of the queue is still pending once a drain
/// has taken it.
proof fn lemma_drained_front_is_pending(v: StateView, limit: usize)
    requires
        0 < limit,
        0 < v.queue.len(),
    ensures
        pending_index(op_step(v, StateOp::Drain(limit)), v.queue[0].index),
{
    let take = if limit < v.queue.len() { limit as int } else { v.queue.len() as int };
    let d = op_step(v, StateOp::Drain(limit));
    assert(d.delivering == v.delivering + response_indices(v.queue.take(take)));
    assert(response_indices(v.queue.take(take))[0] == v.queue[0].index);
    assert(d.delivering[v.delivering.len() as int] == v.queue[0].index);
}

/// A response taken from the queue for delivery can still be cancelled until
/// its delivery begins: cancelling it then records the cancellation, so its
/// delivery is refused and its headers never become readable.
pub proof fn cancel_after_drain_refuses_delivery(v: StateView, limit: usize)
    requires
        0 < limit,
        0 < v.queue.len(),
    ensures
        ({
            let r = v.queue[0];
            let w = run_ops(v, seq![StateOp::Drain(limit), StateOp::Cancel(r.index)]);
            &&& w.cancelled.contains(r.index)
            &&& op_step(w, StateOp::BeginDelivery(r)).current_headers == v.current_headers
        }),
{
    let r = v.queue[0];
    let e = Seq::<StateOp>::empty();
    let s1 = seq![StateOp::Drain(limit)];
    let ops = s1.push(StateOp::Cancel(r.index));
    assert(ops =~= seq![StateOp::Drain(limit), StateOp::Cancel(r.index)]);
    assert(s1.drop_last() =~= e);
    assert(ops.drop_last() =~= s1);
    let d = op_step(v, StateOp::Drain(limit));
    assert(run_ops(v, s1) == d) by {
        assert(run_ops(v, e) == v);
    }
    lemma_drained_front_is_pending(v, limit);
    let w = op_step(d, StateOp::Cancel(r.index));
    assert(run_ops(v, ops) == w);
    assert(w.cancelled.contains(r.index));
    assert(w.current_headers == v.current_headers);
}

/// A followed 301 or 302 redirect of a request whose method is not `POST`
/// keeps its method and its body, whatever the new URL.
pub proof fn redirect_301_302_keeps_non_post(f: FlowView, status: u16, next: crate::urls::UrlView)
    requires
        status == 301 || status == 302,
        f.method != "POST"@,
    ensures
        redirected(f, status, next).method == f.method,
        redirected(f, status, next).body == f.body,
        redirected(f, status, next).current == next,
{
}

/// Every URL that parses with scheme `http` or `https` may start a request,
/// whatever else it holds (its length included); only a URL that does not
/// parse, or that has another scheme, is refused.
pub proof fn http_and_https_urls_start(u: Option<crate::urls::UrlView>)
    ensures
        crate::https::accepted_start(u) <==> (u is Some && (u->0.scheme == "http"@ || u->0.scheme
            == "https"@)),
{
}

/// Only statuses 300 ..= 399 count as redirects: every other status,
/// 400 and above included, has its body read.
pub proof fn only_3xx_is_redirection(status: u16)
    ensures
        crate::https::is_redirection(status) <==> (300 <= status && status <= 399),
{
}

/// A request that takes a staged body is sent with exactly what was staged:
/// all multipart text and file parts, else the raw body, else the JSON text,
/// else the encoded form.
pub proof fn staged_body_is_sent_whole(request_type: i32, data: Seq<char>, v: StateView)
    requires
        accepts_body(request_type),
        data.len() == 0,
    ensures
        v.payload.multipart.text.len() > 0 || v.payload.multipart.files.len() > 0 ==> submitted_body(
            request_type,
            data,
            v,
        ) == BodyView::Multipart(v.payload.multipart),
        v.payload.multipart.text.len() == 0 && v.payload.multipart.files.len() == 0
            && v.payload.raw is Some ==> submitted_body(request_type, data, v) == BodyView::Raw(
            v.payload.raw->0,
        ),
        v.payload.multipart.text.len() == 0 && v.payload.multipart.files.len() == 0
            && v.payload.raw is None && v.payload.json is Some ==> submitted_body(request_type, data, v)
            == BodyView::Raw(v.payload.json->0),
{
}

/// Response header values are kept exactly as received; only names are
/// lower-cased. A visible value read under a name that no later visible
/// header repeats (in any case) is the map's value at the lower-cased name.
pub proof fn header_value_kept_as_received(h: Seq<(Seq<char>, Option<Seq<char>>)>, i: int)
    requires
        0 <= i < h.len(),
        h[i].1 is Some,
        forall|j: int| i < j < h.len() && (#[trigger] h[j]).1 is Some ==> ascii_lower(h[j].0) != ascii_lower(h[i].0),
    ensures
        crate::https::response_header_map(h).contains_key(ascii_lower(h[i].0)),
        crate::https::response_header_map(h)[ascii_lower(h[i].0)] == h[i].1->0,
    decreases h.len(),
{
    if i < h.len() - 1 {
        let t = h.drop_last();
        assert forall|j: int| i < j < t.len() && (#[trigger] t[j]).1 is Some implies ascii_lower(t[j].0)
            != ascii_lower(t[i].0) by {
            assert(t[j] == h[j]);
        }
        header_value_kept_as_received(t, i);
        let last = h[h.len() - 1];
        if last.1 is Some {
            assert(ascii_lower(last.0) != ascii_lower(h[i].0));
        }
    }
}

/// Every value of the response header map is a value that was received under
/// a name that lower-cases to its key.
pub proof fn header_values_come_from_response(h: Seq<(Seq<char>, Option<Seq<char>>)>, k: Seq<char>)
    requires
        crate::https::response_header_map(h).contains_key(k),
    ensures
        exists|i: int| 0 <= i < h.len() && ascii_lower(#[trigger] h[i].0) == k && h[i].1 == Some(
            crate::https::response_header_map(h)[k],
        ),
    decreases h.len(),
{
    let t = h.drop_last();
    let m = crate::https::response_header_map(t);
    let last = h[h.len() - 1];
    if last.1 is Some && ascii_lower(last.0) == k {
        assert(h[h.len() - 1].1 == Some(crate::https::response_header_map(h)[k]));
    } else {
        assert(m.contains_key(k));
        header_values_come_from_response(t, k);
        let i = choose|i: int| 0 <= i < t.len() && ascii_lower(#[trigger] t[i].0) == k && t[i].1 == Some(m[k]);
        assert(h[i] == t[i]);
    }
}

} // verus!
