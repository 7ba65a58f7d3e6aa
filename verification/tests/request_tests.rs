use https_samp::errors::{map_io_error, map_reqwest_error, ErrorCode, IoErrorKind, RequestErrorInfo};
use https_samp::headers::HeaderTable;
use https_samp::https::{
    begin_job, finish_job, finish_ok, finish_with_error, method_kind, next_attempt, on_attach_failed,
    on_body, on_response, on_send_failed, AfterResponse, BodyPayload, BodyRead, Completion, HttpMethod,
    Job, Outcome, RequestFlow,
};
use https_samp::state::{
    cancel, drain_responses, mark_in_flight, set_temp_header, snapshot_headers, PluginState,
};

fn s(x: &str) -> String {
    x.to_string()
}

fn job(method: &str, url: &str, body: BodyPayload, headers: Vec<(&str, &str)>, allow: bool) -> Job {
    Job {
        index: 11,
        method: s(method),
        url: s(url),
        body,
        callback: s("OnDone"),
        headers: headers.into_iter().map(|(k, v)| (s(k), s(v))).collect(),
        allow_cross_host: allow,
        total_timeout: None,
    }
}

fn flow(j: Job) -> RequestFlow {
    match begin_job(j) {
        Ok(f) => f,
        Err(_) => panic!("job refused"),
    }
}

fn loc(v: &str) -> Vec<(String, Option<String>)> {
    vec![(s("location"), Some(s(v)))]
}

fn failed_with(c: &Completion) -> (i32, ErrorCode) {
    match &c.outcome {
        Outcome::Failed { status, error } => (*status, *error),
        Outcome::Delivered { .. } => panic!("expected a failure"),
    }
}

fn finished(r: AfterResponse) -> Completion {
    match r {
        AfterResponse::Finished(c) => c,
        _ => panic!("expected the request to end"),
    }
}

#[test]
fn bad_url_and_bad_scheme_are_refused() {
    for u in ["not a url", "ftp://example.com/x", "file:///etc/passwd", ""] {
        match begin_job(job("GET", u, BodyPayload::NoBody, vec![], false)) {
            Err(c) => {
                assert_eq!(c.index, 11);
                assert_eq!(c.callback, "OnDone");
                assert_eq!(failed_with(&c), (0, ErrorCode::BadUrl));
            }
            Ok(_) => panic!("accepted {}", u),
        }
    }
    assert!(begin_job(job("GET", "http://example.com/", BodyPayload::NoBody, vec![], false)).is_ok());
    assert!(begin_job(job("GET", "HTTPS://Example.com/a", BodyPayload::NoBody, vec![], false)).is_ok());
}

#[test]
fn attempt_carries_request_and_keeps_raw_body() {
    let mut f = flow(job("POST", "https://api.example.com/a?b=1", BodyPayload::Raw(s("payload")),
        vec![("X-A", "1")], false));
    let out = next_attempt(&mut f);
    assert_eq!(out.method, HttpMethod::Post);
    assert_eq!(out.url, "https://api.example.com/a?b=1");
    assert_eq!(out.headers, vec![(s("X-A"), s("1"))]);
    assert!(matches!(out.body, BodyPayload::Raw(ref b) if b == "payload"));
    assert_eq!(out.timeout_ms, None);
    let again = next_attempt(&mut f);
    assert!(matches!(again.body, BodyPayload::Raw(ref b) if b == "payload"));
}

#[test]
fn multipart_body_is_not_replayed() {
    let mp = https_samp::payload::MultipartPayload { text: vec![(s("a"), s("b"))], files: vec![] };
    let mut f = flow(job("POST", "https://h.example/u", BodyPayload::Multipart(mp), vec![], false));
    assert!(matches!(next_attempt(&mut f).body, BodyPayload::Multipart(_)));
    assert!(matches!(next_attempt(&mut f).body, BodyPayload::NoBody));
}

#[test]
fn method_names_select_methods() {
    assert_eq!(method_kind("POST"), HttpMethod::Post);
    assert_eq!(method_kind("PUT"), HttpMethod::Put);
    assert_eq!(method_kind("PATCH"), HttpMethod::Patch);
    assert_eq!(method_kind("DELETE"), HttpMethod::Delete);
    assert_eq!(method_kind("HEAD"), HttpMethod::Head);
    assert_eq!(method_kind("GET"), HttpMethod::Get);
    assert_eq!(method_kind("post"), HttpMethod::Get);
    assert_eq!(method_kind("BREW"), HttpMethod::Get);
}

#[test]
fn head_never_follows_redirects() {
    let mut f = flow(job("HEAD", "https://a.example/", BodyPayload::NoBody, vec![], false));
    let raw = vec![(s("Location"), Some(s("/b"))), (s("X-Y"), Some(s("z")))];
    let c = finished(on_response(&mut f, 301, &raw));
    match c.outcome {
        Outcome::Delivered { body, status, headers } => {
            assert_eq!(body, "");
            assert_eq!(status, 301);
            assert_eq!(headers.get("x-y").map(|v| v.as_str()), Some("z"));
            assert_eq!(headers.get("location").map(|v| v.as_str()), Some("/b"));
        }
        _ => panic!("expected delivery"),
    }
}

#[test]
fn non_redirect_reads_body_with_lowercased_headers() {
    let mut f = flow(job("GET", "https://a.example/", BodyPayload::NoBody, vec![], false));
    let raw = vec![
        (s("Content-Type"), Some(s("text/plain"))),
        (s("set-cookie"), Some(s("a=1"))),
        (s("set-cookie"), Some(s("b=2"))),
        (s("x-bin"), None),
    ];
    match on_response(&mut f, 200, &raw) {
        AfterResponse::ReadBody { status, headers } => {
            assert_eq!(status, 200);
            assert_eq!(headers.get("content-type").map(|v| v.as_str()), Some("text/plain"));
            assert_eq!(headers.get("set-cookie").map(|v| v.as_str()), Some("b=2"));
            assert!(headers.get("x-bin").is_none());
            assert_eq!(headers.len(), 2);
        }
        _ => panic!("expected body read"),
    }
}

#[test]
fn relative_redirect_is_followed() {
    let mut f = flow(job("GET", "https://a.example/dir/page", BodyPayload::NoBody, vec![], false));
    assert!(matches!(on_response(&mut f, 302, &loc("../other?x=1")), AfterResponse::Redirected));
    assert_eq!(next_attempt(&mut f).url, "https://a.example/other?x=1");
}

#[test]
fn at_most_five_redirects() {
    let mut f = flow(job("GET", "https://a.example/0", BodyPayload::NoBody, vec![], false));
    for i in 1..=5 {
        let r = on_response(&mut f, 307, &loc(&format!("/{}", i)));
        assert!(matches!(r, AfterResponse::Redirected), "hop {}", i);
    }
    let c = finished(on_response(&mut f, 307, &loc("/6")));
    assert_eq!(failed_with(&c), (0, ErrorCode::PolicyBlocked));
}

#[test]
fn missing_or_empty_location_is_blocked() {
    let mut f = flow(job("GET", "https://a.example/", BodyPayload::NoBody, vec![], false));
    let c = finished(on_response(&mut f, 302, &vec![]));
    assert_eq!(failed_with(&c), (0, ErrorCode::PolicyBlocked));
    let c = finished(on_response(&mut f, 302, &vec![(s("location"), None)]));
    assert_eq!(failed_with(&c), (0, ErrorCode::PolicyBlocked));
    let c = finished(on_response(&mut f, 302, &loc("")));
    assert_eq!(failed_with(&c), (0, ErrorCode::PolicyBlocked));
}

#[test]
fn unresolvable_location_is_blocked() {
    let mut f = flow(job("GET", "https://a.example/", BodyPayload::NoBody, vec![], false));
    let c = finished(on_response(&mut f, 302, &loc("http://[::1")));
    assert_eq!(failed_with(&c), (0, ErrorCode::PolicyBlocked));
}

#[test]
fn downgrade_to_http_is_blocked() {
    let mut f = flow(job("GET", "https://a.example/", BodyPayload::NoBody, vec![], true));
    let c = finished(on_response(&mut f, 301, &loc("http://a.example/")));
    assert_eq!(failed_with(&c), (0, ErrorCode::PolicyBlocked));
}

#[test]
fn once_secure_always_secure() {
    let mut f = flow(job("GET", "http://a.example/", BodyPayload::NoBody, vec![], false));
    assert!(matches!(on_response(&mut f, 302, &loc("http://a.example/2")), AfterResponse::Redirected));
    assert!(matches!(on_response(&mut f, 302, &loc("https://a.example/3")), AfterResponse::Redirected));
    let c = finished(on_response(&mut f, 302, &loc("http://a.example/4")));
    assert_eq!(failed_with(&c), (0, ErrorCode::PolicyBlocked));
}

#[test]
fn cross_host_needs_permission() {
    let mut f = flow(job("GET", "https://a.example/", BodyPayload::NoBody, vec![], false));
    let c = finished(on_response(&mut f, 302, &loc("https://b.example/")));
    assert_eq!(failed_with(&c), (0, ErrorCode::PolicyBlocked));
}

#[test]
fn cross_host_strips_authorization() {
    let mut f = flow(job(
        "GET",
        "https://a.example/",
        BodyPayload::NoBody,
        vec![("AUTHORIZATION", "Bearer t"), ("X-Keep", "1"), ("authorization", "Basic x")],
        true,
    ));
    assert!(matches!(on_response(&mut f, 302, &loc("https://b.example/p")), AfterResponse::Redirected));
    let out = next_attempt(&mut f);
    assert_eq!(out.url, "https://b.example/p");
    assert_eq!(out.headers, vec![(s("X-Keep"), s("1"))]);
}

#[test]
fn same_host_keeps_authorization() {
    let mut f = flow(job("GET", "https://a.example/", BodyPayload::NoBody,
        vec![("Authorization", "Bearer t")], false));
    assert!(matches!(on_response(&mut f, 302, &loc("/next")), AfterResponse::Redirected));
    assert_eq!(next_attempt(&mut f).headers, vec![(s("Authorization"), s("Bearer t"))]);
}

#[test]
fn see_other_turns_into_get_without_body() {
    let mut f = flow(job("PUT", "https://a.example/", BodyPayload::Raw(s("x")), vec![], false));
    let _ = next_attempt(&mut f);
    assert!(matches!(on_response(&mut f, 303, &loc("/done")), AfterResponse::Redirected));
    let out = next_attempt(&mut f);
    assert_eq!(out.method, HttpMethod::Get);
    assert!(matches!(out.body, BodyPayload::NoBody));
}

#[test]
fn moved_post_turns_into_get_but_put_is_kept() {
    let mut f = flow(job("POST", "https://a.example/", BodyPayload::Raw(s("x")), vec![], false));
    let _ = next_attempt(&mut f);
    assert!(matches!(on_response(&mut f, 302, &loc("/p")), AfterResponse::Redirected));
    let out = next_attempt(&mut f);
    assert_eq!(out.method, HttpMethod::Get);
    assert!(matches!(out.body, BodyPayload::NoBody));

    let mut f = flow(job("PUT", "https://a.example/", BodyPayload::Raw(s("x")), vec![], false));
    let _ = next_attempt(&mut f);
    assert!(matches!(on_response(&mut f, 301, &loc("/p")), AfterResponse::Redirected));
    let out = next_attempt(&mut f);
    assert_eq!(out.method, HttpMethod::Put);
    assert!(matches!(out.body, BodyPayload::Raw(ref b) if b == "x"));
}

#[test]
fn temporary_redirect_keeps_method_and_body() {
    let mut f = flow(job("POST", "https://a.example/", BodyPayload::Raw(s("data")), vec![], false));
    let _ = next_attempt(&mut f);
    assert!(matches!(on_response(&mut f, 308, &loc("/again")), AfterResponse::Redirected));
    let out = next_attempt(&mut f);
    assert_eq!(out.method, HttpMethod::Post);
    assert!(matches!(out.body, BodyPayload::Raw(ref b) if b == "data"));
}

#[test]
fn body_over_cap_is_too_big_with_status() {
    let f = flow(job("GET", "https://a.example/", BodyPayload::NoBody, vec![], false));
    let c = on_body(&f, 200, HeaderTable::new(), BodyRead::Bytes(vec![b'a'; 4097]), 4096);
    assert_eq!(failed_with(&c), (200, ErrorCode::ContentTooBig));
    let c = on_body(&f, 404, HeaderTable::new(), BodyRead::Bytes(vec![b'a'; 4096]), 4096);
    match c.outcome {
        Outcome::Delivered { body, status, .. } => {
            assert_eq!(body.len(), 4096);
            assert_eq!(status, 404);
        }
        _ => panic!("expected delivery"),
    }
}

#[test]
fn body_is_decoded_lossily() {
    let f = flow(job("GET", "https://a.example/", BodyPayload::NoBody, vec![], false));
    let c = on_body(&f, 200, HeaderTable::new(), BodyRead::Bytes(vec![0x68, 0x69, 0xff, 0xc3, 0xa9]), 100);
    match c.outcome {
        Outcome::Delivered { body, .. } => assert_eq!(body, "hi\u{FFFD}é"),
        _ => panic!("expected delivery"),
    }
}

#[test]
fn read_failure_maps_io_kind() {
    let f = flow(job("GET", "https://a.example/", BodyPayload::NoBody, vec![], false));
    let c = on_body(&f, 200, HeaderTable::new(), BodyRead::IoError(IoErrorKind::TimedOut), 100);
    assert_eq!(failed_with(&c), (0, ErrorCode::Timeout));
    let c = on_attach_failed(&f);
    assert_eq!(failed_with(&c), (0, ErrorCode::Unknown));
}

fn info() -> RequestErrorInfo {
    RequestErrorInfo {
        is_timeout: false,
        is_builder: false,
        io_kind: None,
        is_connect: false,
        is_status: false,
    }
}

#[test]
fn send_failures_are_classified() {
    let f = flow(job("GET", "https://a.example/", BodyPayload::NoBody, vec![], false));
    let c = on_send_failed(&f, &RequestErrorInfo { is_timeout: true, is_builder: true, ..info() });
    assert_eq!(failed_with(&c), (0, ErrorCode::Timeout));
    assert_eq!(map_reqwest_error(&RequestErrorInfo { is_builder: true, ..info() }), ErrorCode::BadUrl);
    assert_eq!(
        map_reqwest_error(&RequestErrorInfo { is_builder: true, io_kind: Some(IoErrorKind::Other), ..info() }),
        ErrorCode::BadUrl
    );
    assert_eq!(
        map_reqwest_error(&RequestErrorInfo { io_kind: Some(IoErrorKind::ConnectionRefused), is_connect: true, ..info() }),
        ErrorCode::CantConnect
    );
    assert_eq!(map_reqwest_error(&RequestErrorInfo { is_connect: true, ..info() }), ErrorCode::TlsHandshake);
    assert_eq!(map_reqwest_error(&RequestErrorInfo { is_status: true, ..info() }), ErrorCode::NoError);
    assert_eq!(map_reqwest_error(&info()), ErrorCode::Unknown);
}

#[test]
fn refused_connection_while_sending_cannot_connect() {
    let f = flow(job("POST", "https://a.example/", BodyPayload::NoBody, vec![], false));
    let refused = RequestErrorInfo { io_kind: Some(IoErrorKind::ConnectionRefused), is_connect: true, ..info() };
    assert_eq!(failed_with(&on_send_failed(&f, &refused)), (0, ErrorCode::CantConnect));
    let unreachable = RequestErrorInfo { io_kind: Some(IoErrorKind::HostUnreachable), is_connect: true, ..info() };
    assert_eq!(failed_with(&on_send_failed(&f, &unreachable)), (0, ErrorCode::NoSocket));
}

#[test]
fn io_kinds_are_classified() {
    assert_eq!(map_io_error(IoErrorKind::TimedOut), ErrorCode::Timeout);
    assert_eq!(map_io_error(IoErrorKind::BrokenPipe), ErrorCode::SendFail);
    assert_eq!(map_io_error(IoErrorKind::WriteZero), ErrorCode::SendFail);
    assert_eq!(map_io_error(IoErrorKind::ConnectionRefused), ErrorCode::CantConnect);
    assert_eq!(map_io_error(IoErrorKind::NotConnected), ErrorCode::NoSocket);
    assert_eq!(map_io_error(IoErrorKind::AddrNotAvailable), ErrorCode::NoSocket);
    assert_eq!(map_io_error(IoErrorKind::NetworkUnreachable), ErrorCode::NoSocket);
    assert_eq!(map_io_error(IoErrorKind::HostUnreachable), ErrorCode::NoSocket);
    assert_eq!(map_io_error(IoErrorKind::Other), ErrorCode::Unknown);
}

#[test]
fn error_codes_match_the_include() {
    let all = [
        (ErrorCode::NoError, 0),
        (ErrorCode::BadUrl, 1),
        (ErrorCode::TlsHandshake, 2),
        (ErrorCode::NoSocket, 3),
        (ErrorCode::CantConnect, 4),
        (ErrorCode::SendFail, 5),
        (ErrorCode::ContentTooBig, 6),
        (ErrorCode::Timeout, 7),
        (ErrorCode::PolicyBlocked, 8),
        (ErrorCode::Unknown, 10),
    ];
    for (c, n) in all {
        assert_eq!(c.as_i32(), n);
    }
}

#[test]
fn finishing_queues_and_clears_temporary_headers() {
    let mut st = PluginState::new();
    set_temp_header(&mut st, s("X-T"), s("1"));
    finish_with_error(&mut st, 3, "Cb", 0, ErrorCode::Timeout);
    assert!(snapshot_headers(&st).get("X-T").is_none());
    set_temp_header(&mut st, s("X-T"), s("2"));
    let mut h = HeaderTable::new();
    h.insert(s("a"), s("b"));
    finish_ok(&mut st, 4, "Cb2", s("body"), 200, h);
    assert!(snapshot_headers(&st).get("X-T").is_none());
    let out = drain_responses(&mut st, 10);
    assert_eq!(out.len(), 2);
    assert_eq!((out[0].index, out[0].status, out[0].error, out[0].response.as_str()), (3, 0, 7, ""));
    assert_eq!(out[0].headers.len(), 0);
    assert_eq!((out[1].index, out[1].status, out[1].error, out[1].response.as_str()), (4, 200, 0, "body"));
    assert_eq!(out[1].callback, "Cb2");
    assert_eq!(out[1].headers.get("a").map(|v| v.as_str()), Some("b"));
}

#[test]
fn cancelled_job_in_flight_is_not_queued() {
    let mut st = PluginState::new();
    mark_in_flight(&mut st, 5);
    cancel(&mut st, 5);
    set_temp_header(&mut st, s("X-T"), s("1"));
    finish_job(&mut st, Completion {
        index: 5,
        callback: s("cb"),
        outcome: Outcome::Failed { status: 0, error: ErrorCode::Unknown },
    });
    assert!(drain_responses(&mut st, 10).is_empty());
    assert!(snapshot_headers(&st).get("X-T").is_none());
    // the index is settled: cancelling it again does nothing
    cancel(&mut st, 5);
    finish_job(&mut st, Completion {
        index: 5,
        callback: s("cb"),
        outcome: Outcome::Failed { status: 0, error: ErrorCode::Unknown },
    });
    assert_eq!(drain_responses(&mut st, 10).len(), 1);
}

#[test]
fn start_url_is_normalized_by_the_parser() {
    let mut f = flow(job("GET", "HTTPS://Example.COM/a/../b", BodyPayload::NoBody, vec![], false));
    assert_eq!(next_attempt(&mut f).url, "https://example.com/b");
}

#[test]
fn scheme_host_redirect_with_permission_follows() {
    let mut f = flow(job("GET", "http://a.example/", BodyPayload::NoBody, vec![("X", "1")], true));
    assert!(matches!(on_response(&mut f, 301, &loc("https://b.example/x")), AfterResponse::Redirected));
    let out = next_attempt(&mut f);
    assert_eq!(out.url, "https://b.example/x");
    assert_eq!(out.headers, vec![(s("X"), s("1"))]);
}
