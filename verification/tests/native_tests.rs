use https_samp::https::BodyPayload;
use https_samp::natives::{
    https, https_form_add, https_get_max_body_bytes, https_jsonf, https_queue_len,
    https_set_basic_auth_once, https_set_bearer_once, https_set_max_body_bytes,
    https_set_timeout_once, method_accepts_body, method_name, pem_file_size_allowed, start_request,
};
use https_samp::payload::PreparedBody;
use https_samp::state::{
    add_form_pair, add_multipart_text, enqueue_response, set_allow_cross_host_once, set_body_raw,
    set_global_header, set_temp_header, set_timeout_once, snapshot_headers, take_allow_cross_host_once,
    take_prepared_body, take_timeout_once, PluginState,
};
use https_samp::headers::HeaderTable;
use https_samp::text::value_or;

fn s(x: &str) -> String {
    x.to_string()
}

fn header(st: &PluginState, name: &str) -> Option<String> {
    snapshot_headers(st).get(name).cloned()
}

fn job_header<'a>(h: &'a [(String, String)], name: &str) -> Option<&'a str> {
    h.iter().find(|(k, _)| k == name).map(|(_, v)| v.as_str())
}

#[test]
fn request_types_select_methods() {
    assert_eq!(method_name(1), "GET");
    assert_eq!(method_name(2), "POST");
    assert_eq!(method_name(3), "HEAD");
    assert_eq!(method_name(4), "PUT");
    assert_eq!(method_name(5), "DELETE");
    assert_eq!(method_name(6), "PATCH");
    assert_eq!(method_name(0), "GET");
    assert_eq!(method_name(99), "GET");
    assert!(method_accepts_body(2) && method_accepts_body(4) && method_accepts_body(6));
    assert!(!method_accepts_body(1) && !method_accepts_body(3) && !method_accepts_body(5));
}

#[test]
fn basic_auth_header_is_base64_of_credentials() {
    let mut st = PluginState::new();
    https_set_basic_auth_once(&mut st, "Aladdin", "open sesame");
    assert_eq!(header(&st, "Authorization"), Some(s("Basic QWxhZGRpbjpvcGVuIHNlc2FtZQ==")));
    https_set_basic_auth_once(&mut st, "a", "");
    assert_eq!(header(&st, "Authorization"), Some(s("Basic YTo=")));
    https_set_basic_auth_once(&mut st, "user", "pä");
    assert_eq!(header(&st, "Authorization"), Some(s("Basic dXNlcjpww6Q=")));
}

#[test]
fn bearer_header_is_set() {
    let mut st = PluginState::new();
    https_set_bearer_once(&mut st, "tok123");
    assert_eq!(header(&st, "Authorization"), Some(s("Bearer tok123")));
}

#[test]
fn jsonf_sets_content_type_only_on_success() {
    let mut st = PluginState::new();
    assert!(!https_jsonf(&mut st, s("{\"a\":")));
    assert_eq!(header(&st, "Content-Type"), None);
    assert!(https_jsonf(&mut st, s("{\"a\":1}")));
    assert_eq!(header(&st, "Content-Type"), Some(s("application/json; charset=utf-8")));
}

#[test]
fn form_add_sets_content_type() {
    let mut st = PluginState::new();
    assert!(https_form_add(&mut st, s("a"), s("b c")));
    assert_eq!(header(&st, "Content-Type"), Some(s("application/x-www-form-urlencoded")));
    https_set_max_body_bytes(&mut st, 0);
    set_temp_header(&mut st, s("Content-Type"), s("text/plain"));
    assert!(!https_form_add(&mut st, s("x"), "y".repeat(5000)));
    assert_eq!(header(&st, "Content-Type"), Some(s("text/plain")));
}

#[test]
fn native_number_conversions() {
    let mut st = PluginState::new();
    assert_eq!(https_get_max_body_bytes(&st), 65536);
    assert_eq!(https_set_max_body_bytes(&mut st, -5), 4096);
    assert_eq!(https_set_max_body_bytes(&mut st, i32::MAX), 1_048_576);
    assert_eq!(https_set_max_body_bytes(&mut st, 70_000), 70_000);
    assert_eq!(https_get_max_body_bytes(&st), 70_000);
    https_set_timeout_once(&mut st, -1);
    assert_eq!(take_timeout_once(&mut st), None);
    https_set_timeout_once(&mut st, 1500);
    assert_eq!(take_timeout_once(&mut st), Some(1500));
    assert_eq!(https_queue_len(&st), 0);
    enqueue_response(&mut st, 1, s("c"), s(""), 200, 0, HeaderTable::new());
    assert_eq!(https_queue_len(&st), 1);
}

#[test]
fn pem_file_limit_is_256_kib() {
    assert!(pem_file_size_allowed(0));
    assert!(pem_file_size_allowed(262_144));
    assert!(!pem_file_size_allowed(262_145));
}

#[test]
fn start_request_takes_one_shot_options() {
    let mut st = PluginState::new();
    set_global_header(&mut st, s("X-G"), s("g"));
    set_temp_header(&mut st, s("X-G"), s("t"));
    set_allow_cross_host_once(&mut st, true);
    set_timeout_once(&mut st, 900);
    let job = start_request(&mut st, 8, s("GET"), s("https://x.example/"), BodyPayload::NoBody, s("Cb"));
    assert_eq!(job.index, 8);
    assert_eq!(job.method, "GET");
    assert_eq!(job.url, "https://x.example/");
    assert_eq!(job.callback, "Cb");
    assert!(job.allow_cross_host);
    assert_eq!(job.total_timeout, Some(900));
    assert_eq!(job_header(&job.headers, "X-G"), Some("t"));
    assert_eq!(job_header(&job.headers, "User-Agent"), Some("SA-MP HTTPS/1.0"));
    assert_eq!(job.headers.len(), 2);
    assert!(!take_allow_cross_host_once(&mut st));
    assert_eq!(take_timeout_once(&mut st), None);
    // the request took the temporary headers; the global one is back in effect
    assert_eq!(header(&st, "X-G"), Some(s("g")));
}

#[test]
fn temporary_headers_do_not_reach_the_next_request() {
    let mut st = PluginState::new();
    https_set_bearer_once(&mut st, "x");
    let first = start_request(&mut st, 1, s("GET"), s("https://a.test/"), BodyPayload::NoBody, s("cb"));
    assert_eq!(job_header(&first.headers, "Authorization"), Some("Bearer x"));
    // the first request is still in flight when the second one is submitted
    let second = start_request(&mut st, 2, s("GET"), s("https://a.test/"), BodyPayload::NoBody, s("cb"));
    assert_eq!(job_header(&second.headers, "Authorization"), None);
    assert_eq!(second.headers.len(), 1);
}

#[test]
fn manual_content_type_after_json_builder_wins() {
    let mut st = PluginState::new();
    assert!(https_jsonf(&mut st, s("{}")));
    set_temp_header(&mut st, s("Content-Type"), s("application/vnd.api+json"));
    let job = https(&mut st, 1, 2, s("https://a.test/"), s(""), s("cb"));
    assert!(matches!(&job.body, BodyPayload::Raw(b) if b == "{}"));
    assert_eq!(job_header(&job.headers, "Content-Type"), Some("application/vnd.api+json"));
}

#[test]
fn manual_content_type_in_any_case_is_not_doubled() {
    let mut st = PluginState::new();
    assert!(https_form_add(&mut st, s("a"), s("1")));
    // a GET takes the builder's temporary header and leaves the staged form
    let _ = https(&mut st, 9, 1, s("https://a.test/"), s(""), s("cb"));
    set_temp_header(&mut st, s("content-type"), s("text/plain"));
    let job = https(&mut st, 1, 2, s("https://a.test/"), s(""), s("cb"));
    assert_eq!(job_header(&job.headers, "content-type"), Some("text/plain"));
    assert_eq!(job.headers.iter().filter(|(k, _)| k.eq_ignore_ascii_case("content-type")).count(), 1);
}

#[test]
fn staged_json_taken_later_gets_its_content_type_back() {
    let mut st = PluginState::new();
    assert!(https_jsonf(&mut st, s("[1]")));
    // a GET in between takes the temporary headers but not the staged body
    let get = https(&mut st, 1, 1, s("https://a.test/"), s(""), s("cb"));
    assert_eq!(job_header(&get.headers, "Content-Type"), Some("application/json; charset=utf-8"));
    let post = https(&mut st, 2, 2, s("https://a.test/"), s(""), s("cb"));
    assert!(matches!(&post.body, BodyPayload::Raw(b) if b == "[1]"));
    assert_eq!(job_header(&post.headers, "Content-Type"), Some("application/json; charset=utf-8"));
}

#[test]
fn post_with_inline_data_leaves_staged_body() {
    let mut st = PluginState::new();
    assert!(set_body_raw(&mut st, s("staged")));
    let job = https(&mut st, 1, 2, s("https://x.example/"), s("inline"), s("cb"));
    assert_eq!(job.method, "POST");
    assert!(matches!(job.body, BodyPayload::Raw(ref b) if b == "inline"));
    assert!(matches!(take_prepared_body(&mut st), PreparedBody::Raw(ref b, None) if b == "staged"));
}

#[test]
fn get_ignores_data_and_staged_body() {
    let mut st = PluginState::new();
    assert!(set_body_raw(&mut st, s("staged")));
    let job = https(&mut st, 1, 1, s("https://x.example/"), s("inline"), s("cb"));
    assert_eq!(job.method, "GET");
    assert!(matches!(job.body, BodyPayload::NoBody));
    let job = https(&mut st, 1, 5, s("https://x.example/"), s(""), s("cb"));
    assert_eq!(job.method, "DELETE");
    assert!(matches!(job.body, BodyPayload::NoBody));
    assert!(matches!(take_prepared_body(&mut st), PreparedBody::Raw(ref b, None) if b == "staged"));
}

#[test]
fn post_without_data_takes_staged_form_with_content_type() {
    let mut st = PluginState::new();
    assert!(add_form_pair(&mut st, s("a"), s("1")));
    assert!(add_form_pair(&mut st, s("b"), s("2 3")));
    let job = https(&mut st, 2, 4, s("https://x.example/"), s(""), s("cb"));
    assert_eq!(job.method, "PUT");
    assert!(matches!(job.body, BodyPayload::Raw(ref b) if b == "a=1&b=2+3"));
    assert_eq!(job_header(&job.headers, "Content-Type"), Some("application/x-www-form-urlencoded"));
    assert!(matches!(take_prepared_body(&mut st), PreparedBody::NoBody));
}

#[test]
fn patch_without_data_takes_multipart() {
    let mut st = PluginState::new();
    assert!(add_multipart_text(&mut st, s("f"), s("v")));
    let job = https(&mut st, 2, 6, s("https://x.example/"), s(""), s("cb"));
    assert_eq!(job.method, "PATCH");
    assert!(matches!(job.body, BodyPayload::Multipart(ref m) if m.text.len() == 1));
    assert_eq!(job_header(&job.headers, "Content-Type"), None);
}

#[test]
fn post_without_anything_staged_has_no_body() {
    let mut st = PluginState::new();
    let job = https(&mut st, 2, 2, s("https://x.example/"), s(""), s("cb"));
    assert!(matches!(job.body, BodyPayload::NoBody));
}

#[test]
fn value_or_falls_back_on_blank() {
    assert_eq!(value_or("", "N/A"), "N/A");
    assert_eq!(value_or(" \t\n\u{3000}", "N/A"), "N/A");
    assert_eq!(value_or(" x ", "N/A"), " x ");
    assert_eq!(value_or("Unknown", "N/A"), "Unknown");
}

#[test]
fn body_cap_stays_at_64_kib_until_set() {
    let mut st = PluginState::new();
    assert_eq!(https_get_max_body_bytes(&st), 65536);
    set_global_header(&mut st, s("X-A"), s("1"));
    https_set_bearer_once(&mut st, "t");
    assert!(https_jsonf(&mut st, s("{\"a\":1}")));
    https_set_timeout_once(&mut st, 500);
    let _ = https(&mut st, 1, 2, s("https://a.test/"), s(""), s("cb"));
    assert!(https_form_add(&mut st, s("k"), s("v")));
    enqueue_response(&mut st, 1, s("cb"), s("ok"), 200, 0, HeaderTable::new());
    assert_eq!(https_get_max_body_bytes(&st), 65536);
    assert_eq!(https_set_max_body_bytes(&mut st, 100), 4096);
    assert_eq!(https_get_max_body_bytes(&st), 4096);
}
