use invok::proxy::{
    plan_request, relay_response, request_headers, response_headers, DownstreamResult,
    HeaderEntry, Method, RequestPlan,
};
use invok::urls::QueryParam;

fn header(name: &str, value: &str) -> HeaderEntry {
    HeaderEntry { name: String::from(name), value: String::from(value) }
}

#[test]
fn get_is_forwarded_with_all_headers() {
    let headers = vec![header("accept", "*/*"), header("x-custom", "1")];
    let q: Vec<QueryParam> = Vec::new();
    match plan_request(&Method::Get, "svc:8080", "hello", &q, &headers) {
        RequestPlan::ForwardGet { url, headers: out } => {
            assert_eq!(url, "http://svc:8080/hello");
            assert_eq!(out.len(), 2);
            assert_eq!(out[0].name, "accept");
            assert_eq!(out[1].name, "x-custom");
            assert_eq!(out[1].value, "1");
        }
        _ => panic!("a GET must be forwarded"),
    }
}

#[test]
fn post_is_forwarded() {
    let headers = vec![header("content-type", "text/plain")];
    let q: Vec<QueryParam> = Vec::new();
    match plan_request(&Method::Post, "svc:8080", "hello", &q, &headers) {
        RequestPlan::ForwardPost { url, headers: out } => {
            assert_eq!(url, "http://svc:8080/hello");
            assert_eq!(out.len(), 1);
        }
        _ => panic!("a POST must be forwarded"),
    }
}

#[test]
fn unsupported_method_is_a_405_naming_it() {
    let headers: Vec<HeaderEntry> = Vec::new();
    let q: Vec<QueryParam> = Vec::new();
    match plan_request(&Method::Other(String::from("PATCH")), "svc:8080", "hello", &q, &headers) {
        RequestPlan::Reject { status, body } => {
            assert_eq!(status, 405);
            assert_eq!(body, "We don't currently support PATCH functions");
        }
        _ => panic!("a PATCH must be rejected"),
    }
}

#[test]
fn response_headers_drop_transfer_encoding_only() {
    let downstream = vec![
        header("content-type", "text/plain"),
        header("Transfer-Encoding", "chunked"),
        header("x-trace", "abc"),
        header("transfer-encoding", "gzip"),
    ];
    let kept = response_headers(&downstream);
    assert_eq!(kept.len(), 2);
    assert_eq!(kept[0].name, "content-type");
    assert_eq!(kept[1].name, "x-trace");
}

#[test]
fn request_headers_are_copied_verbatim() {
    let inbound = vec![header("transfer-encoding", "chunked"), header("a", "b")];
    let out = request_headers(&inbound);
    assert_eq!(out.len(), 2);
    assert_eq!(out[0].name, "transfer-encoding");
    assert_eq!(out[0].value, "chunked");
}

#[test]
fn downstream_response_is_relayed() {
    let r = relay_response(DownstreamResult::Response {
        status: 201,
        headers: vec![header("x", "1"), header("Transfer-Encoding", "chunked")],
        body: String::from("Hello World!"),
    });
    assert_eq!(r.status, 201);
    assert_eq!(r.body, "Hello World!");
    assert_eq!(r.headers.len(), 1);
    assert_eq!(r.headers[0].name, "x");
}

#[test]
fn downstream_failures_have_fixed_replies() {
    let r = relay_response(DownstreamResult::BodyUnreadable);
    assert_eq!((r.status, r.body.as_str()), (400, "Could not read request body"));
    let r = relay_response(DownstreamResult::SendFailed);
    assert_eq!((r.status, r.body.as_str()), (500, "Failed to make downstream request"));
    let r = relay_response(DownstreamResult::ResponseUnreadable);
    assert_eq!((r.status, r.body.as_str()), (500, "Failed to read downstream response"));
}
