use fetch_proxy::{
    conclude, decode_error, fixed_headers, is_success_status, method_from_upper, plan_request,
    select_method, transport_error, Exchange, HttpResponse, Method,
};

fn header_list(req_headers: &[fetch_proxy::Header]) -> Vec<(String, String)> {
    req_headers.iter().map(|h| (h.name.clone(), h.value.clone())).collect()
}

fn expected_headers() -> Vec<(String, String)> {
    vec![
        ("content-type".to_string(), "application/json".to_string()),
        ("origin".to_string(), "https://nagusamecs.github.io".to_string()),
        (
            "referer".to_string(),
            "https://nagusamecs.github.io/OpenNotesAPI/".to_string(),
        ),
    ]
}

#[test]
fn ok_follows_success_range() {
    for (status, ok) in [
        (100u16, false),
        (199, false),
        (200, true),
        (204, true),
        (299, true),
        (300, false),
        (404, false),
        (500, false),
        (0, false),
        (u16::MAX, false),
    ] {
        assert_eq!(is_success_status(status), ok, "status {}", status);
        let r = conclude(Exchange::Received(status, String::new())).unwrap();
        assert_eq!(r.status, status);
        assert_eq!(r.ok, ok, "status {}", status);
    }
}

#[test]
fn envelope_new_sets_fields() {
    let r = HttpResponse::new(201, "created".to_string());
    assert_eq!(r, HttpResponse { status: 201, body: "created".to_string(), ok: true });
}

#[test]
fn missing_method_is_get() {
    assert_eq!(select_method(None), Method::Get);
    assert_eq!(select_method(Some("GET".to_string())), Method::Get);
}

#[test]
fn unrecognized_method_is_get() {
    assert_eq!(select_method(Some("PATCH".to_string())), Method::Get);
    assert_eq!(select_method(Some("".to_string())), Method::Get);
    assert_eq!(select_method(Some("POSTS".to_string())), Method::Get);
    let default_plan = plan_request("https://example.com".to_string(), None);
    let patch_plan = plan_request("https://example.com".to_string(), Some("PATCH".to_string()));
    let get_plan = plan_request("https://example.com".to_string(), Some("GET".to_string()));
    assert_eq!(default_plan.method, get_plan.method);
    assert_eq!(patch_plan.method, get_plan.method);
}

#[test]
fn method_match_ignores_case() {
    for name in ["post", "POST", "Post", "pOsT"] {
        assert_eq!(select_method(Some(name.to_string())), Method::Post, "{}", name);
    }
    assert_eq!(select_method(Some("put".to_string())), Method::Put);
    assert_eq!(select_method(Some("Delete".to_string())), Method::Delete);
    assert_eq!(select_method(Some("get".to_string())), Method::Get);
}

#[test]
fn method_match_uses_unicode_capitals() {
    assert_eq!(select_method(Some("po\u{FB06}".to_string())), Method::Post);
}

#[test]
fn upper_name_must_be_exact() {
    assert_eq!(method_from_upper("POST"), Method::Post);
    assert_eq!(method_from_upper("PUT"), Method::Put);
    assert_eq!(method_from_upper("DELETE"), Method::Delete);
    assert_eq!(method_from_upper("GET"), Method::Get);
    assert_eq!(method_from_upper("post"), Method::Get);
}

#[test]
fn every_request_has_fixed_headers() {
    assert_eq!(header_list(&fixed_headers()), expected_headers());
    for url in ["https://example.com/api", "http://localhost:1/x", "not a url", ""] {
        for method in [None, Some("GET"), Some("post"), Some("PUT"), Some("delete"), Some("PATCH")] {
            let req = plan_request(url.to_string(), method.map(|m| m.to_string()));
            assert_eq!(req.url, url);
            assert_eq!(header_list(&req.headers), expected_headers());
        }
    }
}

#[test]
fn unreachable_host_is_transport_error() {
    let r = conclude(Exchange::SendFailed("error sending request".to_string()));
    assert_eq!(r, Err("Request failed: error sending request".to_string()));
    assert_eq!(transport_error("x"), "Request failed: x");
}

#[test]
fn unreadable_body_is_decode_error() {
    let r = conclude(Exchange::BodyUnreadable("invalid utf-8".to_string()));
    assert_eq!(r, Err("Failed to read body: invalid utf-8".to_string()));
    assert_eq!(decode_error(""), "Failed to read body: ");
}

#[test]
fn get_without_method_returns_envelope() {
    let req = plan_request("https://example.com/api".to_string(), None);
    assert_eq!(req.method, Method::Get);
    assert_eq!(req.url, "https://example.com/api");
    assert_eq!(header_list(&req.headers), expected_headers());
    let r = conclude(Exchange::Received(200, "{}".to_string()));
    assert_eq!(r, Ok(HttpResponse { status: 200, body: "{}".to_string(), ok: true }));
}

#[test]
fn not_found_is_envelope_not_error() {
    let req = plan_request("https://example.com/missing".to_string(), Some("GET".to_string()));
    assert_eq!(req.method, Method::Get);
    let r = conclude(Exchange::Received(404, "Not Found".to_string()));
    assert_eq!(r, Ok(HttpResponse { status: 404, body: "Not Found".to_string(), ok: false }));
}
