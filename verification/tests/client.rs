use rutmf::api::client::{
    base_url, classify_body, interpret_failure, join_url, monitor_url, page_from,
    require_same_origin, truncate, Bodiless,
};
use rutmf::api::transport::{default_accept, set_header};
use rutmf::api::{same_origin, Error, Method, TmfRequest, TmfResponse, TransportError};
use rutmf::model::TmfError;

#[test]
fn truncates_on_a_char_boundary() {
    let body = "ä".repeat(400);
    let out = truncate(&body);
    assert!(out.ends_with("bytes total)"));
    assert!(out.is_char_boundary(0));
}

#[test]
fn a_long_body_keeps_its_first_512_bytes_and_reports_its_size() {
    let body = "ä".repeat(400);
    let out = truncate(&body);
    assert_eq!(out, format!("{}\u{2026} (800 bytes total)", "ä".repeat(256)));
    let short = "x".repeat(512);
    assert_eq!(truncate(&short), short);
    let odd = format!("{}ä", "x".repeat(511));
    assert_eq!(truncate(&odd), format!("{}\u{2026} (513 bytes total)", "x".repeat(511)));
}

#[test]
fn a_pagination_link_may_not_leave_the_origin() {
    let base = "https://catalog.example/tmf-api/productCatalogManagement/v5";
    assert!(same_origin(base, "https://catalog.example/tmf-api/x?cursor=2"));
    assert!(same_origin(base, "HTTPS://Catalog.Example/other"));
    assert!(!same_origin(base, "https://attacker.example/steal"));
    assert!(
        !same_origin(base, "https://catalog.example:8443/other"),
        "a port is part of the origin"
    );
    assert!(
        !same_origin(base, "http://catalog.example/other"),
        "so is the scheme"
    );
    assert!(
        !same_origin(base, "/relative/path"),
        "unreadable is not same-origin"
    );
}

#[test]
fn an_explicit_default_port_is_the_same_origin() {
    assert!(same_origin(
        "https://host/tmf-api/x/v5",
        "https://host:443/tmf-api/y/v5/a/1"
    ));
    assert!(same_origin("https://host:443/x", "https://host/x"));
    assert!(same_origin("http://host:80/x", "http://host/x"));
    assert!(!same_origin("https://host:8443/x", "https://host/x"));
    assert!(!same_origin("https://host:80/x", "https://host/x"));
    assert!(!same_origin("http://host:443/x", "http://host/x"));
}

#[test]
fn userinfo_cannot_disguise_another_host() {
    let base = "https://catalog.example/tmf-api/x/v5";
    assert!(!same_origin(
        base,
        "https://catalog.example@attacker.example/steal"
    ));
    assert!(!same_origin(
        base,
        "https://attacker.example@catalog.example/x"
    ));
}

#[test]
fn an_ipv6_literal_keeps_its_brackets_and_its_port() {
    assert!(same_origin("https://[::1]/x", "https://[::1]:443/y"));
    assert!(!same_origin("https://[::1]/x", "https://[::2]/y"));
    assert!(!same_origin("https://[::1]/x", "https://[::1]:8443/y"));
}

#[test]
fn the_origin_check_is_symmetric() {
    let pairs = [
        ("https://host:443/x", "https://host/y"),
        ("https://a/x", "https://b/x"),
        ("/relative", "https://a/"),
        ("HTTP://A:80", "http://a/"),
    ];
    for (a, b) in pairs {
        assert_eq!(same_origin(a, b), same_origin(b, a), "{a} / {b}");
    }
}

#[test]
fn a_cross_origin_url_is_refused_and_named() {
    assert!(require_same_origin("https://a/x", "https://a/y").is_ok());
    match require_same_origin("https://a/x", "https://b/y") {
        Err(Error::CrossOrigin { url, base }) => {
            assert_eq!(url, "https://b/y");
            assert_eq!(base, "https://a/x");
        }
        other => panic!("expected a cross-origin refusal, got {other:?}"),
    }
}

fn failure(body: &'static str, parsed: Option<TmfError>) -> Error {
    interpret_failure(&TmfResponse::new(502, Vec::new(), body.as_bytes().to_vec()), parsed)
}

#[test]
fn a_tmf_error_body_becomes_a_typed_error() {
    let mut e = TmfError::empty();
    e.code = Some("50201".to_owned());
    e.reason = Some("upstream down".to_owned());
    let error = failure(r#"{"code":"50201","reason":"upstream down"}"#, Some(e));
    assert_eq!(
        error.tmf_error().and_then(|e| e.code.as_deref()),
        Some("50201")
    );
    assert_eq!(error.status(), Some(502));
}

#[test]
fn an_unrelated_json_body_keeps_its_raw_text() {
    let error = failure(
        r#"{"message":"gateway timeout","upstream":"catalog"}"#,
        Some(TmfError::empty()),
    );
    match error {
        Error::Status { body, status } => {
            assert!(body.contains("gateway timeout"));
            assert_eq!(status, 502);
        }
        other => panic!("expected a raw status error, got {other:?}"),
    }
}

#[test]
fn a_body_that_is_not_utf8_is_reported_lossily() {
    let error = interpret_failure(&TmfResponse::new(500, Vec::new(), vec![b'o', 0xff, b'k']), None);
    match error {
        Error::Status { body, .. } => assert_eq!(body, "o\u{fffd}k"),
        other => panic!("expected a raw status error, got {other:?}"),
    }
}

#[test]
fn rejects_an_empty_base_url() {
    assert!(matches!(base_url("  "), Err(Error::InvalidBaseUrl(_))));
    assert_eq!(base_url("https://h/v5//").unwrap(), "https://h/v5");
    assert_eq!(base_url("  /").unwrap(), "  ");
}

#[test]
fn a_path_joins_the_base_with_one_slash() {
    assert_eq!(join_url("https://h/v5", "/productOffering"), "https://h/v5/productOffering");
    assert_eq!(join_url("https://h/v5", "hub/1"), "https://h/v5/hub/1");
    assert_eq!(join_url("https://h/v5", "//x"), "https://h/v5/x");
}

#[test]
fn an_accepted_write_names_where_to_poll() {
    let headers = vec![
        ("Content-Location".to_owned(), Some("/monitor/2".to_owned())),
        ("Location".to_owned(), Some("/monitor/1".to_owned())),
    ];
    let response = TmfResponse::new(202, headers, Vec::new());
    assert_eq!(monitor_url(&response).as_deref(), Some("/monitor/1"));
    match classify_body(&response) {
        Bodiless::Accepted(Error::Accepted { status, monitor }) => {
            assert_eq!(status, 202);
            assert_eq!(monitor.as_deref(), Some("/monitor/1"));
        }
        _ => panic!("a bodiless 202 is an accepted write"),
    }
    let undecodable = vec![("location".to_owned(), None), ("content-location".to_owned(), Some("/m".to_owned()))];
    assert_eq!(monitor_url(&TmfResponse::new(202, undecodable, Vec::new())), None);
    assert!(matches!(classify_body(&TmfResponse::new(204, Vec::new(), Vec::new())), Bodiless::Null));
    assert!(matches!(classify_body(&TmfResponse::new(202, Vec::new(), b"{}".to_vec())), Bodiless::Body));
}

#[test]
fn a_collection_response_becomes_a_page() {
    let headers = vec![
        ("X-Total-Count".to_owned(), Some("10".to_owned())),
        ("x-result-count".to_owned(), Some("2".to_owned())),
        ("Link".to_owned(), Some("<https://h/a?offset=2>; rel=\"next\"".to_owned())),
    ];
    let response = TmfResponse::new(206, headers, Vec::new());
    let page = page_from(&response, vec![1u8, 2], 0);
    assert_eq!(page.total_count, Some(10));
    assert_eq!(page.result_count, Some(2));
    assert_eq!(page.next_link.as_deref(), Some("https://h/a?offset=2"));
    assert!(page.partial);
    assert_eq!(page.offset, 0);
    assert!(page.has_more(2));
}

#[test]
fn a_count_header_that_is_not_a_number_is_absent() {
    let headers = vec![("x-total-count".to_owned(), Some("many".to_owned()))];
    assert_eq!(TmfResponse::new(200, headers, Vec::new()).total_count(), None);
    let plus = vec![("x-total-count".to_owned(), Some("+7".to_owned()))];
    assert_eq!(TmfResponse::new(200, plus, Vec::new()).total_count(), Some(7));
}

#[test]
fn setting_a_header_replaces_every_earlier_one() {
    let mut headers = vec![
        ("If-Match".to_owned(), Some("a".to_owned())),
        ("x".to_owned(), Some("1".to_owned())),
        ("if-match".to_owned(), Some("b".to_owned())),
    ];
    set_header(&mut headers, "if-match", "c");
    assert_eq!(
        headers,
        vec![
            ("x".to_owned(), Some("1".to_owned())),
            ("if-match".to_owned(), Some("c".to_owned())),
        ]
    );
}

#[test]
fn a_request_accepts_json_unless_it_says_otherwise() {
    let mut request = TmfRequest::new(Method::Get, "https://h/a".to_owned());
    default_accept(&mut request);
    assert_eq!(request.headers, vec![("accept".to_owned(), Some("application/json".to_owned()))]);
    let mut request = TmfRequest::new(Method::Get, "https://h/a".to_owned());
    request.headers.push(("Accept".to_owned(), Some("text/plain".to_owned())));
    default_accept(&mut request);
    assert_eq!(request.headers.len(), 1);
}

#[test]
fn errors_read_as_their_messages_with_the_status_written_out() {
    let status = Error::Status { status: 404, body: "no such thing".into() };
    assert_eq!(status.describe(), "HTTP 404 Not Found: no such thing");
    assert_eq!(status.describe_with("404"), "HTTP 404: no such thing");

    let mut body = TmfError::empty();
    body.code = Some("40001".into());
    body.reason = Some("Missing name".into());
    assert_eq!(body.describe(), "40001: Missing name");
    body.message = Some("name is mandatory".into());
    let api = Error::Api { status: 400, error: Box::new(body) };
    assert_eq!(api.describe(), "400 Bad Request: 40001: Missing name (name is mandatory)");
    assert_eq!(TmfError::empty().describe(), "unspecified error");

    let accepted = Error::Accepted { status: 202, monitor: Some("/monitor/1".into()) };
    assert_eq!(
        accepted.describe(),
        "202 Accepted: accepted for asynchronous processing, monitor at /monitor/1"
    );
    let quiet = Error::Accepted { status: 202, monitor: None };
    assert_eq!(quiet.describe(), "202 Accepted: accepted for asynchronous processing");
    assert_eq!(
        Error::Status { status: 599, body: String::new() }.describe(),
        "HTTP 599 <unknown status code>: "
    );
    assert_eq!(
        Error::NoEntityTag.describe(),
        "the server issued no ETag, so this write cannot be made conditional"
    );
    assert_eq!(Error::InvalidBaseUrl("nope".into()).describe(), "invalid base URL: nope");
    assert_eq!(
        Error::CrossOrigin { url: "https://evil/".into(), base: "https://api/".into() }.describe(),
        "refusing to follow https://evil/ \u{2014} it leaves the origin of https://api/"
    );
}

#[test]
fn errors_without_a_status_read_as_their_cause() {
    assert_eq!(Error::Transport(TransportError::new("boom")).describe(), "transport error: boom");
    assert_eq!(
        Error::Decode("expected value at line 1".into()).describe(),
        "failed to decode response body: expected value at line 1"
    );
    assert_eq!(Error::Encode("x".into()).describe(), "failed to encode request body: x");
}

#[test]
fn a_hand_written_base_url_loses_its_trailing_slash() {
    let base = base_url("http://host/tmf-api/v5/").unwrap();
    assert_eq!(base, "http://host/tmf-api/v5");
    assert_eq!(join_url(&base, "/thing"), "http://host/tmf-api/v5/thing");
}
