use degressly_core::models::{DegresslyError, DownstreamResult, HostResults, HostType};
use degressly_core::proxy::handler::{InboundRequest, ProxyHandler};
use degressly_core::string_map::StringMap;

fn inbound(headers: Vec<(&str, &[u8])>, query: Vec<(&str, &str)>, body: &[u8]) -> InboundRequest {
    InboundRequest {
        method: "POST".to_string(),
        uri: "/proxy".to_string(),
        headers: headers
            .into_iter()
            .map(|(n, v)| (n.to_string(), v.to_vec()))
            .collect(),
        query: query
            .into_iter()
            .map(|(k, v)| (k.to_string(), v.to_string()))
            .collect(),
        body: body.to_vec(),
    }
}

fn result(status: u16, body: Option<&[u8]>) -> DownstreamResult {
    DownstreamResult {
        headers: StringMap::new(),
        status_code: status,
        body: body.map(|b| b.to_vec()),
        error: None,
    }
}

#[test]
fn test_handle_proxy_basic_routing() {
    let (request, wait_for_all) =
        ProxyHandler::<()>::build_request(inbound(vec![], vec![], b"test body"));
    assert!(!wait_for_all);
    assert_eq!(request.body, Some(b"test body".to_vec()));
    assert_eq!(request.url, "/proxy");

    let mut results = HostResults::new();
    results.insert(HostType::Primary, result(200, Some(b"test response")));
    let resp = ProxyHandler::<()>::build_response(Ok(results)).unwrap();
    assert_eq!(resp.status, 200);
    assert_eq!(resp.body, b"test response".to_vec());
}

#[test]
fn test_handle_proxy_wait_for_all() {
    let (_request, wait_for_all) = ProxyHandler::<()>::build_request(inbound(
        vec![("x-wait-for-all", b"true")],
        vec![],
        b"test body",
    ));
    assert!(wait_for_all);

    let mut results = HostResults::new();
    results.insert(HostType::Primary, result(200, Some(b"primary response")));
    results.insert(HostType::Secondary, result(200, Some(b"secondary response")));
    let resp = ProxyHandler::<()>::build_response(Ok(results)).unwrap();
    assert_eq!(resp.status, 200);
    assert_eq!(resp.body, b"primary response".to_vec());
}

#[test]
fn wait_for_all_is_case_insensitive_and_needs_text() {
    let flag = |v: &[u8]| ProxyHandler::<()>::build_request(inbound(vec![("X-Wait-For-All", v)], vec![], b"")).1;
    assert!(flag(b"TRUE"));
    assert!(flag(b"tRuE"));
    assert!(!flag(b"yes"));
    assert!(!flag(b"true "));
    assert!(!flag(b"tru\xc3\xa9"));
    assert!(!ProxyHandler::<()>::build_request(inbound(vec![], vec![], b"")).1);
}

#[test]
fn wait_for_all_uses_first_header_value() {
    let (_, wait) = ProxyHandler::<()>::build_request(inbound(
        vec![("x-wait-for-all", b"false"), ("x-wait-for-all", b"true")],
        vec![],
        b"",
    ));
    assert!(!wait);
}

#[test]
fn trace_id_is_first_textual_value_or_empty() {
    let (r, _) = ProxyHandler::<()>::build_request(inbound(
        vec![("x-trace-id", b"abc-123"), ("x-trace-id", b"second")],
        vec![],
        b"",
    ));
    assert_eq!(r.trace_id, "abc-123");
    let (r, _) = ProxyHandler::<()>::build_request(inbound(vec![("x-trace-id", b"bad\x01")], vec![], b""));
    assert_eq!(r.trace_id, "");
    let (r, _) = ProxyHandler::<()>::build_request(inbound(vec![], vec![], b""));
    assert_eq!(r.trace_id, "");
}

#[test]
fn headers_collect_last_value_per_name() {
    let (r, _) = ProxyHandler::<()>::build_request(inbound(
        vec![("accept", b"a"), ("host", b"h"), ("accept", b"b"), ("x-bin", b"\xff")],
        vec![("q", "1"), ("p", "2"), ("q", "3")],
        b"",
    ));
    assert_eq!(r.headers.get("accept"), Some(&vec!["b".to_string()]));
    assert_eq!(r.headers.get("host"), Some(&vec!["h".to_string()]));
    assert_eq!(r.headers.get("x-bin"), Some(&vec!["".to_string()]));
    assert_eq!(r.headers.entries().len(), 3);
    assert_eq!(r.params.get("q"), Some(&vec!["3".to_string()]));
    assert_eq!(r.params.get("p"), Some(&vec!["2".to_string()]));
    assert_eq!(r.method, "POST");
}

#[test]
fn response_status_falls_back_to_ok() {
    for (code, expected) in [(99u16, 200u16), (100, 100), (404, 404), (999, 999), (1000, 200), (0, 200)] {
        let mut results = HostResults::new();
        results.insert(HostType::Primary, result(code, None));
        let resp = ProxyHandler::<()>::build_response(Ok(results)).unwrap();
        assert_eq!(resp.status, expected);
        assert!(resp.body.is_empty());
    }
}

#[test]
fn response_without_primary_uses_another_replica() {
    let mut results = HostResults::new();
    results.insert(HostType::Candidate, result(201, Some(b"cand")));
    let resp = ProxyHandler::<()>::build_response(Ok(results)).unwrap();
    assert_eq!(resp.status, 201);
    assert_eq!(resp.body, b"cand".to_vec());
}

#[test]
fn response_without_results_is_internal_error() {
    match ProxyHandler::<()>::build_response(Ok(HostResults::new())) {
        Err(DegresslyError::InternalError(m)) => assert_eq!(m, "No response available"),
        other => panic!("unexpected {:?}", other),
    }
}

#[test]
fn response_passes_errors_on() {
    match ProxyHandler::<()>::build_response(Err(DegresslyError::HttpError("down".to_string()))) {
        Err(DegresslyError::HttpError(m)) => assert_eq!(m, "down"),
        other => panic!("unexpected {:?}", other),
    }
}

#[test]
fn handler_keeps_its_service() {
    let h = ProxyHandler::new(42u32);
    assert_eq!(*h.multicast_service(), 42);
}
