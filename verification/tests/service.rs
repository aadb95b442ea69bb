use degressly_core::models::{DegresslyError, DegresslyRequest, DownstreamResult, HostType};
use degressly_core::proxy::handler::{InboundRequest, ProxyHandler};
use degressly_core::proxy::service::{HttpProxyMulticastService, RawResponse};
use degressly_core::string_map::StringMap;

fn request(method: &str) -> DegresslyRequest {
    let mut headers = StringMap::new();
    headers.insert("accept".to_string(), vec!["a".to_string(), "b".to_string()]);
    headers.insert("host".to_string(), vec!["h".to_string()]);
    DegresslyRequest {
        trace_id: "t".to_string(),
        method: method.to_string(),
        url: "/test?x=1".to_string(),
        headers,
        body: Some(b"payload".to_vec()),
        params: StringMap::new(),
    }
}

fn result(status: u16) -> DownstreamResult {
    DownstreamResult { headers: StringMap::new(), status_code: status, body: None, error: None }
}

#[test]
fn service_keeps_hosts() {
    let s = HttpProxyMulticastService::new("http://p".into(), "http://s".into(), "http://c".into());
    assert_eq!(s.host(HostType::Primary), "http://p");
    assert_eq!(s.host(HostType::Secondary), "http://s");
    assert_eq!(s.host(HostType::Candidate), "http://c");
}

#[test]
fn plan_request_targets_base_url() {
    let o = HttpProxyMulticastService::plan_request("http://primary:8080", request("POST")).unwrap();
    assert_eq!(o.url, "http://primary:8080/test?x=1");
    assert_eq!(o.method, "POST");
    assert_eq!(o.body, Some(b"payload".to_vec()));
    assert_eq!(
        o.headers,
        vec![
            ("accept".to_string(), "a".to_string()),
            ("accept".to_string(), "b".to_string()),
            ("host".to_string(), "h".to_string()),
        ]
    );
}

#[test]
fn plan_request_accepts_extension_methods() {
    assert!(HttpProxyMulticastService::plan_request("", request("PURGE")).is_ok());
    assert!(HttpProxyMulticastService::plan_request("", request("get")).is_ok());
}

#[test]
fn plan_request_refuses_invalid_methods() {
    for m in ["", "GE T", "GET\n", "(GET)"] {
        match HttpProxyMulticastService::plan_request("http://h", request(m)) {
            Err(DegresslyError::HttpError(msg)) => assert_eq!(msg, "invalid HTTP method"),
            other => panic!("unexpected {:?}", other),
        }
    }
}

#[test]
fn receive_records_answer() {
    let raw = RawResponse {
        status: 503,
        headers: vec![("content-type".to_string(), b"text/plain".to_vec())],
        body: b"busy".to_vec(),
    };
    let d = HttpProxyMulticastService::receive(Ok(raw)).unwrap();
    assert_eq!(d.status_code, 503);
    assert_eq!(d.body, Some(b"busy".to_vec()));
    assert_eq!(d.error, None);
    assert_eq!(d.headers.get("content-type"), Some(&vec!["text/plain".to_string()]));
}

#[test]
fn receive_failure_is_http_error() {
    match HttpProxyMulticastService::receive(Err("connection refused".to_string())) {
        Err(DegresslyError::HttpError(m)) => assert_eq!(m, "connection refused"),
        other => panic!("unexpected {:?}", other),
    }
}

#[test]
fn gather_all_holds_three_results() {
    let r = HttpProxyMulticastService::gather_all(Ok((result(1), result(2), result(3)))).unwrap();
    assert_eq!(r.get(HostType::Primary).unwrap().status_code, 1);
    assert_eq!(r.get(HostType::Secondary).unwrap().status_code, 2);
    assert_eq!(r.get(HostType::Candidate).unwrap().status_code, 3);
}

#[test]
fn gather_all_rewraps_failures() {
    match HttpProxyMulticastService::gather_all(Err(DegresslyError::HttpError("timeout".into()))) {
        Err(DegresslyError::HttpError(m)) => assert_eq!(m, "HTTP error: timeout"),
        other => panic!("unexpected {:?}", other),
    }
}

#[test]
fn gather_primary_keeps_only_primary() {
    let r = HttpProxyMulticastService::gather_primary(Ok(result(200)));
    assert_eq!(r.get(HostType::Primary).unwrap().status_code, 200);
    assert!(r.get(HostType::Secondary).is_none());
    let r = HttpProxyMulticastService::gather_primary(Err(DegresslyError::HttpError("x".into())));
    assert!(r.into_preferred().is_none());
}

#[test]
fn replica_receives_caller_request() {
    let inbound = InboundRequest {
        method: "PUT".to_string(),
        uri: "/items/7?x=1".to_string(),
        headers: vec![
            ("x-trace-id".to_string(), b"t1".to_vec()),
            ("accept".to_string(), b"a".to_vec()),
            ("accept".to_string(), b"b".to_vec()),
        ],
        query: vec![("x".to_string(), "1".to_string())],
        body: b"data".to_vec(),
    };
    let (request, _) = ProxyHandler::<()>::build_request(inbound);
    let o = HttpProxyMulticastService::plan_request("http://cand:9000", request).unwrap();
    assert_eq!(o.method, "PUT");
    assert_eq!(o.url, "http://cand:9000/items/7?x=1");
    assert_eq!(o.body, Some(b"data".to_vec()));
    let mut lines = o.headers.clone();
    lines.sort();
    assert_eq!(
        lines,
        vec![
            ("accept".to_string(), "b".to_string()),
            ("x-trace-id".to_string(), "t1".to_string()),
        ]
    );
}
