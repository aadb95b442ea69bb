use degressly_core::models::{DegresslyError, DownstreamResult, HostResults, HostType};
use degressly_core::string_map::StringMap;

fn result(status: u16) -> DownstreamResult {
    DownstreamResult { headers: StringMap::new(), status_code: status, body: None, error: None }
}

#[test]
fn error_messages() {
    assert_eq!(DegresslyError::HttpError("x".to_string()).message(), "HTTP error: x");
    assert_eq!(DegresslyError::KafkaError("k".to_string()).message(), "Kafka error: k");
    assert_eq!(DegresslyError::ConfigError("c".to_string()).message(), "Configuration error: c");
    assert_eq!(DegresslyError::InternalError("i".to_string()).message(), "Internal error: i");
}

#[test]
fn error_status_codes() {
    assert_eq!(DegresslyError::HttpError(String::new()).status_code(), 400);
    assert_eq!(DegresslyError::KafkaError(String::new()).status_code(), 500);
    assert_eq!(DegresslyError::ConfigError(String::new()).status_code(), 500);
    assert_eq!(DegresslyError::InternalError(String::new()).status_code(), 500);
}

#[test]
fn error_bodies_are_json() {
    assert_eq!(
        DegresslyError::InternalError("No response available".to_string()).error_body(),
        "{\"error\":\"Internal error: No response available\"}"
    );
    assert_eq!(
        DegresslyError::HttpError("say \"hi\"\n".to_string()).error_body(),
        "{\"error\":\"HTTP error: say \\\"hi\\\"\\n\"}"
    );
}

#[test]
fn host_results_insert_then_get() {
    let mut r = HostResults::new();
    assert!(r.get(HostType::Primary).is_none());
    r.insert(HostType::Secondary, result(201));
    r.insert(HostType::Secondary, result(202));
    assert_eq!(r.get(HostType::Secondary).unwrap().status_code, 202);
    assert!(r.get(HostType::Candidate).is_none());
    let pairs = r.into_pairs();
    assert_eq!(pairs.len(), 1);
    assert_eq!(pairs[0].0, HostType::Secondary);
}

#[test]
fn host_results_preference_order() {
    let mut r = HostResults::new();
    r.insert(HostType::Candidate, result(3));
    r.insert(HostType::Secondary, result(2));
    assert_eq!(r.into_preferred().unwrap().status_code, 2);
    assert!(HostResults::new().into_preferred().is_none());
}

#[test]
fn string_map_read_after_write() {
    let mut m: StringMap<Vec<String>> = StringMap::new();
    m.insert("a".to_string(), vec!["1".to_string()]);
    m.insert("b".to_string(), vec!["2".to_string()]);
    m.insert("a".to_string(), vec!["3".to_string(), "4".to_string()]);
    assert_eq!(m.get("a"), Some(&vec!["3".to_string(), "4".to_string()]));
    assert_eq!(m.get("b"), Some(&vec!["2".to_string()]));
    assert_eq!(m.get("c"), None);
    assert_eq!(m.entries().len(), 2);
    assert_eq!(m.entries()[0].0, "a");
}
