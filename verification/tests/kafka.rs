use degressly_core::config::Settings;
use degressly_core::kafka::config::KafkaConfig;
use degressly_core::kafka::consumer::{message_payload, parsed_message};
use degressly_core::kafka::producer::{delivery_outcome, prepare_record, SEND_TIMEOUT_SECS};
use degressly_core::kafka::replay::{on_consumed, on_replayed, ReplayAction};
use degressly_core::models::{DegresslyError, DegresslyRequest, HostResults};
use degressly_core::string_map::StringMap;

fn request() -> DegresslyRequest {
    DegresslyRequest {
        trace_id: "test-trace".to_string(),
        method: "POST".to_string(),
        url: "/test".to_string(),
        headers: StringMap::new(),
        body: Some(vec![]),
        params: StringMap::new(),
    }
}

#[test]
fn kafka_config_producer_parameters() {
    let c = KafkaConfig::new("broker:9092".to_string(), "group-1".to_string());
    let p = c.producer_config();
    assert_eq!(p.get("bootstrap.servers"), Some("broker:9092"));
    assert_eq!(p.get("message.timeout.ms"), Some("5000"));
    assert_eq!(p.config_map().len(), 2);
}

#[test]
fn kafka_config_consumer_parameters() {
    let c = KafkaConfig::new("broker:9092".to_string(), "group-1".to_string());
    let k = c.consumer_config();
    assert_eq!(k.get("bootstrap.servers"), Some("broker:9092"));
    assert_eq!(k.get("group.id"), Some("group-1"));
    assert_eq!(k.get("enable.auto.commit"), Some("true"));
    assert_eq!(k.get("auto.offset.reset"), Some("earliest"));
    assert_eq!(k.get("session.timeout.ms"), Some("6000"));
    assert_eq!(k.config_map().len(), 5);
}

#[test]
fn test_producer_template_send_message() {
    let record = prepare_record("test.topic", Some("test-key"), Ok("{\"trace_id\":\"test-trace\"}".to_string())).unwrap();
    assert_eq!(record.topic, "test.topic");
    assert_eq!(record.key, "test-key");
    assert_eq!(record.payload, "{\"trace_id\":\"test-trace\"}");
    assert_eq!(SEND_TIMEOUT_SECS, 5);
    assert!(delivery_outcome(Ok(())).is_ok());
    let _ = request();
}

#[test]
fn producer_record_default_key_and_errors() {
    let record = prepare_record("t", None, Ok("{}".to_string())).unwrap();
    assert_eq!(record.key, "");
    match prepare_record("t", None, Err("bad".to_string())) {
        Err(DegresslyError::KafkaError(m)) => assert_eq!(m, "bad"),
        other => panic!("unexpected {:?}", other),
    }
    match delivery_outcome(Err("queue full".to_string())) {
        Err(DegresslyError::KafkaError(m)) => assert_eq!(m, "queue full"),
        other => panic!("unexpected {:?}", other),
    }
}

#[test]
fn consumer_payload_rules() {
    assert_eq!(message_payload(Ok(Some(b"{}".to_vec()))).unwrap(), b"{}".to_vec());
    match message_payload(Ok(None)) {
        Err(DegresslyError::KafkaError(m)) => assert_eq!(m, "Empty message"),
        other => panic!("unexpected {:?}", other),
    }
    match message_payload(Err("broker down".to_string())) {
        Err(DegresslyError::KafkaError(m)) => assert_eq!(m, "broker down"),
        other => panic!("unexpected {:?}", other),
    }
    assert_eq!(parsed_message::<u32>(Ok(7)).unwrap(), Some(7));
    match parsed_message::<u32>(Err("expected value".to_string())) {
        Err(DegresslyError::KafkaError(m)) => assert_eq!(m, "expected value"),
        other => panic!("unexpected {:?}", other),
    }
}

#[test]
fn test_replay_receiver() {
    match on_consumed(Ok(Some(request()))) {
        ReplayAction::Dispatch { request, wait_for_all_replicas } => {
            assert!(wait_for_all_replicas);
            assert_eq!(request.trace_id, "test-trace");
        }
        other => panic!("unexpected {:?}", other),
    }
    assert!(matches!(on_replayed(Ok(HostResults::new())), ReplayAction::Continue));
}

#[test]
fn replay_stops_on_errors() {
    assert!(matches!(on_consumed(Ok(None)), ReplayAction::Continue));
    assert!(matches!(
        on_consumed(Err(DegresslyError::KafkaError("x".into()))),
        ReplayAction::Stop(DegresslyError::KafkaError(_))
    ));
    assert!(matches!(
        on_replayed(Err(DegresslyError::HttpError("y".into()))),
        ReplayAction::Stop(DegresslyError::HttpError(_))
    ));
}

#[test]
fn settings_sources() {
    let s = Settings::sources(None);
    assert_eq!(s.default_file, "config/default.yaml");
    assert_eq!(s.environment_file, "config/development.yaml");
    assert!(!s.environment_file_required);
    assert_eq!(s.environment_prefix, "APP");
    let s = Settings::sources(Some("production".to_string()));
    assert_eq!(s.environment_file, "config/production.yaml");
}
