//! How a message is prepared for sending to Kafka, and what a delivery yields.
use vstd::prelude::*;
use vstd::string::*;
use crate::models::DegresslyError;

verus! {

/// How long the producer waits for a message to be queued, in seconds.
pub const SEND_TIMEOUT_SECS: u64 = 5;

/// A message ready to be sent: topic, key, and JSON payload.
#[derive(Debug)]
pub struct OutgoingRecord {
    pub topic: String,
    pub key: String,
    pub payload: String,
}

/// The record to send for a serialized message: the topic, the key (the empty
/// key when none is given) and the payload; a failure to serialize is a Kafka
/// error carrying the failure's text.
pub fn prepare_record(topic: &str, key: Option<&str>, serialized: Result<String, String>) -> (r:
    Result<OutgoingRecord, DegresslyError>)
    ensures
        serialized matches Ok(p) ==> r matches Ok(rec) && rec.topic@ == topic@ && rec.payload == p
            && rec.key@ == (match key {
            Some(k) => k@,
            None => Seq::<char>::empty(),
        }),
        serialized matches Err(m) ==> r == Err::<OutgoingRecord, DegresslyError>(
            DegresslyError::KafkaError(m),
        ),
{
    match serialized {
        Ok(payload) => {
            let key = match key {
                Some(k) => String::from_str(k),
                None => String::new(),
            };
            Ok(OutgoingRecord { topic: String::from_str(topic), key, payload })
        },
        Err(m) => Err(DegresslyError::KafkaError(m)),
    }
}

/// What a delivery attempt yields: success, or a Kafka error carrying the
/// failure's text.
pub fn delivery_outcome(sent: Result<(), String>) -> (r: Result<(), DegresslyError>)
    ensures
        sent is Ok ==> r is Ok,
        sent matches Err(m) ==> r == Err::<(), DegresslyError>(DegresslyError::KafkaError(m)),
{
    match sent {
        Ok(()) => Ok(()),
        Err(m) => Err(DegresslyError::KafkaError(m)),
    }
}

} // verus!
