//! What a message received from Kafka yields.
use vstd::prelude::*;
use vstd::string::*;
use crate::models::DegresslyError;

verus! {

/// The payload of a received message: a message without payload is a Kafka
/// error `Empty message`, and a failure to receive is a Kafka error carrying
/// the failure's text.
pub fn message_payload(received: Result<Option<Vec<u8>>, String>) -> (r: Result<Vec<u8>, DegresslyError>)
    ensures
        received matches Ok(Some(p)) ==> r == Ok::<Vec<u8>, DegresslyError>(p),
        received matches Ok(None) ==> r matches Err(DegresslyError::KafkaError(m)) && m@
            == "Empty message"@,
        received matches Err(m) ==> r == Err::<Vec<u8>, DegresslyError>(
            DegresslyError::KafkaError(m),
        ),
{
    match received {
        Ok(Some(p)) => Ok(p),
        Ok(None) => Err(DegresslyError::KafkaError(String::from_str("Empty message"))),
        Err(m) => Err(DegresslyError::KafkaError(m)),
    }
}

/// The message as it is handed on once its payload was parsed: the parsed
/// value, or a Kafka error carrying the parse failure's text.
pub fn parsed_message<T>(parsed: Result<T, String>) -> (r: Result<Option<T>, DegresslyError>)
    ensures
        parsed matches Ok(t) ==> r == Ok::<Option<T>, DegresslyError>(Some(t)),
        parsed matches Err(m) ==> r == Err::<Option<T>, DegresslyError>(
            DegresslyError::KafkaError(m),
        ),
{
    match parsed {
        Ok(t) => Ok(Some(t)),
        Err(m) => Err(DegresslyError::KafkaError(m)),
    }
}

} // verus!
