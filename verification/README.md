# degressly_core

The verified core of a traffic-duplicating HTTP proxy. A request that reaches
the proxy is sent to a primary, a secondary and a candidate replica; the caller
gets the primary's answer. Requests read from a Kafka replay topic are sent to
all three replicas the same way, waiting for every one of them.

- `src/` is the library, verified with Verus: the data model (`models`), a
  string-keyed map (`string_map`), header text rules (`text`), the proxy's
  request and response handling (`proxy`), the Kafka client configurations and
  the decisions of the consumer, producer and replay loop (`kafka`), and where
  the settings come from (`config`). `proxy/laws.rs` holds properties that span
  several steps.
- `app/` is the server around it: the actix-web handler, the reqwest client that
  talks to the replicas, the rdkafka clients, loading the settings, and the serde
  copies of the data types.
