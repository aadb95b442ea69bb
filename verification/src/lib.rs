//! Verified core of a traffic-duplicating HTTP proxy: requests that reach the
//! proxy are fanned out to a primary, a secondary and a candidate replica, and
//! the primary's answer is handed back; requests replayed from Kafka are fanned
//! out the same way, waiting for every replica.
pub mod config;
pub mod kafka;
pub mod models;
pub mod proxy;
pub mod string_map;
pub mod text;
