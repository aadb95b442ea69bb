//! Kafka: the client configurations, what a received message yields, how a
//! message is prepared for sending, and the decisions of the replay loop.
pub mod config;
pub mod consumer;
pub mod producer;
pub mod replay;
