//! The proxy: how an incoming request becomes a request to the replicas, how
//! the replicas are addressed and their answers gathered, and which answer the
//! caller gets back.
pub mod handler;
pub mod laws;
pub mod service;
