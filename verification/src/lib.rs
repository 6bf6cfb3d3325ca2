//! Trust-gated control-plane gateway for a background network-tunnel service.
//!
//! The gateway exposes a request/response and publish/subscribe API to local
//! control clients. Each connection is authenticated against a shared secret;
//! authorized requests are turned into commands and queued towards the tunnel
//! service's serialized control loop, and asynchronous state or error events
//! are fanned out to the subscribers of two fixed topics.

pub mod channel;
pub mod error;
pub mod gateway;
pub mod laws;
pub mod registry;
pub mod session;
pub mod types;
