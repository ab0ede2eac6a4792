//! Typed request/reply messaging over NATS: connection and subscription
//! settings, and what is decided on the way of a message.

pub mod client;
pub mod config;

pub use config::{NatsConnectOptions, NatsCredentials, SubscriptionConfig};
