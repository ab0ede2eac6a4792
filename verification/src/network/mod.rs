//! Networking policies: request pacing, retry decisions, message handling
//! and input validation.

pub mod client;
pub mod nats;
pub mod rate_limit;
pub mod retry;
pub mod validation;

pub use rate_limit::RateLimitWindow;
pub use retry::{RetryPolicy, RetryingClient};
pub use validation::validate_and_parse_json;
