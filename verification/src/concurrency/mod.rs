//! Policies for concurrent work: retries, supervision, throttling and
//! shutdown.

pub mod retry;
pub mod shutdown;
pub mod supervisor;
pub mod throttle;

pub use retry::Retry;
pub use supervisor::Supervisor;
pub use throttle::Throttle;
