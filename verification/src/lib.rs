//! Reusable building blocks for network services: backoff, retry and
//! supervision policies, rate-limit quotas, JSON input validation, message
//! handling and redacted secrets.

pub mod backoff;
pub mod concurrency;
pub mod error;
pub mod network;
pub mod nonzero;
pub mod secret;
pub mod text;
pub mod time;

pub use error::{UtilsError, UtilsReport, UtilsResult};
