//! Request-execution core of a client for a versioned solar-plant telemetry API:
//! safe URL construction from untrusted path segments, the bearer-token session
//! slot, the single refresh-and-retry protocol, error classification and the
//! tag-dispatched decoding of metrics payloads.

pub mod client;
pub mod endpoint;
pub mod error;
pub mod executor;
pub mod json;
pub mod metrics;
pub mod model;
pub mod path;
pub mod session;
mod text;
