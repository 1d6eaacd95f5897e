//! Verified core of an HTTP load generator for a proxy server under test:
//! connection target selection, readiness detection on a child's output,
//! a bounded-concurrency request dispatcher and response validation.

pub mod conn;
pub mod dispatch;
pub mod readiness;
pub mod response;
