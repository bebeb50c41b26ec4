//! A priority-based I/O throughput rate limiter.
//!
//! The write throughput of a process is capped at a configured budget per
//! second, split into epochs of [`throttle::EPOCH_MS`] milliseconds. The
//! budget is shared by three priorities: the high tier gets the configured
//! budget, and each lower tier gets what the tier above it left unused.
//!
//! The library holds the state and every decision; the caller supplies the
//! clock (a monotonic time in milliseconds), performs the waits it is told to
//! perform, and serialises access to the state.

pub mod types;
pub mod estimator;
pub mod throttle;
pub mod stats;
pub mod limiter;
pub mod laws;

pub use types::{IOOp, IOPriority, IOType};
pub use estimator::IOThroughputEstimator;
pub use throttle::{Admission, PriorityBasedIORateLimiter, PriorityBasedIORateLimiterProtected};
pub use stats::IORateLimiterStatistics;
pub use limiter::IORateLimiter;
