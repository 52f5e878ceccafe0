//! Readiness gating for an application whose visible startup waits on a
//! separately running backend service.
//!
//! The library holds the verified core: classification of a single health
//! probe's outcome (`probe`), the lock-guarded completion flag and the
//! idempotent completion transition (`state`), and the retry state machine
//! that drives probing until the service is ready (`monitor`). The hosting
//! shell performs the actual network request, the delays and the UI calls,
//! and feeds their outcomes through these functions.

pub mod monitor;
pub mod probe;
pub mod state;
