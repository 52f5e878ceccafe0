//! Classification of a single health-probe attempt.
//!
//! One probe is one bounded-timeout HTTP request against the local health
//! endpoint. The request itself is I/O and lives in the hosting shell; the
//! shell hands the outcome over as plain values (a status code, or a
//! transport error) and this module classifies it.

use vstd::prelude::*;

verus! {

/// The classification of one health-probe attempt.
///
/// `Ready` means the endpoint answered with status 200. `NotReady` means it
/// answered with any other status: the service is reachable but not yet
/// ready, which is not an error. `Failed` means the transport itself failed
/// (client construction, connection, or timeout) and carries a
/// human-readable cause.
pub enum ProbeResult {
    Ready,
    NotReady,
    Failed(String),
}

/// A transport-level failure of one probe attempt: either the HTTP client
/// could not be constructed, or the request itself failed (connection
/// refused, DNS failure, timeout). Both are retryable and are treated
/// identically by the monitor.
pub enum TransportError {
    ClientBuild(String),
    Network(String),
}

/// The cause string carried by a transport error.
pub open spec fn transport_reason(e: TransportError) -> Seq<char> {
    match e {
        TransportError::ClientBuild(msg) => msg@,
        TransportError::Network(msg) => msg@,
    }
}

impl TransportError {
    /// Hands out the human-readable cause of this failure.
    pub fn reason(&self) -> (r: String)
        ensures
            r@ == transport_reason(*self),
    {
        match self {
            TransportError::ClientBuild(msg) => msg.clone(),
            TransportError::Network(msg) => msg.clone(),
        }
    }
}

/// How an HTTP status code is classified: exactly status 200 means ready;
/// every other received status means the service is not yet ready.
pub open spec fn status_class(status: u16) -> ProbeResult {
    if status == 200 {
        ProbeResult::Ready
    } else {
        ProbeResult::NotReady
    }
}

/// Classifies a received HTTP status code.
pub fn classify_status(status: u16) -> (r: ProbeResult)
    ensures
        r == status_class(status),
{
    if status == 200 {
        ProbeResult::Ready
    } else {
        ProbeResult::NotReady
    }
}

/// Classifies the outcome of one probe attempt as handed over by the
/// hosting shell: a received status code, or a transport error.
pub fn classify_probe(outcome: Result<u16, TransportError>) -> (r: ProbeResult)
    ensures
        outcome matches Ok(status) ==> r == status_class(status),
        outcome matches Err(e) ==> r matches ProbeResult::Failed(msg) && msg@ == transport_reason(
            e,
        ),
{
    match outcome {
        Ok(status) => classify_status(status),
        Err(e) => ProbeResult::Failed(e.reason()),
    }
}

} // verus!
