//! The retry state machine that gates completion on the service becoming
//! ready.
//!
//! A monitor repeatedly has one probe performed and classified, with a
//! fixed delay between attempts, until a probe comes back `Ready`; it then
//! has the completion handler invoked once and terminates. Retries are
//! unbounded: there is no attempt cap and no backoff, and a transport
//! failure is handled exactly like a not-yet-ready answer. The hosting
//! shell owns the suspensions (the request and the delay) and drives this
//! state machine with each classified outcome.

use vstd::prelude::*;
use crate::probe::ProbeResult;

verus! {

/// The fixed delay, in seconds, between two probe attempts of one monitor.
pub const RETRY_DELAY_SECS: u64 = 2;

/// The bounded timeout, in seconds, of one probe attempt's request.
pub const PROBE_TIMEOUT_SECS: u64 = 5;

/// Where a monitor stands: still polling, or terminally done. `Done` is
/// terminal — a monitor that reached it never polls again.
#[derive(Clone, Copy, PartialEq, Eq, Structural, Debug)]
pub enum MonitorState {
    Polling,
    Done,
}

/// What the hosting shell is to do after one step of the state machine:
/// invoke the completion handler and let the monitor exit, or wait the
/// fixed delay and probe again.
#[derive(Clone, Copy, PartialEq, Eq, Structural, Debug)]
pub enum MonitorAction {
    InvokeCompletion,
    RetryAfterDelay,
}

/// One step of the monitor's state machine, on one classified probe
/// outcome.
///
/// A ready answer ends the monitor and asks for the one completion
/// invocation. Anything else — not ready, or a transport failure — keeps
/// it polling after the same fixed delay; failures never abort the loop
/// and never escalate. `Done` is terminal, so steps are only taken while
/// polling.
pub fn monitor_step(state: MonitorState, probe: &ProbeResult) -> (r: (MonitorState, MonitorAction))
    requires
        state == MonitorState::Polling,
    ensures
        *probe is Ready ==> r == (MonitorState::Done, MonitorAction::InvokeCompletion),
        !(*probe is Ready) ==> r == (MonitorState::Polling, MonitorAction::RetryAfterDelay),
{
    match probe {
        ProbeResult::Ready => (MonitorState::Done, MonitorAction::InvokeCompletion),
        ProbeResult::NotReady => (MonitorState::Polling, MonitorAction::RetryAfterDelay),
        ProbeResult::Failed(_) => (MonitorState::Polling, MonitorAction::RetryAfterDelay),
    }
}

/// Runs the monitor's state machine over a trace of classified probe
/// outcomes and reports how many attempts it takes to reach `Done`: the
/// position, counted from one, of the first ready outcome. `None` means
/// the trace never shows a ready outcome, so a monitor fed it is still
/// polling after the whole trace — no retry cap ends it early.
pub fn attempts_until_ready(trace: &Vec<ProbeResult>) -> (r: Option<usize>)
    ensures
        r matches Some(n) ==> 1 <= n <= trace@.len() && trace@[n - 1] is Ready && (forall|j: int|
            0 <= j < n - 1 ==> !(trace@[j] is Ready)),
        r is None ==> forall|j: int| 0 <= j < trace@.len() ==> !(trace@[j] is Ready),
{
    let mut state = MonitorState::Polling;
    let mut i: usize = 0;
    while i < trace.len()
        invariant
            0 <= i <= trace@.len(),
            state == MonitorState::Polling,
            forall|j: int| 0 <= j < i ==> !(trace@[j] is Ready),
        decreases trace@.len() - i,
    {
        let (next, _action) = monitor_step(state, &trace[i]);
        if next == MonitorState::Done {
            return Some(i + 1);
        }
        state = next;
        i = i + 1;
    }
    None
}

/// Unbounded retry: fed a trace whose attempts all fall short until a
/// final ready one, a monitor retries exactly once per falling-short
/// attempt — the attempt count any run can report for such a trace is the
/// trace's full length, so no retry cap triggers premature termination.
pub proof fn lemma_unbounded_retry(trace: Seq<ProbeResult>, n: int)
    requires
        trace.len() >= 1,
        trace[trace.len() - 1] is Ready,
        forall|j: int| 0 <= j < trace.len() - 1 ==> !(trace[j] is Ready),
        1 <= n <= trace.len(),
        trace[n - 1] is Ready,
        forall|j: int| 0 <= j < n - 1 ==> !(trace[j] is Ready),
    ensures
        n == trace.len(),
{
}

} // verus!
