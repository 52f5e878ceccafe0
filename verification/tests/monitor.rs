use healthgate::monitor::{
    attempts_until_ready, monitor_step, MonitorAction, MonitorState, PROBE_TIMEOUT_SECS,
    RETRY_DELAY_SECS,
};
use healthgate::probe::ProbeResult;
use healthgate::state::{set_complete, SetupState, UiModel};

#[test]
fn ready_probe_ends_the_monitor() {
    let (next, action) = monitor_step(MonitorState::Polling, &ProbeResult::Ready);
    assert_eq!(next, MonitorState::Done);
    assert_eq!(action, MonitorAction::InvokeCompletion);
}

#[test]
fn not_ready_probe_keeps_polling() {
    let (next, action) = monitor_step(MonitorState::Polling, &ProbeResult::NotReady);
    assert_eq!(next, MonitorState::Polling);
    assert_eq!(action, MonitorAction::RetryAfterDelay);
}

#[test]
fn failed_probe_keeps_polling_like_not_ready() {
    let failed = ProbeResult::Failed(String::from("connection refused"));
    let (next, action) = monitor_step(MonitorState::Polling, &failed);
    let (next2, action2) = monitor_step(MonitorState::Polling, &ProbeResult::NotReady);
    assert_eq!(next, next2);
    assert_eq!(action, action2);
    assert_eq!(action, MonitorAction::RetryAfterDelay);
}

#[test]
fn delays_are_the_fixed_constants() {
    assert_eq!(RETRY_DELAY_SECS, 2);
    assert_eq!(PROBE_TIMEOUT_SECS, 5);
}

#[test]
fn converges_on_the_third_attempt() {
    let trace = vec![ProbeResult::NotReady, ProbeResult::NotReady, ProbeResult::Ready];
    assert_eq!(attempts_until_ready(&trace), Some(3));
}

#[test]
fn retries_through_arbitrarily_long_failure_streaks() {
    let mut trace: Vec<ProbeResult> = Vec::new();
    for i in 0..57 {
        trace.push(ProbeResult::Failed(format!("attempt {} refused", i)));
    }
    trace.push(ProbeResult::Ready);
    // 58 attempts: 57 retries, none cut off by a cap.
    assert_eq!(attempts_until_ready(&trace), Some(58));
}

#[test]
fn immediate_success_takes_one_attempt() {
    let trace = vec![ProbeResult::Ready];
    assert_eq!(attempts_until_ready(&trace), Some(1));
}

#[test]
fn a_trace_without_success_leaves_the_monitor_polling() {
    let trace = vec![
        ProbeResult::NotReady,
        ProbeResult::Failed(String::from("timed out")),
        ProbeResult::NotReady,
    ];
    assert_eq!(attempts_until_ready(&trace), None);
}

#[test]
fn empty_trace_leaves_the_monitor_polling() {
    let trace: Vec<ProbeResult> = Vec::new();
    assert_eq!(attempts_until_ready(&trace), None);
}

#[test]
fn counting_stops_at_the_first_ready_outcome() {
    let trace = vec![ProbeResult::NotReady, ProbeResult::Ready, ProbeResult::Ready];
    assert_eq!(attempts_until_ready(&trace), Some(2));
}

#[test]
fn two_monitors_converge_to_one_transition() {
    let mut state = SetupState::new();
    let mut ui = UiModel::at_startup();

    // Two independently started monitors, both fed a ready result on their
    // first attempt: each asks for one completion invocation.
    let (first_state, first_action) = monitor_step(MonitorState::Polling, &ProbeResult::Ready);
    let (second_state, second_action) = monitor_step(MonitorState::Polling, &ProbeResult::Ready);
    assert_eq!(first_state, MonitorState::Done);
    assert_eq!(second_state, MonitorState::Done);
    assert_eq!(first_action, MonitorAction::InvokeCompletion);
    assert_eq!(second_action, MonitorAction::InvokeCompletion);

    assert!(set_complete(true, &mut state, &mut ui).is_ok());
    let after_first = (state, ui);
    assert!(set_complete(true, &mut state, &mut ui).is_ok());

    // The second invocation is an idempotent no-op: no duplicate
    // externally visible transition.
    assert_eq!((state, ui), after_first);
    assert!(state.health_check_complete);
    assert!(!ui.splash_open);
    assert!(ui.main_visible);
}
