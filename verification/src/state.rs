//! The completion flag, the model of the two UI surfaces, and the
//! idempotent completion transition.
//!
//! `SetupState` records whether the one-time completion transition has
//! already occurred. The hosting shell keeps it behind a mutual-exclusion
//! lock; `set_complete` receives whether that lock could be acquired and,
//! on success, performs the transition on the flag and on the library's
//! model of the UI surfaces, while the shell mirrors the model's change
//! onto the real surfaces (close the splash indicator, show the main
//! interface; each a silent no-op if the surface is gone).

use vstd::prelude::*;

verus! {

/// The process-wide completion flag: whether the readiness transition has
/// already occurred. The flag is monotonic — once true it is never reset.
#[derive(Clone, Copy, PartialEq, Eq, Structural, Debug)]
pub struct SetupState {
    pub health_check_complete: bool,
}

/// The library's model of the two UI surfaces the completion transition
/// touches: whether the splash indicator is still open, and whether the
/// main interface is shown.
#[derive(Clone, Copy, PartialEq, Eq, Structural, Debug)]
pub struct UiModel {
    pub splash_open: bool,
    pub main_visible: bool,
}

/// The one way the completion transition can fail: the exclusive-access
/// primitive guarding the flag could not be acquired (for example because
/// it was poisoned by a panic while held). This is surfaced to the caller
/// rather than crashing the process.
#[derive(Clone, Copy, PartialEq, Eq, Structural, Debug)]
pub enum CompletionError {
    LockUnavailable,
}

impl CompletionError {
    /// A human-readable description of this error.
    pub fn message(&self) -> (r: String)
        ensures
            r@ == "the lock guarding the completion flag is unavailable"@,
    {
        "the lock guarding the completion flag is unavailable".to_string()
    }
}

impl SetupState {
    /// A fresh state: the completion transition has not occurred yet.
    pub fn new() -> (r: Self)
        ensures
            !r.health_check_complete,
    {
        SetupState { health_check_complete: false }
    }

    /// Whether the completion transition has already occurred.
    pub fn is_complete(&self) -> (r: bool)
        ensures
            r == self.health_check_complete,
    {
        self.health_check_complete
    }
}

impl UiModel {
    /// The surfaces as they stand at startup: splash shown, main hidden.
    pub fn at_startup() -> (r: Self)
        ensures
            r.splash_open,
            !r.main_visible,
    {
        UiModel { splash_open: true, main_visible: false }
    }
}

/// Where the readiness concern stands as a whole: before any monitor has
/// started, while at least one monitor polls with the flag still false, or
/// terminally ready once the flag is true.
#[derive(Clone, Copy, PartialEq, Eq, Structural, Debug)]
pub enum ReadinessPhase {
    Initializing,
    Polling,
    Ready,
}

/// The readiness phase as a function of how many monitors have started and
/// of the completion flag: a true flag means `Ready` whatever the monitors
/// are still doing; with a false flag, any started monitor means
/// `Polling`, and none means `Initializing`.
pub open spec fn phase_of(monitors_started: int, state: SetupState) -> ReadinessPhase {
    if state.health_check_complete {
        ReadinessPhase::Ready
    } else if monitors_started >= 1 {
        ReadinessPhase::Polling
    } else {
        ReadinessPhase::Initializing
    }
}

/// Reads the readiness phase off the number of monitors started so far and
/// the completion flag.
pub fn readiness_phase(monitors_started: usize, state: &SetupState) -> (r: ReadinessPhase)
    ensures
        r == phase_of(monitors_started as int, *state),
{
    if state.health_check_complete {
        ReadinessPhase::Ready
    } else if monitors_started >= 1 {
        ReadinessPhase::Polling
    } else {
        ReadinessPhase::Initializing
    }
}

/// The observable end state the completion transition establishes: flag
/// true, splash absent, main shown. The transition ignores the prior state,
/// which is what makes it idempotent.
pub open spec fn completed_state() -> (SetupState, UiModel) {
    (
        SetupState { health_check_complete: true },
        UiModel { splash_open: false, main_visible: true },
    )
}

/// One invocation of the completion handler at the specification level:
/// with the lock acquired it establishes the completed state, without it
/// nothing changes.
pub open spec fn complete_transition(s: SetupState, u: UiModel, lock_available: bool) -> (
    SetupState,
    UiModel,
) {
    if lock_available {
        completed_state()
    } else {
        (s, u)
    }
}

/// Idempotently performs the completion transition.
///
/// With the lock acquired it sets the flag — setting it when already set is
/// a harmless re-write, not a second transition — and moves the UI model to
/// its completed shape. Without the lock it reports the failure and leaves
/// everything unchanged; the UI is not touched.
pub fn set_complete(lock_available: bool, state: &mut SetupState, ui: &mut UiModel) -> (r: Result<
    (),
    CompletionError,
>)
    ensures
        lock_available ==> r is Ok && (*final(state), *final(ui)) == completed_state(),
        !lock_available ==> r == Err::<(), CompletionError>(CompletionError::LockUnavailable)
            && *final(state) == *old(state) && *final(ui) == *old(ui),
        old(state).health_check_complete ==> final(state).health_check_complete,
{
    if !lock_available {
        return Err(CompletionError::LockUnavailable);
    }
    state.health_check_complete = true;
    ui.splash_open = false;
    ui.main_visible = true;
    Ok(())
}

/// The observable state after a sequence of completion-handler
/// invocations, each recorded by whether the lock could be acquired.
pub open spec fn observable_after(s: SetupState, u: UiModel, locks: Seq<bool>) -> (
    SetupState,
    UiModel,
)
    decreases locks.len(),
{
    if locks.len() == 0 {
        (s, u)
    } else {
        let stepped = complete_transition(s, u, locks[0]);
        observable_after(stepped.0, stepped.1, locks.drop_first())
    }
}

/// Monotonicity: once the completion flag is true, it remains true under
/// every further sequence of completion-handler invocations, whether or
/// not any of them acquires the lock.
pub proof fn lemma_flag_monotonic(s: SetupState, u: UiModel, locks: Seq<bool>)
    requires
        s.health_check_complete,
    ensures
        observable_after(s, u, locks).0.health_check_complete,
    decreases locks.len(),
{
    if locks.len() > 0 {
        let stepped = complete_transition(s, u, locks[0]);
        lemma_flag_monotonic(stepped.0, stepped.1, locks.drop_first());
    }
}

/// The `Ready` phase is terminal: once the flag is true, no further
/// sequence of completion-handler invocations — a second monitor's success
/// included — moves the readiness concern out of `Ready`, however many
/// monitors are running. Re-entry is a no-op, not a second transition.
pub proof fn lemma_ready_is_terminal(
    s: SetupState,
    u: UiModel,
    locks: Seq<bool>,
    monitors_started: int,
)
    requires
        phase_of(monitors_started, s) == ReadinessPhase::Ready,
    ensures
        phase_of(monitors_started, observable_after(s, u, locks).0) == ReadinessPhase::Ready,
{
    lemma_flag_monotonic(s, u, locks);
}

/// Idempotence: a second completion-handler invocation right after a
/// successful one changes nothing — the observable state after two is the
/// observable state after one.
pub proof fn lemma_complete_idempotent(s: SetupState, u: UiModel)
    ensures
        ({
            let once = complete_transition(s, u, true);
            complete_transition(once.0, once.1, true) == once
        }),
{
}

/// Concurrent monitors converge safely: any number of successful
/// completion-handler invocations — in particular the two that two
/// independently started monitors perform — leave the same observable
/// state as a single one, with no duplicate externally visible transition.
pub proof fn lemma_repeated_completion_converges(s: SetupState, u: UiModel, locks: Seq<bool>)
    requires
        locks.len() >= 1,
        forall|i: int| 0 <= i < locks.len() ==> locks[i],
    ensures
        observable_after(s, u, locks) == completed_state(),
    decreases locks.len(),
{
    let stepped = complete_transition(s, u, locks[0]);
    if locks.len() == 1 {
        assert(locks.drop_first().len() == 0);
    } else {
        assert forall|i: int| 0 <= i < locks.drop_first().len() implies locks.drop_first()[i] by {
            assert(locks.drop_first()[i] == locks[i + 1]);
        }
        lemma_repeated_completion_converges(stepped.0, stepped.1, locks.drop_first());
    }
    assert(observable_after(s, u, locks) == observable_after(
        stepped.0,
        stepped.1,
        locks.drop_first(),
    ));
}

} // verus!
