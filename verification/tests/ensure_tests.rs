use exec_client::ensure::{ensure_action, ensure_init, ensure_step};
use exec_client::ensure::{EnsureAction, EnsureEvent, EnsureState, ProbeOutcome};
use exec_client::errors::ExecError;

#[test]
fn not_serving_fails_without_any_spawn() {
    let state = ensure_init();
    assert_eq!(ensure_action(&state), EnsureAction::IssueProbe);
    let state = ensure_step(state, EnsureEvent::Probed(ProbeOutcome::NotServing));
    assert_eq!(
        state,
        EnsureState::Failed { error: ExecError::ServiceNotServing }
    );
    // The session is over before any spawn could be asked for.
    assert_eq!(ensure_action(&state), EnsureAction::Finish);
}

#[test]
fn serving_succeeds_at_once() {
    let state = ensure_init();
    let state = ensure_step(state, EnsureEvent::Probed(ProbeOutcome::Serving));
    assert_eq!(state, EnsureState::Succeeded);
    assert_eq!(ensure_action(&state), EnsureAction::Finish);
}

#[test]
fn unreachable_then_serving_spawns_exactly_once() {
    let mut spawns = 0;
    let mut state = ensure_init();
    assert_eq!(ensure_action(&state), EnsureAction::IssueProbe);
    state = ensure_step(state, EnsureEvent::Probed(ProbeOutcome::Unreachable));
    assert_eq!(ensure_action(&state), EnsureAction::SpawnServer);
    spawns += 1;
    state = ensure_step(state, EnsureEvent::SpawnSucceeded);
    assert_eq!(ensure_action(&state), EnsureAction::IssueProbe);
    state = ensure_step(state, EnsureEvent::Probed(ProbeOutcome::Serving));
    assert_eq!(state, EnsureState::Succeeded);
    assert_eq!(ensure_action(&state), EnsureAction::Finish);
    assert_eq!(spawns, 1);
}

#[test]
fn unreachable_after_spawn_fails_with_launch_error() {
    let mut state = ensure_init();
    state = ensure_step(state, EnsureEvent::Probed(ProbeOutcome::Unreachable));
    assert_eq!(ensure_action(&state), EnsureAction::SpawnServer);
    state = ensure_step(state, EnsureEvent::SpawnSucceeded);
    state = ensure_step(state, EnsureEvent::Probed(ProbeOutcome::Unreachable));
    assert_eq!(state, EnsureState::Failed { error: ExecError::LaunchFailed });
    // No second spawn is ever asked for.
    assert_eq!(ensure_action(&state), EnsureAction::Finish);
}

#[test]
fn spawn_failure_fails_at_once() {
    let mut state = ensure_init();
    state = ensure_step(state, EnsureEvent::Probed(ProbeOutcome::Unreachable));
    state = ensure_step(state, EnsureEvent::SpawnFailed);
    assert_eq!(state, EnsureState::Failed { error: ExecError::LaunchFailed });
    assert_eq!(ensure_action(&state), EnsureAction::Finish);
}
