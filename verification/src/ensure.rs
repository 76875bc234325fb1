use vstd::prelude::*;
use crate::errors::ExecError;

verus! {

/// What a single health probe of the service reported.
#[derive(Clone, Copy, Debug, PartialEq, Eq, Structural)]
pub enum ProbeOutcome {
    /// The probe was answered: the service accepts work.
    Serving,
    /// The probe was answered: the service refuses work.
    NotServing,
    /// The probe got no answer at all.
    Unreachable,
}

/// One observation made while ensuring that the service runs.
#[derive(Clone, Copy, Debug, PartialEq, Eq, Structural)]
pub enum EnsureEvent {
    /// A health probe completed with the given outcome.
    Probed(ProbeOutcome),
    /// The detached spawn of the service succeeded.
    SpawnSucceeded,
    /// The detached spawn of the service failed.
    SpawnFailed,
}

/// Where an `ensure_running` session stands. `launched` records whether the
/// single permitted spawn attempt has already been used.
#[derive(Clone, Copy, Debug, PartialEq, Eq, Structural)]
pub enum EnsureState {
    /// Waiting for the answer to a health probe.
    Probing { launched: bool },
    /// Waiting for the spawn of the service to complete.
    Spawning,
    /// The service is reachable and serving.
    Succeeded,
    /// The session is over and failed with the given error.
    Failed { error: ExecError },
}

/// What the driver must do next in a given state.
#[derive(Clone, Copy, Debug, PartialEq, Eq, Structural)]
pub enum EnsureAction {
    /// Issue a health probe and report its outcome.
    IssueProbe,
    /// Spawn the service as a detached process, wait the fixed short delay,
    /// and report whether the spawn succeeded.
    SpawnServer,
    /// The session is over; no further event is consumed.
    Finish,
}

/// The state an `ensure_running` session starts in: probe first, nothing
/// spawned yet.
pub open spec fn ensure_init_spec() -> EnsureState {
    EnsureState::Probing { launched: false }
}

/// The starting state of an `ensure_running` session.
pub fn ensure_init() -> (s: EnsureState)
    ensures
        s == ensure_init_spec(),
{
    EnsureState::Probing { launched: false }
}

/// The transition the session makes on one observation:
/// - an answered probe decides immediately: `Serving` succeeds, `NotServing`
///   fails without any launch;
/// - an unanswered probe spawns the service once; a second unanswered probe
///   fails with a launch error;
/// - a failed spawn fails with a launch error, a successful one is followed
///   by exactly one more probe.
pub open spec fn ensure_step_spec(s: EnsureState, e: EnsureEvent) -> EnsureState {
    match s {
        EnsureState::Probing { launched } => match e {
            EnsureEvent::Probed(ProbeOutcome::Serving) => EnsureState::Succeeded,
            EnsureEvent::Probed(ProbeOutcome::NotServing) => EnsureState::Failed {
                error: ExecError::ServiceNotServing,
            },
            EnsureEvent::Probed(ProbeOutcome::Unreachable) => if launched {
                EnsureState::Failed { error: ExecError::LaunchFailed }
            } else {
                EnsureState::Spawning
            },
            _ => s,
        },
        EnsureState::Spawning => match e {
            EnsureEvent::SpawnSucceeded => EnsureState::Probing { launched: true },
            EnsureEvent::SpawnFailed => EnsureState::Failed { error: ExecError::LaunchFailed },
            _ => s,
        },
        _ => s,
    }
}

/// Advance the session by one observation.
pub fn ensure_step(s: EnsureState, e: EnsureEvent) -> (r: EnsureState)
    ensures
        r == ensure_step_spec(s, e),
{
    match s {
        EnsureState::Probing { launched } => match e {
            EnsureEvent::Probed(ProbeOutcome::Serving) => EnsureState::Succeeded,
            EnsureEvent::Probed(ProbeOutcome::NotServing) => EnsureState::Failed {
                error: ExecError::ServiceNotServing,
            },
            EnsureEvent::Probed(ProbeOutcome::Unreachable) => if launched {
                EnsureState::Failed { error: ExecError::LaunchFailed }
            } else {
                EnsureState::Spawning
            },
            _ => s,
        },
        EnsureState::Spawning => match e {
            EnsureEvent::SpawnSucceeded => EnsureState::Probing { launched: true },
            EnsureEvent::SpawnFailed => EnsureState::Failed { error: ExecError::LaunchFailed },
            _ => s,
        },
        _ => s,
    }
}

/// What the driver must do next in state `s`.
pub open spec fn ensure_action_spec(s: EnsureState) -> EnsureAction {
    match s {
        EnsureState::Probing { .. } => EnsureAction::IssueProbe,
        EnsureState::Spawning => EnsureAction::SpawnServer,
        _ => EnsureAction::Finish,
    }
}

/// The action the driver must perform next.
pub fn ensure_action(s: &EnsureState) -> (a: EnsureAction)
    ensures
        a == ensure_action_spec(*s),
{
    match s {
        EnsureState::Probing { .. } => EnsureAction::IssueProbe,
        EnsureState::Spawning => EnsureAction::SpawnServer,
        _ => EnsureAction::Finish,
    }
}

/// An observation `e` can occur in state `s` only as the answer to the
/// action the state calls for; terminal states consume nothing.
pub open spec fn ensure_enabled(s: EnsureState, e: EnsureEvent) -> bool {
    match s {
        EnsureState::Probing { .. } => e is Probed,
        EnsureState::Spawning => e == EnsureEvent::SpawnSucceeded || e
            == EnsureEvent::SpawnFailed,
        _ => false,
    }
}

/// The state reached after consuming `events` from `s`.
pub open spec fn ensure_run(s: EnsureState, events: Seq<EnsureEvent>) -> EnsureState
    decreases events.len(),
{
    if events.len() == 0 {
        s
    } else {
        ensure_run(ensure_step_spec(s, events.first()), events.drop_first())
    }
}

/// A trace of observations a driver can actually produce from `s`: each
/// event answers the action of the state it is consumed in.
pub open spec fn ensure_trace_wf(s: EnsureState, events: Seq<EnsureEvent>) -> bool
    decreases events.len(),
{
    events.len() == 0 || (ensure_enabled(s, events.first()) && ensure_trace_wf(
        ensure_step_spec(s, events.first()),
        events.drop_first(),
    ))
}

/// How many spawn attempts a trace records: every spawn report, successful
/// or not, stands for one attempt.
pub open spec fn spawn_attempts(events: Seq<EnsureEvent>) -> nat
    decreases events.len(),
{
    if events.len() == 0 {
        0
    } else {
        (if events.first() is Probed {
            0nat
        } else {
            1nat
        }) + spawn_attempts(events.drop_first())
    }
}

/// How many spawn attempts may still happen from state `s`.
pub open spec fn spawn_budget(s: EnsureState) -> nat {
    match s {
        EnsureState::Probing { launched } => if launched {
            0
        } else {
            1
        },
        EnsureState::Spawning => 1,
        _ => 0,
    }
}

/// A terminal state consumes no further event: the session is over.
pub proof fn lemma_terminal_consumes_nothing(s: EnsureState, events: Seq<EnsureEvent>)
    requires
        ensure_trace_wf(s, events),
        s is Succeeded || s is Failed,
    ensures
        events.len() == 0,
{
}

/// No driver-producible trace ever records more spawn attempts than the
/// state it starts from still permits.
pub proof fn lemma_spawns_within_budget(s: EnsureState, events: Seq<EnsureEvent>)
    requires
        ensure_trace_wf(s, events),
    ensures
        spawn_attempts(events) <= spawn_budget(s),
    decreases events.len(),
{
    if events.len() > 0 {
        lemma_spawns_within_budget(ensure_step_spec(s, events.first()), events.drop_first());
    }
}

/// From the start of a session, at most one spawn attempt ever happens,
/// whatever the probes report.
pub proof fn lemma_spawn_at_most_once(events: Seq<EnsureEvent>)
    requires
        ensure_trace_wf(ensure_init_spec(), events),
    ensures
        spawn_attempts(events) <= 1,
{
    lemma_spawns_within_budget(ensure_init_spec(), events);
}

/// A session ends after at most three observations: at most two probes
/// around at most one spawn attempt.
pub proof fn lemma_session_is_short(events: Seq<EnsureEvent>)
    requires
        ensure_trace_wf(ensure_init_spec(), events),
    ensures
        events.len() <= 3,
{
    lemma_trace_within_rank(ensure_init_spec(), events);
}

/// How many observations can still be consumed from state `s`.
pub open spec fn ensure_rank(s: EnsureState) -> nat {
    match s {
        EnsureState::Probing { launched } => if launched {
            1
        } else {
            3
        },
        EnsureState::Spawning => 2,
        _ => 0,
    }
}

proof fn lemma_trace_within_rank(s: EnsureState, events: Seq<EnsureEvent>)
    requires
        ensure_trace_wf(s, events),
    ensures
        events.len() <= ensure_rank(s),
    decreases events.len(),
{
    if events.len() > 0 {
        lemma_trace_within_rank(ensure_step_spec(s, events.first()), events.drop_first());
    }
}

/// If the first probe is answered with `NotServing`, the session fails at
/// once with `ServiceNotServing`, nothing is ever spawned, and nothing more
/// happens.
pub proof fn lemma_not_serving_fails_without_spawn(events: Seq<EnsureEvent>)
    requires
        ensure_trace_wf(ensure_init_spec(), events),
        events.len() > 0,
        events.first() == EnsureEvent::Probed(ProbeOutcome::NotServing),
    ensures
        events.len() == 1,
        spawn_attempts(events) == 0,
        ensure_run(ensure_init_spec(), events) == (EnsureState::Failed {
            error: ExecError::ServiceNotServing,
        }),
{
    lemma_terminal_consumes_nothing(
        ensure_step_spec(ensure_init_spec(), events.first()),
        events.drop_first(),
    );
    reveal_with_fuel(ensure_run, 2);
    reveal_with_fuel(spawn_attempts, 2);
}

/// If the probe is unreachable once, the spawn succeeds, and the probe then
/// reports `Serving`, the session succeeds having spawned exactly once.
pub proof fn lemma_unreachable_then_serving_succeeds(events: Seq<EnsureEvent>)
    requires
        events =~= seq![
            EnsureEvent::Probed(ProbeOutcome::Unreachable),
            EnsureEvent::SpawnSucceeded,
            EnsureEvent::Probed(ProbeOutcome::Serving),
        ],
    ensures
        ensure_trace_wf(ensure_init_spec(), events),
        spawn_attempts(events) == 1,
        ensure_run(ensure_init_spec(), events) == EnsureState::Succeeded,
{
    reveal_with_fuel(ensure_run, 4);
    reveal_with_fuel(ensure_trace_wf, 4);
    reveal_with_fuel(spawn_attempts, 4);
    assert(events.drop_first() =~= seq![
        EnsureEvent::SpawnSucceeded,
        EnsureEvent::Probed(ProbeOutcome::Serving),
    ]);
    assert(events.drop_first().drop_first() =~= seq![
        EnsureEvent::Probed(ProbeOutcome::Serving),
    ]);
    assert(events.drop_first().drop_first().drop_first() =~= Seq::<EnsureEvent>::empty());
}

/// If the probe stays unreachable even after the one spawn attempt, the
/// session fails with a launch error, having spawned exactly once.
pub proof fn lemma_unreachable_after_spawn_fails(events: Seq<EnsureEvent>)
    requires
        events =~= seq![
            EnsureEvent::Probed(ProbeOutcome::Unreachable),
            EnsureEvent::SpawnSucceeded,
            EnsureEvent::Probed(ProbeOutcome::Unreachable),
        ],
    ensures
        ensure_trace_wf(ensure_init_spec(), events),
        spawn_attempts(events) == 1,
        ensure_run(ensure_init_spec(), events) == (EnsureState::Failed {
            error: ExecError::LaunchFailed,
        }),
{
    reveal_with_fuel(ensure_run, 4);
    reveal_with_fuel(ensure_trace_wf, 4);
    reveal_with_fuel(spawn_attempts, 4);
    assert(events.drop_first() =~= seq![
        EnsureEvent::SpawnSucceeded,
        EnsureEvent::Probed(ProbeOutcome::Unreachable),
    ]);
    assert(events.drop_first().drop_first() =~= seq![
        EnsureEvent::Probed(ProbeOutcome::Unreachable),
    ]);
    assert(events.drop_first().drop_first().drop_first() =~= Seq::<EnsureEvent>::empty());
}

} // verus!
