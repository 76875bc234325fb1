use vstd::prelude::*;
use crate::ensure::{ensure_action_spec, ensure_enabled, ensure_init_spec, ensure_step_spec};
use crate::ensure::{EnsureAction, EnsureEvent, EnsureState};
use crate::poll::{poll_step_spec, PollDecision, PollResponse};
use crate::submit::{interpret_submit_spec, SubmitResponse};

verus! {

/// The exit disposition of a whole run: `Ok` mirrors a remote exit code of
/// zero; `Err` carries the nonzero remote exit code, or the failure
/// sentinel when the client itself failed.
pub type RunExit = Result<(), i32>;

/// The exit code a run reports for any client-side failure.
pub const FAILURE_EXIT_CODE: i32 = -1;

/// Where a whole exec run stands.
#[derive(Clone, Copy, Debug, PartialEq, Eq)]
pub enum SessionState {
    /// Making sure the service is reachable and serving.
    Ensuring { inner: EnsureState },
    /// Waiting for the reply to the command submission.
    Submitting,
    /// Waiting for the handle to reach a terminal status.
    Waiting { handle: i32 },
    /// The run is over with this exit disposition.
    Finished { exit: RunExit },
}

/// One observation made during an exec run.
#[derive(Clone, Copy, Debug, PartialEq, Eq)]
pub enum SessionEvent {
    /// An observation of the ensure-running phase.
    Ensure(EnsureEvent),
    /// The reply to the command submission, if any arrived.
    SubmitReplied(Option<SubmitResponse>),
    /// The reply to one completion poll, if any arrived.
    PollReplied(Option<PollResponse>),
}

/// What the driver must do next in a given session state.
#[derive(Clone, Copy, Debug, PartialEq, Eq)]
pub enum SessionAction {
    /// Issue a health probe and report its outcome.
    IssueProbe,
    /// Spawn the service once, wait the fixed delay, report the outcome.
    SpawnServer,
    /// Send the command submission and report the reply.
    SendSubmit,
    /// Ask for the result of this handle and report the reply, sleeping the
    /// fixed interval first when the previous reply was `Running`.
    PollResult { handle: i32 },
    /// The run is over; no further event is consumed.
    Finish,
}

/// The state an exec run starts in.
pub open spec fn session_init_spec() -> SessionState {
    SessionState::Ensuring { inner: ensure_init_spec() }
}

/// The starting state of an exec run.
pub fn session_init() -> (s: SessionState)
    ensures
        s == session_init_spec(),
{
    SessionState::Ensuring { inner: EnsureState::Probing { launched: false } }
}

/// The transition a run makes on one observation. Every failure, wherever
/// it happens, finishes the run with the failure sentinel; a `Stopped` poll
/// finishes it with the reported exit code, mirrored into the disposition.
pub open spec fn session_step_spec(s: SessionState, e: SessionEvent) -> SessionState {
    match (s, e) {
        (SessionState::Ensuring { inner }, SessionEvent::Ensure(ev)) => {
            match ensure_step_spec(inner, ev) {
                EnsureState::Succeeded => SessionState::Submitting,
                EnsureState::Failed { error: _ } => SessionState::Finished {
                    exit: Result::Err(FAILURE_EXIT_CODE),
                },
                next => SessionState::Ensuring { inner: next },
            }
        },
        (SessionState::Submitting, SessionEvent::SubmitReplied(reply)) => {
            match interpret_submit_spec(reply) {
                Result::Ok(handle) => SessionState::Waiting { handle },
                Result::Err(_) => SessionState::Finished { exit: Result::Err(FAILURE_EXIT_CODE) },
            }
        },
        (SessionState::Waiting { handle }, SessionEvent::PollReplied(reply)) => {
            match poll_step_spec(reply) {
                PollDecision::Continue => SessionState::Waiting { handle },
                PollDecision::Done { exit_code } => SessionState::Finished {
                    exit: if exit_code == 0 {
                        Result::Ok(())
                    } else {
                        Result::Err(exit_code)
                    },
                },
                PollDecision::Fail { error: _ } => SessionState::Finished {
                    exit: Result::Err(FAILURE_EXIT_CODE),
                },
            }
        },
        _ => s,
    }
}

/// Advance the run by one observation.
pub fn session_step(s: SessionState, e: SessionEvent) -> (r: SessionState)
    ensures
        r == session_step_spec(s, e),
{
    match (s, e) {
        (SessionState::Ensuring { inner }, SessionEvent::Ensure(ev)) => {
            match crate::ensure::ensure_step(inner, ev) {
                EnsureState::Succeeded => SessionState::Submitting,
                EnsureState::Failed { error: _ } => SessionState::Finished {
                    exit: Result::Err(FAILURE_EXIT_CODE),
                },
                next => SessionState::Ensuring { inner: next },
            }
        },
        (SessionState::Submitting, SessionEvent::SubmitReplied(reply)) => {
            match crate::submit::interpret_submit_reply(reply) {
                Result::Ok(handle) => SessionState::Waiting { handle },
                Result::Err(_) => SessionState::Finished { exit: Result::Err(FAILURE_EXIT_CODE) },
            }
        },
        (SessionState::Waiting { handle }, SessionEvent::PollReplied(reply)) => {
            match crate::poll::poll_step(reply) {
                PollDecision::Continue => SessionState::Waiting { handle },
                PollDecision::Done { exit_code } => SessionState::Finished {
                    exit: if exit_code == 0 {
                        Result::Ok(())
                    } else {
                        Result::Err(exit_code)
                    },
                },
                PollDecision::Fail { error: _ } => SessionState::Finished {
                    exit: Result::Err(FAILURE_EXIT_CODE),
                },
            }
        },
        _ => s,
    }
}

/// What the driver must do next in state `s`.
pub open spec fn session_action_spec(s: SessionState) -> SessionAction {
    match s {
        SessionState::Ensuring { inner } => match ensure_action_spec(inner) {
            EnsureAction::IssueProbe => SessionAction::IssueProbe,
            EnsureAction::SpawnServer => SessionAction::SpawnServer,
            EnsureAction::Finish => SessionAction::Finish,
        },
        SessionState::Submitting => SessionAction::SendSubmit,
        SessionState::Waiting { handle } => SessionAction::PollResult { handle },
        SessionState::Finished { .. } => SessionAction::Finish,
    }
}

/// The action the driver must perform next.
pub fn session_action(s: &SessionState) -> (a: SessionAction)
    ensures
        a == session_action_spec(*s),
{
    match s {
        SessionState::Ensuring { inner } => match crate::ensure::ensure_action(inner) {
            EnsureAction::IssueProbe => SessionAction::IssueProbe,
            EnsureAction::SpawnServer => SessionAction::SpawnServer,
            EnsureAction::Finish => SessionAction::Finish,
        },
        SessionState::Submitting => SessionAction::SendSubmit,
        SessionState::Waiting { handle } => SessionAction::PollResult { handle: *handle },
        SessionState::Finished { .. } => SessionAction::Finish,
    }
}

/// An observation can occur only as the answer to the action its state
/// calls for; a finished run consumes nothing.
pub open spec fn session_enabled(s: SessionState, e: SessionEvent) -> bool {
    match (s, e) {
        (SessionState::Ensuring { inner }, SessionEvent::Ensure(ev)) => ensure_enabled(inner, ev),
        (SessionState::Submitting, SessionEvent::SubmitReplied(_)) => true,
        (SessionState::Waiting { .. }, SessionEvent::PollReplied(_)) => true,
        _ => false,
    }
}

/// The state reached after consuming `events` from `s`.
pub open spec fn session_run(s: SessionState, events: Seq<SessionEvent>) -> SessionState
    decreases events.len(),
{
    if events.len() == 0 {
        s
    } else {
        session_run(session_step_spec(s, events.first()), events.drop_first())
    }
}

/// A trace of observations a driver can actually produce from `s`.
pub open spec fn session_trace_wf(s: SessionState, events: Seq<SessionEvent>) -> bool
    decreases events.len(),
{
    events.len() == 0 || (session_enabled(s, events.first()) && session_trace_wf(
        session_step_spec(s, events.first()),
        events.drop_first(),
    ))
}

/// A finished run consumes no further event.
pub proof fn lemma_finished_consumes_nothing(s: SessionState, events: Seq<SessionEvent>)
    requires
        session_trace_wf(s, events),
        s is Finished,
    ensures
        events.len() == 0,
{
}

/// A submission reply that carries no handle ends the run at once with the
/// failure sentinel: nothing further — in particular no poll — is ever
/// issued after a failed submission.
pub proof fn lemma_failed_submission_ends_run(
    s: SessionState,
    events: Seq<SessionEvent>,
    i: int,
)
    requires
        session_trace_wf(s, events),
        0 <= i < events.len(),
        events[i] matches SessionEvent::SubmitReplied(reply) && interpret_submit_spec(reply)
            is Err,
    ensures
        i == events.len() - 1,
        session_run(s, events) == (SessionState::Finished {
            exit: Result::<(), i32>::Err(FAILURE_EXIT_CODE),
        }),
    decreases i,
{
    if i == 0 {
        assert(events.first() == events[0]);
        let next = session_step_spec(s, events.first());
        assert(next is Finished);
        lemma_finished_consumes_nothing(next, events.drop_first());
        assert(session_run(s, events) == session_run(next, events.drop_first()));
        assert(session_run(next, events.drop_first()) == next);
    } else {
        assert(events.first() == events[0]);
        let rest = events.drop_first();
        assert(rest[i - 1] == events[i]);
        lemma_failed_submission_ends_run(session_step_spec(s, events.first()), rest, i - 1);
    }
}

} // verus!
