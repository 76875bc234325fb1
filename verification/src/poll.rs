use vstd::prelude::*;
use crate::errors::ExecError;

verus! {

/// What the service reports when asked for the result of a handle.
#[derive(Clone, Copy, Debug, PartialEq, Eq, Structural)]
pub enum PollStatus {
    /// The submitted command is still running.
    Running,
    /// The submitted command has stopped; the reply carries its exit code.
    Stopped,
    /// Anything else the service may report.
    Unknown,
}

/// One completion-status reply.
#[derive(Clone, Copy, Debug, PartialEq, Eq, Structural)]
pub struct PollResponse {
    pub status: PollStatus,
    pub exit_code: i32,
}

/// The request that asks the service for the result of a handle.
#[derive(Clone, Copy, Debug, PartialEq, Eq, Structural)]
pub struct ResultRequest {
    pub process_id: i32,
}

/// What the polling loop does after one reply. A missing reply is a
/// transport failure.
#[derive(Clone, Copy, Debug, PartialEq, Eq, Structural)]
pub enum PollDecision {
    /// Still running: sleep the fixed interval and ask again.
    Continue,
    /// The command stopped with this exit code: the wait is over.
    Done { exit_code: i32 },
    /// The wait failed with this error.
    Fail { error: ExecError },
}

/// Build the completion query for a handle.
pub fn build_result_request(handle: i32) -> (r: ResultRequest)
    ensures
        r.process_id == handle,
{
    ResultRequest { process_id: handle }
}

/// What one reply decides: `Stopped` ends the wait with the reported exit
/// code, `Running` keeps polling, any other status is a remote error and a
/// missing reply a transport failure.
pub open spec fn poll_step_spec(reply: Option<PollResponse>) -> PollDecision {
    match reply {
        Option::Some(r) => match r.status {
            PollStatus::Stopped => PollDecision::Done { exit_code: r.exit_code },
            PollStatus::Running => PollDecision::Continue,
            PollStatus::Unknown => PollDecision::Fail { error: ExecError::RemoteReportedError },
        },
        Option::None => PollDecision::Fail { error: ExecError::TransportUnavailable },
    }
}

/// Decide what the polling loop does after one reply.
pub fn poll_step(reply: Option<PollResponse>) -> (d: PollDecision)
    ensures
        d == poll_step_spec(reply),
{
    match reply {
        Option::Some(r) => match r.status {
            PollStatus::Stopped => PollDecision::Done { exit_code: r.exit_code },
            PollStatus::Running => PollDecision::Continue,
            PollStatus::Unknown => PollDecision::Fail { error: ExecError::RemoteReportedError },
        },
        Option::None => PollDecision::Fail { error: ExecError::TransportUnavailable },
    }
}

/// What a whole sequence of replies makes the wait return: the first reply
/// that is not `Running` decides; `None` means the loop is still waiting.
pub open spec fn wait_outcome(replies: Seq<Option<PollResponse>>) -> Option<Result<i32, ExecError>>
    decreases replies.len(),
{
    if replies.len() == 0 {
        Option::None
    } else {
        match poll_step_spec(replies.first()) {
            PollDecision::Continue => wait_outcome(replies.drop_first()),
            PollDecision::Done { exit_code } => Option::Some(Result::Ok(exit_code)),
            PollDecision::Fail { error } => Option::Some(Result::Err(error)),
        }
    }
}

/// The wait returns the exit code reported with the first `Stopped` reply,
/// however many `Running` replies came before it.
pub proof fn lemma_first_stopped_decides(replies: Seq<Option<PollResponse>>, i: int, code: i32)
    requires
        0 <= i < replies.len(),
        forall|j: int|
            0 <= j < i ==> ((#[trigger] replies[j]) matches Option::Some(r)
                && r.status is Running),
        replies[i] matches Option::Some(r) && r.status is Stopped && r.exit_code == code,
    ensures
        wait_outcome(replies) == Option::Some(Result::<i32, ExecError>::Ok(code)),
    decreases i,
{
    if i == 0 {
        assert(replies.first() == replies[0]);
    } else {
        assert(replies[0] matches Option::Some(r) && r.status is Running);
        assert(replies.first() == replies[0]);
        let rest = replies.drop_first();
        assert forall|j: int| 0 <= j < i - 1 implies ((#[trigger] rest[j]) matches Option::Some(r)
            && r.status is Running) by {
            assert(rest[j] == replies[j + 1]);
        }
        assert(rest[i - 1] == replies[i]);
        lemma_first_stopped_decides(rest, i - 1, code);
    }
}

} // verus!
