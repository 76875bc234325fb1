use vstd::prelude::*;
use crate::errors::ExecError;

verus! {

/// The immediate answer of the service to a command submission.
#[derive(Clone, Copy, Debug, PartialEq, Eq, Structural)]
pub enum SubmitStatus {
    /// The service could not start the command.
    LaunchFailed,
    /// The command is running; the reply carries its handle.
    Running,
}

/// One submission reply: the status and, when running, the assigned handle.
#[derive(Clone, Copy, Debug, PartialEq, Eq, Structural)]
pub struct SubmitResponse {
    pub status: SubmitStatus,
    pub process_id: i32,
}

/// What a submission reply means: the assigned handle, or why there is
/// none. A missing reply is a transport failure.
pub open spec fn interpret_submit_spec(reply: Option<SubmitResponse>) -> Result<i32, ExecError> {
    match reply {
        Option::Some(r) => match r.status {
            SubmitStatus::LaunchFailed => Result::Err(ExecError::RemoteSubmissionFailed),
            SubmitStatus::Running => Result::Ok(r.process_id),
        },
        Option::None => Result::Err(ExecError::TransportUnavailable),
    }
}

/// Turn the submission reply into an execution handle or a failure.
/// Submission succeeds exactly when the service answered `Running`, and the
/// handle is the one the service assigned.
pub fn interpret_submit_reply(reply: Option<SubmitResponse>) -> (r: Result<i32, ExecError>)
    ensures
        r == interpret_submit_spec(reply),
        r is Ok <==> (reply matches Option::Some(resp) && resp.status is Running),
        reply matches Option::Some(resp) ==> (if resp.status is Running {
            r == Result::<i32, ExecError>::Ok(resp.process_id)
        } else {
            r == Result::<i32, ExecError>::Err(ExecError::RemoteSubmissionFailed)
        }),
        reply is None ==> r == Result::<i32, ExecError>::Err(ExecError::TransportUnavailable),
{
    match reply {
        Option::Some(resp) => match resp.status {
            SubmitStatus::LaunchFailed => Result::Err(ExecError::RemoteSubmissionFailed),
            SubmitStatus::Running => Result::Ok(resp.process_id),
        },
        Option::None => Result::Err(ExecError::TransportUnavailable),
    }
}

/// A request that forwards a signal to a running handle. Delivery is best
/// effort: the driver never surfaces its outcome.
#[derive(Clone, Copy, Debug, PartialEq, Eq, Structural)]
pub struct KillRequest {
    pub process_id: i32,
    pub signal: i32,
}

/// Build the signal-forwarding request for a handle.
pub fn build_kill_request(handle: i32, signal: i32) -> (r: KillRequest)
    ensures
        r.process_id == handle,
        r.signal == signal,
{
    KillRequest { process_id: handle, signal }
}

} // verus!
