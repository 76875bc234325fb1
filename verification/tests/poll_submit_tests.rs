use exec_client::errors::ExecError;
use exec_client::poll::{build_result_request, poll_step};
use exec_client::poll::{PollDecision, PollResponse, PollStatus};
use exec_client::submit::{build_kill_request, interpret_submit_reply};
use exec_client::submit::{SubmitResponse, SubmitStatus};

#[test]
fn result_request_names_the_handle() {
    assert_eq!(build_result_request(42).process_id, 42);
}

#[test]
fn first_stopped_reply_decides_the_exit_code() {
    let running = PollResponse { status: PollStatus::Running, exit_code: 0 };
    // However many `Running` replies come first, each keeps the loop going.
    assert_eq!(poll_step(Some(running)), PollDecision::Continue);
    assert_eq!(poll_step(Some(running)), PollDecision::Continue);
    let stopped = PollResponse { status: PollStatus::Stopped, exit_code: 7 };
    assert_eq!(poll_step(Some(stopped)), PollDecision::Done { exit_code: 7 });
}

#[test]
fn unknown_poll_status_is_a_remote_error() {
    let reply = PollResponse { status: PollStatus::Unknown, exit_code: 3 };
    assert_eq!(
        poll_step(Some(reply)),
        PollDecision::Fail { error: ExecError::RemoteReportedError }
    );
}

#[test]
fn missing_poll_reply_is_a_transport_failure() {
    assert_eq!(
        poll_step(None),
        PollDecision::Fail { error: ExecError::TransportUnavailable }
    );
}

#[test]
fn running_submission_reply_yields_the_handle() {
    let reply = SubmitResponse { status: SubmitStatus::Running, process_id: 42 };
    assert_eq!(interpret_submit_reply(Some(reply)), Ok(42));
}

#[test]
fn launch_failed_submission_reply_fails() {
    let reply = SubmitResponse { status: SubmitStatus::LaunchFailed, process_id: 0 };
    assert_eq!(
        interpret_submit_reply(Some(reply)),
        Err(ExecError::RemoteSubmissionFailed)
    );
}

#[test]
fn missing_submission_reply_is_a_transport_failure() {
    assert_eq!(
        interpret_submit_reply(None),
        Err(ExecError::TransportUnavailable)
    );
}

#[test]
fn kill_request_names_handle_and_signal() {
    let request = build_kill_request(42, 15);
    assert_eq!(request.process_id, 42);
    assert_eq!(request.signal, 15);
}
