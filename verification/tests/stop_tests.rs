use exec_client::stop::{build_stop_request, clamp_stop_timeout, interpret_stop_reply};
use exec_client::stop::{StopOutcome, DEFAULT_SERVER_TIMER};

#[test]
fn timeout_above_the_maximum_is_clamped() {
    assert_eq!(clamp_stop_timeout(10, DEFAULT_SERVER_TIMER), 3);
    assert_eq!(clamp_stop_timeout(u32::MAX, DEFAULT_SERVER_TIMER), 3);
    assert_eq!(build_stop_request(10, DEFAULT_SERVER_TIMER).time, 3);
}

#[test]
fn timeout_within_the_maximum_is_kept() {
    assert_eq!(clamp_stop_timeout(2, DEFAULT_SERVER_TIMER), 2);
    assert_eq!(clamp_stop_timeout(3, DEFAULT_SERVER_TIMER), 3);
    assert_eq!(clamp_stop_timeout(0, DEFAULT_SERVER_TIMER), 0);
    assert_eq!(build_stop_request(2, DEFAULT_SERVER_TIMER).time, 2);
}

#[test]
fn a_reply_means_the_stop_was_acknowledged() {
    assert_eq!(interpret_stop_reply(true), StopOutcome::Acknowledged);
}

#[test]
fn no_reply_means_the_service_was_already_gone() {
    assert_eq!(interpret_stop_reply(false), StopOutcome::AlreadyStopped);
}
