use vstd::prelude::*;

verus! {

/// Default upper bound, in seconds, on the timeout a stop request may carry.
pub const DEFAULT_SERVER_TIMER: u32 = 3;

/// A graceful-shutdown request: how many seconds the service may take to
/// wind down before it stops itself.
#[derive(Clone, Copy, Debug, PartialEq, Eq, Structural)]
pub struct StopRequest {
    pub time: u32,
}

/// How a stop request ended. A transport failure means the service is
/// already gone, which satisfies the caller's intent; neither variant is a
/// failure of the operation.
#[derive(Clone, Copy, Debug, PartialEq, Eq, Structural)]
pub enum StopOutcome {
    /// The service acknowledged the stop request.
    Acknowledged,
    /// The service could not be reached, so it is treated as already stopped.
    AlreadyStopped,
}

/// Clamp a caller-requested stop timeout to the configured maximum.
pub fn clamp_stop_timeout(requested: u32, max: u32) -> (r: u32)
    ensures
        r == (if requested <= max { requested } else { max }),
        r <= max,
{
    if requested <= max {
        requested
    } else {
        max
    }
}

/// Build the request that is sent to the service: the caller's timeout,
/// clamped to `max` seconds.
pub fn build_stop_request(requested: u32, max: u32) -> (r: StopRequest)
    ensures
        r.time == (if requested <= max { requested } else { max }),
        r.time <= max,
{
    StopRequest { time: clamp_stop_timeout(requested, max) }
}

/// Interpret the transport's answer to a stop request: a reply means the
/// service acknowledged; no reply means it was already gone.
pub fn interpret_stop_reply(reply_received: bool) -> (r: StopOutcome)
    ensures
        r == (if reply_received {
            StopOutcome::Acknowledged
        } else {
            StopOutcome::AlreadyStopped
        }),
{
    if reply_received {
        StopOutcome::Acknowledged
    } else {
        StopOutcome::AlreadyStopped
    }
}

} // verus!
