use vstd::prelude::*;

verus! {

/// Why a client operation failed.
#[derive(Clone, Copy, Debug, PartialEq, Eq, Structural)]
pub enum ExecError {
    /// The service could not be reached at all.
    TransportUnavailable,
    /// The service answered the health probe but refuses to accept work.
    ServiceNotServing,
    /// The single permitted spawn attempt failed, or the service stayed
    /// unreachable after it.
    LaunchFailed,
    /// The service rejected the submitted command.
    RemoteSubmissionFailed,
    /// A completion poll returned an unexpected status.
    RemoteReportedError,
}

} // verus!
