//! Client-side orchestration for a remote execution service.
//!
//! The client ensures the service is reachable (launching it once if it is
//! not), submits a command with its parameters and environment, polls for the
//! final exit code, forwards signals, and requests a bounded shutdown. The
//! wire transport itself is an external collaborator; this crate verifies the
//! decision logic the client runs around it.

pub mod ensure;
pub mod errors;
pub mod poll;
pub mod request;
pub mod session;
pub mod stop;
pub mod submit;
