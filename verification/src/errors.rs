//! Error taxonomy of the signing subsystem.
//!
//! Supervisor-internal failures (launch errors, crashes, restart
//! exhaustion) are absorbed into the supervisor's health status and never
//! surface here; only the failures a caller must handle are typed.

use vstd::prelude::*;

verus! {

/// Why a signature could not be produced for a request.
#[derive(Clone, Copy, PartialEq, Eq, Structural, Debug)]
pub enum SigningError {
    /// Neither the live engine nor a fresh fallback entry could satisfy
    /// the request.
    Unavailable,
}

/// Why an outbound call to the remote platform failed.
pub enum ClientError {
    /// The platform answered with a non-success envelope; the code and
    /// message are surfaced verbatim and the call is never retried.
    RemoteBusiness { code: i64, msg: Option<String> },
    /// A transport-level failure persisted after the retry budget was
    /// exhausted.
    Network,
    /// No signature headers could be obtained for the request.
    Signing { reason: SigningError },
}

} // verus!
