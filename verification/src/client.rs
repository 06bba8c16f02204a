//! Outbound call classification and retry policy.
//!
//! The signed-request client sends one HTTP call per attempt and parses
//! the platform's generic response envelope `{code, success, msg, data}`.
//! A delivered envelope is classified here: a non-success envelope is a
//! business error, surfaced verbatim and never retried.  Transport-level
//! failures are retried a bounded number of times with capped exponential
//! backoff, then surfaced as `ClientError::Network`.  The sending itself
//! is I/O and happens outside the library: the shell reports each
//! attempt's outcome here and follows the returned step.

use vstd::prelude::*;
use crate::backoff::{backoff_delay, spec_backoff_delay};
use crate::errors::ClientError;

verus! {

/// The platform's generic response envelope, without the opaque `data`
/// payload (which the shell passes through untouched).
pub struct Envelope {
    pub code: i64,
    pub success: bool,
    pub msg: Option<String>,
}

/// How transport retries are spaced and bounded.
#[derive(Clone, Copy, PartialEq, Eq, Structural, Debug)]
pub struct RetryPolicy {
    /// How many retries may follow the first attempt.
    pub max_retries: u64,
    pub base_delay_ms: u64,
    pub max_delay_ms: u64,
}

/// What one send attempt yielded, as the shell observed it.
pub enum AttemptOutcome {
    /// The platform answered with a parsed envelope.
    Delivered { envelope: Envelope },
    /// The connection could not be established.
    ConnectionFailed,
    /// The per-call timeout elapsed first.
    TimedOut,
    /// The platform answered with a server-side HTTP error status.
    ServerError { http_status: u16 },
}

/// What the shell must do after one attempt.
pub enum ClientStep {
    /// The call is over; hand this result to the caller.
    Finish { result: Result<Envelope, ClientError> },
    /// Transient failure: send again after this many milliseconds.
    RetryAfter { delay_ms: u64 },
}

/// An envelope reports success exactly when the platform set `success`
/// and a zero code.
pub open spec fn envelope_ok(code: i64, success: bool) -> bool {
    success && code == 0
}

/// Classify the outcome of attempt number `attempt` (the first attempt
/// is number 0) under `policy`.
///
/// A delivered success envelope finishes with `Ok`.  A delivered
/// non-success envelope finishes at once — never retried — with
/// `RemoteBusiness` carrying the platform's code and message verbatim.
/// A transport failure retries after the backoff delay while attempts
/// remain, and finishes with `Network` once `attempt` reaches the retry
/// budget.
pub fn next_step(outcome: AttemptOutcome, attempt: u64, policy: &RetryPolicy) -> (r: ClientStep)
    ensures
        match outcome {
            AttemptOutcome::Delivered { envelope } => {
                if envelope_ok(envelope.code, envelope.success) {
                    r matches ClientStep::Finish { result } && result is Ok
                        && result->Ok_0 == envelope
                } else {
                    r matches ClientStep::Finish { result } && result matches Err(
                        ClientError::RemoteBusiness { code, msg },
                    ) && code == envelope.code && msg == envelope.msg
                }
            },
            _ => {
                if attempt < policy.max_retries {
                    r == ClientStep::RetryAfter {
                        delay_ms: spec_backoff_delay(
                            policy.base_delay_ms,
                            policy.max_delay_ms,
                            attempt as nat,
                        ),
                    }
                } else {
                    r matches ClientStep::Finish { result } && result matches Err(
                        ClientError::Network,
                    )
                }
            },
        },
{
    match outcome {
        AttemptOutcome::Delivered { envelope } => {
            if envelope.success && envelope.code == 0 {
                ClientStep::Finish { result: Ok(envelope) }
            } else {
                ClientStep::Finish {
                    result: Err(
                        ClientError::RemoteBusiness { code: envelope.code, msg: envelope.msg },
                    ),
                }
            }
        },
        _ => {
            if attempt < policy.max_retries {
                ClientStep::RetryAfter {
                    delay_ms: backoff_delay(
                        policy.base_delay_ms,
                        policy.max_delay_ms,
                        attempt,
                    ),
                }
            } else {
                ClientStep::Finish { result: Err(ClientError::Network) }
            }
        },
    }
}

/// The uniform error envelope the handler layer answers with when a call
/// fails: code `-1`, `success` false, the failure text as the message.
pub fn error_envelope(msg: String) -> (r: Envelope)
    ensures
        r.code == -1,
        !r.success,
        r.msg matches Some(m) && m@ == msg@,
    // the envelope is never classified as a success
        !envelope_ok(r.code, r.success),
{
    Envelope { code: -1, success: false, msg: Some(msg) }
}

} // verus!
