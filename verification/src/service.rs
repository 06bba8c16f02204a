//! Two-tier signature resolution.
//!
//! A signing call queries the live engine only while the supervisor
//! reports `Healthy`; every engine-sourced result refreshes the fallback
//! cache under the request's fingerprint.  When the engine is not queried,
//! times out or fails, the call falls through to a fresh cache entry, and
//! fails with `SigningError::Unavailable` when none exists.  Waiting on
//! the engine is I/O and happens outside the library: the shell reports
//! the outcome of the bounded wait here, and resolution is verified for
//! every possible outcome.

use vstd::prelude::*;
use crate::cache::FallbackCache;
use crate::errors::SigningError;
use crate::headers::{SignatureHeaders, SignatureResult, SignatureSource, headers_eq};
use crate::supervisor::LifecycleState;

verus! {

/// What the bounded wait on the signing engine yielded.
pub enum EngineOutcome {
    /// The engine answered with a complete header set.
    Responded { headers: SignatureHeaders },
    /// The per-call timeout elapsed first.
    TimedOut,
    /// The engine reported a failure for this request.
    Failed,
}

/// Whether the engine must be queried for a signing call, given the
/// supervisor's status: exactly when the engine is healthy.
pub fn plan_sign(status: LifecycleState) -> (r: bool)
    ensures
        r == (status is Healthy),
{
    matches!(status, LifecycleState::Healthy)
}

/// Resolve one signing call, given the supervisor's status at the time of
/// the call and the outcome of the engine query (present exactly when the
/// status directed one, per `plan_sign`).
///
/// While healthy and answered, the result carries the engine's complete
/// header set tagged `Engine`, and the cache entry under `fp` is
/// refreshed.  On any failed engine path, a fresh cache entry under `fp`
/// is returned tagged `Fallback` and the cache is unchanged; with no
/// fresh entry the call fails with `Unavailable` — it never blocks.
pub fn resolve_sign(
    cache: &mut FallbackCache,
    status: LifecycleState,
    fp: u64,
    outcome: Option<EngineOutcome>,
    now_ms: u64,
    valid_for_ms: u64,
) -> (r: Result<SignatureResult, SigningError>)
    requires
        old(cache).wf(),
        outcome is Some <==> status is Healthy,
    ensures
        final(cache).wf(),
        final(cache).ttl_ms == old(cache).ttl_ms,
        match outcome {
            Option::Some(EngineOutcome::Responded { headers }) => {
                &&& r is Ok
                &&& r->Ok_0.source is Engine
                &&& headers_eq(r->Ok_0.headers, headers)
                &&& r->Ok_0.issued_at_ms == now_ms
                &&& r->Ok_0.valid_for_ms == valid_for_ms
                &&& final(cache).has_fp(fp)
                &&& headers_eq(final(cache).entry_for(fp).headers, headers)
                &&& final(cache).entry_for(fp).stored_at_ms == now_ms
                &&& forall|g: u64| g != fp ==> final(cache).has_fp(g) == old(cache).has_fp(g)
                &&& forall|g: u64|
                    g != fp && old(cache).has_fp(g) ==> final(cache).entry_for(g) == old(
                        cache,
                    ).entry_for(g)
            },
            _ => {
                &&& *final(cache) == *old(cache)
                &&& (old(cache).has_fresh(fp, now_ms) ==> {
                    &&& r is Ok
                    &&& r->Ok_0.source is Fallback
                    &&& headers_eq(r->Ok_0.headers, old(cache).entry_for(fp).headers)
                    &&& r->Ok_0.issued_at_ms == now_ms
                    &&& r->Ok_0.valid_for_ms == valid_for_ms
                })
                &&& (!old(cache).has_fresh(fp, now_ms) ==> r == Err::<SignatureResult, SigningError>(
                    SigningError::Unavailable,
                ))
            },
        },
{
    match outcome {
        Some(EngineOutcome::Responded { headers }) => {
            cache.insert(fp, headers.duplicate(), now_ms);
            Ok(
                SignatureResult {
                    headers,
                    source: SignatureSource::Engine,
                    issued_at_ms: now_ms,
                    valid_for_ms,
                },
            )
        },
        _ => {
            match cache.get_fresh(fp, now_ms) {
                Some(headers) => Ok(
                    SignatureResult {
                        headers,
                        source: SignatureSource::Fallback,
                        issued_at_ms: now_ms,
                        valid_for_ms,
                    },
                ),
                None => Err(SigningError::Unavailable),
            }
        },
    }
}

} // verus!
